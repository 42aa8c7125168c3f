//! The execution context: it owns the byte streams, the native-layer
//! response profiles, the codec registry (at most one codec per stream
//! identifier), the frame arena and the externally supplied pointer slots.

use vstd::prelude::*;
use crate::errors::{ErrorKind, FlowError};
use crate::types::{DecoderCommand, EncodeResult, EncoderPreset, FrameInfo, ImageInfo, PixelFormat};
use crate::io::{IoDirection, IoProxy};
use crate::codecs::{
    is_gif_signature, gif_screen_width, gif_screen_height, spec_bind_encoder,
    spec_classic_write_error, spec_exif_flag, spec_preset_extension, spec_preset_mime_type,
    spec_read_result, ClassicDecoder, CodecInstanceContainer, CodecKind, Decoder, Encoder,
    GifDecoder, NativeCodecProfile,
};

verus! {

/// One registered stream: its bytes, its direction, and what the native
/// codec layer reports about it.
pub struct IoResource {
    pub io: IoProxy,
    pub direction: IoDirection,
    pub native: NativeCodecProfile,
}

/// The codec a first access to this stream would bind: a placeholder for an
/// output stream; for an input stream, the managed GIF decoder on a GIF
/// signature, else the native adapter for the natively detected codec.
pub open spec fn spec_create_result(entry: IoResource, io_id: i32) -> Result<
    CodecInstanceContainer,
    FlowError,
> {
    if entry.direction is Out {
        Ok(CodecInstanceContainer { io_id, codec: CodecKind::EncoderPlaceholder })
    } else if is_gif_signature(entry.io.remaining()) {
        if entry.io.bytes@.len() >= 10 {
            Ok(
                CodecInstanceContainer {
                    io_id,
                    codec: CodecKind::Decoder(Decoder::Gif(GifDecoder {
                        io_id,
                        w: gif_screen_width(entry.io.bytes@) as u32,
                        h: gif_screen_height(entry.io.bytes@) as u32,
                    })),
                },
            )
        } else {
            Err(FlowError { kind: ErrorKind::InvalidArgument })
        }
    } else if entry.native.select_result == 0 {
        Err(FlowError { kind: ErrorKind::NativeCodecError })
    } else {
        Ok(
            CodecInstanceContainer {
                io_id,
                codec: CodecKind::Decoder(Decoder::Classic(ClassicDecoder {
                    io_id,
                    codec_id: entry.native.select_result,
                    initialized: false,
                })),
            },
        )
    }
}

/// The execution context.
pub struct Context {
    pub io: Vec<IoResource>,
    pub codecs: Vec<CodecInstanceContainer>,
    pub frames: Vec<FrameInfo>,
    pub slots: Vec<Option<usize>>,
}

/// How one codec access may change the registry: stream contents, stream
/// directions and native profiles never change; only the accessed stream's
/// position may move; containers for other streams are untouched; and at
/// most one container — for the accessed stream, and only if none existed —
/// is appended.
pub open spec fn registry_step(pre: Context, post: Context, io_id: i32) -> bool {
    &&& post.slots == pre.slots
    &&& post.io@.len() == pre.io@.len()
    &&& forall|j: int|
        0 <= j < pre.io@.len() ==> (#[trigger] post.io@[j]).io.bytes == pre.io@[j].io.bytes
            && post.io@[j].io.io_id == pre.io@[j].io.io_id && post.io@[j].direction
            == pre.io@[j].direction && post.io@[j].native == pre.io@[j].native
    &&& forall|j: int|
        0 <= j < pre.io@.len() && pre.io@[j].io.io_id != io_id ==> #[trigger] post.io@[j]
            == pre.io@[j]
    &&& pre.codecs@.len() <= post.codecs@.len() <= pre.codecs@.len() + 1
    &&& (pre.has_codec(io_id) ==> post.codecs@.len() == pre.codecs@.len())
    &&& forall|j: int|
        0 <= j < pre.codecs@.len() ==> (#[trigger] post.codecs@[j]).io_id == pre.codecs@[j].io_id
    &&& forall|j: int|
        0 <= j < pre.codecs@.len() && pre.codecs@[j].io_id != io_id ==> #[trigger] post.codecs@[j]
            == pre.codecs@[j]
    &&& (post.codecs@.len() > pre.codecs@.len() ==> post.codecs@[pre.codecs@.len() as int].io_id
        == io_id)
}

impl Context {
    /// Streams and codecs are keyed by unique identifiers, every codec
    /// belongs to a registered stream, every stream position is in bounds,
    /// and every filled pointer slot names a frame in the arena.
    pub open spec fn wf(&self) -> bool {
        &&& forall|i: int, j: int|
            0 <= i < j < self.io@.len() ==> (#[trigger] self.io@[i]).io.io_id != (
            #[trigger] self.io@[j]).io.io_id
        &&& forall|i: int| 0 <= i < self.io@.len() ==> (#[trigger] self.io@[i]).io.wf()
        &&& forall|i: int, j: int|
            0 <= i < j < self.codecs@.len() ==> (#[trigger] self.codecs@[i]).io_id != (
            #[trigger] self.codecs@[j]).io_id
        &&& forall|i: int|
            0 <= i < self.codecs@.len() ==> self.has_io((#[trigger] self.codecs@[i]).io_id)
        &&& forall|i: int|
            0 <= i < self.slots@.len() ==> ((#[trigger] self.slots@[i]) matches Some(f) ==> f
                < self.frames@.len())
    }

    pub open spec fn has_io(&self, io_id: i32) -> bool {
        exists|i: int| 0 <= i < self.io@.len() && (#[trigger] self.io@[i]).io.io_id == io_id
    }

    pub open spec fn io_index(&self, io_id: i32) -> int {
        choose|i: int| 0 <= i < self.io@.len() && (#[trigger] self.io@[i]).io.io_id == io_id
    }

    pub open spec fn has_codec(&self, io_id: i32) -> bool {
        exists|i: int| 0 <= i < self.codecs@.len() && (#[trigger] self.codecs@[i]).io_id == io_id
    }

    pub open spec fn codec_index(&self, io_id: i32) -> int {
        choose|i: int| 0 <= i < self.codecs@.len() && (#[trigger] self.codecs@[i]).io_id == io_id
    }

    /// The native-layer profile registered for a stream.
    pub open spec fn io_profile(&self, io_id: i32) -> NativeCodecProfile {
        self.io@[self.io_index(io_id)].native
    }

    /// The container a codec access to `io_id` works with: the registered
    /// one, or the one that would be created on first access.
    pub open spec fn spec_codec_result(&self, io_id: i32) -> Result<
        CodecInstanceContainer,
        FlowError,
    > {
        if self.has_codec(io_id) {
            Ok(self.codecs@[self.codec_index(io_id)])
        } else if !self.has_io(io_id) {
            Err(FlowError { kind: ErrorKind::InvalidArgument })
        } else {
            spec_create_result(self.io@[self.io_index(io_id)], io_id)
        }
    }

    pub fn new() -> (r: Context)
        ensures
            r.wf(),
            r.io@.len() == 0,
            r.codecs@.len() == 0,
            r.frames@.len() == 0,
            r.slots@.len() == 0,
    {
        Context { io: Vec::new(), codecs: Vec::new(), frames: Vec::new(), slots: Vec::new() }
    }

    /// Register a stream with its native-layer profile. Stream identifiers
    /// are unique per job; a duplicate is rejected.
    pub fn add_io(
        &mut self,
        io_id: i32,
        direction: IoDirection,
        bytes: Vec<u8>,
        native: NativeCodecProfile,
    ) -> (r: Result<(), FlowError>)
        requires
            old(self).wf(),
        ensures
            final(self).wf(),
            old(self).has_io(io_id) ==> ({
                &&& *final(self) == *old(self)
                &&& r matches Err(e) && e.kind == ErrorKind::InvalidArgument
            }),
            !old(self).has_io(io_id) ==> ({
                &&& r is Ok
                &&& final(self).io@.len() == old(self).io@.len() + 1
                &&& forall|j: int|
                    0 <= j < old(self).io@.len() ==> #[trigger] final(self).io@[j] == old(
                        self,
                    ).io@[j]
                &&& final(self).io@[old(self).io@.len() as int].io.io_id == io_id
                &&& final(self).io@[old(self).io@.len() as int].io.bytes == bytes
                &&& final(self).io@[old(self).io@.len() as int].io.pos == 0
                &&& final(self).io@[old(self).io@.len() as int].direction == direction
                &&& final(self).io@[old(self).io@.len() as int].native == native
                &&& final(self).codecs == old(self).codecs
                &&& final(self).frames == old(self).frames
                &&& final(self).slots == old(self).slots
                &&& final(self).has_io(io_id)
            }),
    {
        if self.find_io(io_id).is_some() {
            return Err(FlowError::new(ErrorKind::InvalidArgument));
        }
        let entry = IoResource { io: IoProxy::create(io_id, bytes), direction, native };
        self.io.push(entry);
        proof {
            assert forall|id: i32| old(self).has_io(id) implies self.has_io(id) by {
                let i = choose|i: int|
                    0 <= i < old(self).io@.len() && (#[trigger] old(self).io@[i]).io.io_id == id;
                assert(self.io@[i].io.io_id == id);
            }
        }
        Ok(())
    }

    /// Put a frame into the arena, returning its handle.
    pub fn add_frame(&mut self, f: FrameInfo) -> (r: usize)
        requires
            old(self).wf(),
        ensures
            final(self).wf(),
            final(self).frames@ == old(self).frames@.push(f),
            final(self).io == old(self).io,
            final(self).codecs == old(self).codecs,
            final(self).slots == old(self).slots,
            r == old(self).frames@.len(),
    {
        let idx = self.frames.len();
        self.frames.push(f);
        idx
    }

    /// Register an externally supplied pointer slot, optionally already
    /// holding a frame.
    pub fn add_slot(&mut self, initial: Option<usize>) -> (r: Result<usize, FlowError>)
        requires
            old(self).wf(),
        ensures
            final(self).wf(),
            initial matches Some(f) ==> (f >= old(self).frames@.len() ==> ({
                &&& *final(self) == *old(self)
                &&& r matches Err(e) && e.kind == ErrorKind::InvalidArgument
            })),
            (match initial {
                Some(f) => f < old(self).frames@.len(),
                None => true,
            }) ==> ({
                &&& r == Ok::<usize, FlowError>(old(self).slots@.len() as usize)
                &&& final(self).slots@ == old(self).slots@.push(initial)
                &&& final(self).io == old(self).io
                &&& final(self).codecs == old(self).codecs
                &&& final(self).frames == old(self).frames
            }),
    {
        if let Some(f) = initial {
            if f >= self.frames.len() {
                return Err(FlowError::new(ErrorKind::InvalidArgument));
            }
        }
        let idx = self.slots.len();
        self.slots.push(initial);
        Ok(idx)
    }

    /// Index of the stream registered under `io_id`, if any.
    fn find_io(&self, io_id: i32) -> (r: Option<usize>)
        ensures
            r matches Some(i) ==> (i < self.io@.len() && self.io@[i as int].io.io_id == io_id
                && self.has_io(io_id)),
            r is None ==> !self.has_io(io_id),
    {
        let mut i: usize = 0;
        while i < self.io.len()
            invariant
                i <= self.io@.len(),
                forall|j: int| 0 <= j < i ==> (#[trigger] self.io@[j]).io.io_id != io_id,
            decreases self.io@.len() - i,
        {
            if self.io[i].io.io_id == io_id {
                return Some(i);
            }
            i += 1;
        }
        None
    }

    /// Index of the codec container bound to `io_id`, if any.
    fn find_codec(&self, io_id: i32) -> (r: Option<usize>)
        ensures
            r matches Some(i) ==> (i < self.codecs@.len() && self.codecs@[i as int].io_id == io_id
                && self.has_codec(io_id)),
            r is None ==> !self.has_codec(io_id),
    {
        let mut i: usize = 0;
        while i < self.codecs.len()
            invariant
                i <= self.codecs@.len(),
                forall|j: int| 0 <= j < i ==> (#[trigger] self.codecs@[j]).io_id != io_id,
            decreases self.codecs@.len() - i,
        {
            if self.codecs[i].io_id == io_id {
                return Some(i);
            }
            i += 1;
        }
        None
    }

    /// The registry access point: the container already bound to `io_id`,
    /// or — on first access — the one that format detection constructs.
    /// A container is constructed at most once per stream identifier;
    /// repeated accesses return the bound instance untouched.
    pub fn get_codec(&mut self, io_id: i32) -> (r: Result<usize, FlowError>)
        requires
            old(self).wf(),
        ensures
            final(self).wf(),
            final(self).frames == old(self).frames,
            registry_step(*old(self), *final(self), io_id),
            old(self).has_codec(io_id) ==> (*final(self) == *old(self) && r == Ok::<
                usize,
                FlowError,
            >(old(self).codec_index(io_id) as usize)),
            !old(self).has_codec(io_id) && !old(self).has_io(io_id) ==> ({
                &&& *final(self) == *old(self)
                &&& r matches Err(e) && e.kind == ErrorKind::InvalidArgument
            }),
            !old(self).has_codec(io_id) && old(self).has_io(io_id) ==> ({
                &&& old(self).spec_codec_result(io_id) matches Ok(c) ==> (final(self).codecs@
                    == old(self).codecs@.push(c) && r == Ok::<usize, FlowError>(
                    old(self).codecs@.len() as usize,
                ) && final(self).has_codec(io_id))
                &&& old(self).spec_codec_result(io_id) matches Err(e) ==> (final(self).codecs
                    == old(self).codecs && r == Err::<usize, FlowError>(e))
                &&& (old(self).io@[old(self).io_index(io_id)].direction is In
                    ==> final(self).io@[old(self).io_index(io_id)].io.pos == 0)
            }),
            r matches Ok(i) ==> (i < final(self).codecs@.len() && final(self).codecs@[i as int].io_id
                == io_id && final(self).has_codec(io_id) && final(self).codec_index(io_id)
                == i as int),
    {
        match self.find_codec(io_id) {
            Some(i) => {
                proof {
                    assert(old(self).codec_index(io_id) == i as int);
                }
                Ok(i)
            },
            None => {
                match self.find_io(io_id) {
                    None => Err(FlowError::new(ErrorKind::InvalidArgument)),
                    Some(i) => {
                        proof {
                            assert(old(self).io_index(io_id) == i as int);
                        }
                        let ghost pre_entry = self.io@[i as int];
                        let mut entry = self.io.remove(i);
                        let dir = entry.direction;
                        let select = entry.native.select_result;
                        let created = CodecInstanceContainer::create(
                            &mut entry.io,
                            io_id,
                            dir,
                            select,
                        );
                        self.io.insert(i, entry);
                        proof {
                            assert(self.io@.len() == old(self).io@.len());
                            assert(forall|j: int|
                                0 <= j < self.io@.len() && j != i ==> #[trigger] self.io@[j]
                                    == old(self).io@[j]);
                            assert(self.io@[i as int].io.io_id == io_id);
                            assert(self.io@[i as int].io.wf());
                            assert(forall|j: int|
                                0 <= j < self.io@.len() ==> (#[trigger] self.io@[j]).io.io_id
                                    == old(self).io@[j].io.io_id);
                            assert forall|id: i32| old(self).has_io(id) implies self.has_io(
                                id,
                            ) by {
                                let m = choose|m: int|
                                    0 <= m < old(self).io@.len() && (#[trigger] old(
                                        self,
                                    ).io@[m]).io.io_id == id;
                                assert(self.io@[m].io.io_id == id);
                            }
                            assert(created == spec_create_result(pre_entry, io_id));
                        }
                        match created {
                            Ok(c) => {
                                let idx = self.codecs.len();
                                self.codecs.push(c);
                                proof {
                                    assert(self.codecs@[idx as int].io_id == io_id);
                                    assert(self.has_codec(io_id));
                                    assert(self.codec_index(io_id) == idx as int);
                                    assert forall|k: int|
                                        0 <= k < self.codecs@.len() implies self.has_io(
                                        (#[trigger] self.codecs@[k]).io_id,
                                    ) by {
                                        if k < idx {
                                            let m = choose|m: int|
                                                0 <= m < old(self).io@.len()
                                                && (#[trigger] old(self).io@[m]).io.io_id
                                                == old(self).codecs@[k].io_id;
                                            assert(self.io@[m].io.io_id
                                                == old(self).codecs@[k].io_id);
                                        } else {
                                            assert(self.io@[i as int].io.io_id == io_id);
                                        }
                                    }
                                }
                                Ok(idx)
                            },
                            Err(e) => Err(e),
                        }
                    },
                }
            },
        }
    }

    /// Decode-time metadata for the stream: binds the codec on first
    /// access, prepares native decoder state if not yet prepared, and asks
    /// the bound decoder for the image's metadata.
    pub fn get_image_info(&mut self, io_id: i32) -> (r: Result<ImageInfo, FlowError>)
        requires
            old(self).wf(),
        ensures
            final(self).wf(),
            final(self).frames == old(self).frames,
            registry_step(*old(self), *final(self), io_id),
            old(self).spec_codec_result(io_id) matches Err(e) ==> r == Err::<ImageInfo, FlowError>(
                e,
            ),
            old(self).spec_codec_result(io_id) matches Ok(cont) ==> ({
                &&& !(cont.codec is Decoder) ==> (r matches Err(e) && e.kind
                    == ErrorKind::InvalidArgument)
                &&& cont.codec matches CodecKind::Decoder(Decoder::Gif(g)) ==> (r matches Ok(i)
                    && i.frame_decodes_into == PixelFormat::Bgra32 && i.image_width == g.w
                    && i.image_height == g.h && i.preferred_extension@ == "gif"@
                    && i.preferred_mime_type@ == "image/gif"@)
                &&& cont.codec matches CodecKind::Decoder(Decoder::Gif(g))
                    ==> final(self).codecs@[final(self).codec_index(io_id)].codec == cont.codec
                &&& cont.codec matches CodecKind::Decoder(Decoder::Classic(cd)) ==> ({
                    &&& !cd.initialized && !old(self).io_profile(io_id).initialize_ok ==> (
                    r matches Err(e) && e.kind == ErrorKind::NativeCodecError)
                    &&& (cd.initialized || old(self).io_profile(io_id).initialize_ok) ==> (match
                        old(self).io_profile(io_id).info_result {
                        Some(info) => r == Ok::<ImageInfo, FlowError>(info),
                        None => r matches Err(e) && e.kind == ErrorKind::NativeCodecError,
                    })
                })
                &&& cont.codec matches CodecKind::Decoder(Decoder::Classic(cd)) ==> ({
                    &&& final(self).codecs@[final(self).codec_index(io_id)].codec
                        matches CodecKind::Decoder(Decoder::Classic(cd2))
                    &&& cd2.io_id == cd.io_id
                    &&& cd2.codec_id == cd.codec_id
                    &&& cd2.initialized == (cd.initialized || old(self).io_profile(
                        io_id,
                    ).initialize_ok)
                })
            }),
    {
        let ci = match self.get_codec(io_id) {
            Ok(i) => i,
            Err(e) => {
                return Err(e);
            },
        };
        let ii = match self.find_io(io_id) {
            Some(i) => i,
            None => {
                proof {
                    assert(self.has_codec(io_id));
                    assert(self.has_io(self.codecs@[self.codec_index(io_id)].io_id));
                    assert(false);
                }
                return Err(FlowError::new(ErrorKind::InvalidArgument));
            },
        };
        proof {
            assert(self.io@[ii as int].native == old(self).io@[old(self).io_index(io_id)].native)
                by {
                assert(old(self).io@[ii as int].io.io_id == io_id);
                assert(ii as int == old(self).io_index(io_id));
            }
        }
        let ghost mid = *self;
        let mut cont = self.codecs.remove(ci);
        let result = {
            let profile = &self.io[ii].native;
            match &mut cont.codec {
                CodecKind::Decoder(d) => {
                    match d.initialize(profile) {
                        Err(e) => Err(e),
                        Ok(_) => d.get_image_info(profile),
                    }
                },
                _ => Err(FlowError::new(ErrorKind::InvalidArgument)),
            }
        };
        self.codecs.insert(ci, cont);
        proof {
            assert(self.codecs@ =~= mid.codecs@.update(ci as int, self.codecs@[ci as int]));
            assert(self.codecs@[ci as int].io_id == io_id);
            assert forall|id: i32| mid.has_codec(id) implies self.has_codec(id) by {
                let m = choose|m: int|
                    0 <= m < mid.codecs@.len() && (#[trigger] mid.codecs@[m]).io_id == id;
                assert(self.codecs@[m].io_id == id);
            }
            assert(self.codec_index(io_id) == ci as int);
        }
        result
    }

    /// The orientation flag the bound decoder reports, binding the codec on
    /// first access. An absent flag is a defined non-error outcome.
    pub fn get_exif_rotation_flag(&mut self, io_id: i32) -> (r: Result<Option<i32>, FlowError>)
        requires
            old(self).wf(),
        ensures
            final(self).wf(),
            final(self).frames == old(self).frames,
            registry_step(*old(self), *final(self), io_id),
            old(self).spec_codec_result(io_id) matches Err(e) ==> r == Err::<
                Option<i32>,
                FlowError,
            >(e),
            old(self).spec_codec_result(io_id) matches Ok(cont) ==> (match cont.codec {
                CodecKind::Decoder(d) => r == Ok::<Option<i32>, FlowError>(
                    spec_exif_flag(d, old(self).io_profile(io_id)),
                ),
                _ => r matches Err(e) && e.kind == ErrorKind::InvalidArgument,
            }),
    {
        let ci = match self.get_codec(io_id) {
            Ok(i) => i,
            Err(e) => {
                return Err(e);
            },
        };
        let ii = match self.find_io(io_id) {
            Some(i) => i,
            None => {
                proof {
                    assert(self.has_codec(io_id));
                    assert(self.has_io(self.codecs@[self.codec_index(io_id)].io_id));
                    assert(false);
                }
                return Err(FlowError::new(ErrorKind::InvalidArgument));
            },
        };
        proof {
            assert(self.io@[ii as int].native == old(self).io@[old(self).io_index(io_id)].native)
                by {
                assert(old(self).io@[ii as int].io.io_id == io_id);
                assert(ii as int == old(self).io_index(io_id));
            }
        }
        let cont = &self.codecs[ci];
        let profile = &self.io[ii].native;
        match cont.get_decoder() {
            Ok(d) => d.get_exif_rotation_flag(profile),
            Err(e) => Err(e),
        }
    }

    /// Forwards an out-of-band decoder command to the bound decoder,
    /// binding the codec on first access.
    pub fn tell_decoder(&mut self, io_id: i32, tell: &DecoderCommand) -> (r: Result<(), FlowError>)
        requires
            old(self).wf(),
        ensures
            final(self).wf(),
            final(self).frames == old(self).frames,
            registry_step(*old(self), *final(self), io_id),
            old(self).spec_codec_result(io_id) matches Err(e) ==> r == Err::<(), FlowError>(e),
            old(self).spec_codec_result(io_id) matches Ok(cont) ==> ({
                &&& !(cont.codec is Decoder) ==> (r matches Err(e) && e.kind
                    == ErrorKind::InvalidArgument)
                &&& cont.codec matches CodecKind::Decoder(Decoder::Gif(g)) ==> (r matches Err(e)
                    && e.kind == ErrorKind::NotImplemented)
                &&& cont.codec matches CodecKind::Decoder(Decoder::Classic(cd)) ==> ({
                    &&& old(self).io_profile(io_id).set_hints_ok ==> r is Ok
                    &&& !old(self).io_profile(io_id).set_hints_ok ==> (r matches Err(e) && e.kind
                        == ErrorKind::NativeCodecError)
                })
            }),
    {
        let ci = match self.get_codec(io_id) {
            Ok(i) => i,
            Err(e) => {
                return Err(e);
            },
        };
        let ii = match self.find_io(io_id) {
            Some(i) => i,
            None => {
                proof {
                    assert(self.has_codec(io_id));
                    assert(self.has_io(self.codecs@[self.codec_index(io_id)].io_id));
                    assert(false);
                }
                return Err(FlowError::new(ErrorKind::InvalidArgument));
            },
        };
        proof {
            assert(self.io@[ii as int].native == old(self).io@[old(self).io_index(io_id)].native)
                by {
                assert(old(self).io@[ii as int].io.io_id == io_id);
                assert(ii as int == old(self).io_index(io_id));
            }
        }
        let cont = &self.codecs[ci];
        let profile = &self.io[ii].native;
        match cont.get_decoder() {
            Ok(d) => d.tell_decoder(profile, tell),
            Err(e) => Err(e),
        }
    }

    /// Reads one frame through the bound decoder, binding the codec on
    /// first access, and puts it into the arena; the handle is returned.
    pub fn read_frame(&mut self, io_id: i32) -> (r: Result<usize, FlowError>)
        requires
            old(self).wf(),
        ensures
            final(self).wf(),
            registry_step(*old(self), *final(self), io_id),
            old(self).spec_codec_result(io_id) matches Err(e) ==> (r == Err::<usize, FlowError>(e)
                && final(self).frames == old(self).frames),
            old(self).spec_codec_result(io_id) matches Ok(cont) ==> ({
                &&& !(cont.codec is Decoder) ==> (r matches Err(e) && e.kind
                    == ErrorKind::InvalidArgument && final(self).frames == old(self).frames)
                &&& cont.codec matches CodecKind::Decoder(d) ==> (match spec_read_result(
                    d,
                    old(self).io_profile(io_id),
                ) {
                    Ok(f) => r == Ok::<usize, FlowError>(old(self).frames@.len() as usize)
                        && final(self).frames@ == old(self).frames@.push(f),
                    Err(e) => r == Err::<usize, FlowError>(e) && final(self).frames == old(
                    self).frames,
                })
            }),
    {
        let ci = match self.get_codec(io_id) {
            Ok(i) => i,
            Err(e) => {
                return Err(e);
            },
        };
        let ii = match self.find_io(io_id) {
            Some(i) => i,
            None => {
                proof {
                    assert(self.has_codec(io_id));
                    assert(self.has_io(self.codecs@[self.codec_index(io_id)].io_id));
                    assert(false);
                }
                return Err(FlowError::new(ErrorKind::InvalidArgument));
            },
        };
        proof {
            assert(self.io@[ii as int].native == old(self).io@[old(self).io_index(io_id)].native)
                by {
                assert(old(self).io@[ii as int].io.io_id == io_id);
                assert(ii as int == old(self).io_index(io_id));
            }
        }
        let read = {
            let cont = &self.codecs[ci];
            let profile = &self.io[ii].native;
            match cont.get_decoder() {
                Ok(d) => d.read_frame(profile),
                Err(e) => Err(e),
            }
        };
        match read {
            Ok(f) => {
                let idx = self.frames.len();
                self.frames.push(f);
                Ok(idx)
            },
            Err(e) => Err(e),
        }
    }

    /// Writes a frame to the output stream: binds the codec container on
    /// first access, lets the first preset fix the encoder implementation,
    /// and delegates the write to it.
    pub fn write_frame(&mut self, io_id: i32, preset: &EncoderPreset, frame_id: usize) -> (r:
        Result<EncodeResult, FlowError>)
        requires
            old(self).wf(),
        ensures
            final(self).wf(),
            final(self).frames == old(self).frames,
            registry_step(*old(self), *final(self), io_id),
            frame_id >= old(self).frames@.len() ==> ({
                &&& *final(self) == *old(self)
                &&& r matches Err(e) && e.kind == ErrorKind::InvalidArgument
            }),
            frame_id < old(self).frames@.len() ==> (old(self).spec_codec_result(io_id)
                matches Err(e) ==> r == Err::<EncodeResult, FlowError>(e)),
            frame_id < old(self).frames@.len() ==> (old(self).spec_codec_result(io_id) matches Ok(
                cont,
            ) ==> ({
                &&& cont.codec is Decoder ==> (r matches Err(e) && e.kind
                    == ErrorKind::NotImplemented)
                &&& spec_bind_encoder(cont.codec, *preset, io_id) matches CodecKind::Encoder(
                    Encoder::Gif(g),
                ) ==> ({
                    &&& final(self).codecs@[final(self).codec_index(io_id)].codec
                        == spec_bind_encoder(cont.codec, *preset, io_id)
                    &&& r matches Ok(er) && er.w == old(self).frames@[frame_id as int].w && er.h
                        == old(self).frames@[frame_id as int].h && er.io_id == g.io_id
                        && er.preferred_mime_type@ == "image/gif"@ && er.preferred_extension@
                        == "gif"@
                })
                &&& spec_bind_encoder(cont.codec, *preset, io_id) matches CodecKind::Encoder(
                    Encoder::Classic(c),
                ) ==> ({
                    &&& final(self).codecs@[final(self).codec_index(io_id)].codec
                        matches CodecKind::Encoder(Encoder::Classic(c2)) && c2.io_id == c.io_id
                    &&& spec_classic_write_error(*preset, old(self).io_profile(io_id))
                        matches Some(k) ==> (r matches Err(e) && e.kind == k)
                    &&& spec_classic_write_error(*preset, old(self).io_profile(io_id)) is None
                        ==> (r matches Ok(er) && er.w == old(self).frames@[frame_id as int].w
                        && er.h == old(self).frames@[frame_id as int].h && er.io_id == c.io_id
                        && er.preferred_mime_type@ == spec_preset_mime_type(*preset)
                        && er.preferred_extension@ == spec_preset_extension(*preset))
                })
            })),
    {
        if frame_id >= self.frames.len() {
            return Err(FlowError::new(ErrorKind::InvalidArgument));
        }
        let ci = match self.get_codec(io_id) {
            Ok(i) => i,
            Err(e) => {
                return Err(e);
            },
        };
        let ii = match self.find_io(io_id) {
            Some(i) => i,
            None => {
                proof {
                    assert(self.has_codec(io_id));
                    assert(self.has_io(self.codecs@[self.codec_index(io_id)].io_id));
                    assert(false);
                }
                return Err(FlowError::new(ErrorKind::InvalidArgument));
            },
        };
        proof {
            assert(self.io@[ii as int].native == old(self).io@[old(self).io_index(io_id)].native)
                by {
                assert(old(self).io@[ii as int].io.io_id == io_id);
                assert(ii as int == old(self).io_index(io_id));
            }
        }
        let frame = self.frames[frame_id];
        let ghost mid = *self;
        let mut cont = self.codecs.remove(ci);
        let result = {
            let profile = &self.io[ii].native;
            cont.write_frame(profile, preset, &frame)
        };
        self.codecs.insert(ci, cont);
        proof {
            assert(self.codecs@ =~= mid.codecs@.update(ci as int, self.codecs@[ci as int]));
            assert(self.codecs@[ci as int].io_id == io_id);
            assert forall|id: i32| mid.has_codec(id) implies self.has_codec(id) by {
                let m = choose|m: int|
                    0 <= m < mid.codecs@.len() && (#[trigger] mid.codecs@[m]).io_id == id;
                assert(self.codecs@[m].io_id == id);
            }
            assert(self.codec_index(io_id) == ci as int);
        }
        result
    }
}

/// Law: the registry binds at most one codec container per stream
/// identifier — two containers for the same identifier are the same entry.
pub proof fn lemma_codec_bound_at_most_once(c: Context, io_id: i32, i: int, j: int)
    requires
        c.wf(),
        0 <= i < c.codecs@.len(),
        0 <= j < c.codecs@.len(),
        c.codecs@[i].io_id == io_id,
        c.codecs@[j].io_id == io_id,
    ensures
        i == j,
{
    if i < j {
        assert(c.codecs@[i].io_id != c.codecs@[j].io_id);
    }
    if j < i {
        assert(c.codecs@[j].io_id != c.codecs@[i].io_id);
    }
}

} // verus!
