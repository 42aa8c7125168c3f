//! Codec abstraction and dispatch: format sniffing, the managed GIF codec
//! pair, the adapters over the native per-format codec libraries, and the
//! per-stream container that binds exactly one codec.
//!
//! The native codec libraries sit behind a fixed ABI boundary and are not
//! reimplemented here. Everything they report — the format-detection result,
//! per-call success flags, image metadata, the decoded frame's shape — is
//! supplied by the embedder as a [`NativeCodecProfile`] of plain values, and
//! every decision the engine takes on those values is verified.
//!
//! Decoder and encoder construction is closed: format detection and encoder
//! binding select among the fixed variant set below, so there is no open
//! factory hook for foreign decoder implementations.

use vstd::prelude::*;
use vstd::string::*;
use crate::errors::{ErrorKind, FlowError};
use crate::types::{
    DecoderCommand, DecoderDownscaleHints, EncodeResult, EncoderHints, EncoderPreset, FrameInfo,
    ImageInfo, JpegDownscaleHints, PixelFormat, PngBitDepth, ResultBytes, CODEC_ID_ENCODE_JPEG,
    CODEC_ID_ENCODE_PNG,
};
use crate::io::{IoDirection, IoProxy};

verus! {

/// What the native codec layer reports for one stream. The native libraries
/// are external collaborators; their answers arrive here as plain values and
/// the library is verified for every combination of them.
pub struct NativeCodecProfile {
    /// Result of native format detection: a codec identifier, or zero when
    /// no native codec recognizes the stream.
    pub select_result: i64,
    /// Whether native per-codec decoder state allocation succeeds.
    pub initialize_ok: bool,
    /// Metadata the native decoder reports; absent when the query fails.
    pub info_result: Option<ImageInfo>,
    /// Raw EXIF orientation answer: non-negative when present, negative to
    /// signal that the image carries no orientation flag.
    pub exif_flag: i32,
    /// Shape of the frame a native read produces; absent when the native
    /// read returns a null frame.
    pub read_frame_result: Option<FrameInfo>,
    /// Whether the native decoder accepts a downscale-hints record.
    pub set_hints_ok: bool,
    /// Whether native per-codec encoder state allocation succeeds.
    pub encoder_initialize_ok: bool,
    /// Whether the native codec-definition table has an entry for the
    /// requested encoder.
    pub codec_def_present: bool,
    /// Whether that entry carries a write-frame function.
    pub write_fn_present: bool,
    /// Whether the native write itself succeeds.
    pub write_ok: bool,
}

/// True when the bytes start with `GIF89a` or `GIF87a`.
pub open spec fn is_gif_signature(s: Seq<u8>) -> bool {
    &&& s.len() >= 6
    &&& s[0] == 71u8  // 'G'
    &&& s[1] == 73u8  // 'I'
    &&& s[2] == 70u8  // 'F'
    &&& s[3] == 56u8  // '8'
    &&& (s[4] == 57u8 || s[4] == 55u8)  // '9' or '7'
    &&& s[5] == 97u8  // 'a'
}

/// Width of the GIF logical screen: little-endian 16-bit value at offset 6.
pub open spec fn gif_screen_width(s: Seq<u8>) -> int {
    s[6] + 256 * s[7]
}

/// Height of the GIF logical screen: little-endian 16-bit value at offset 8.
pub open spec fn gif_screen_height(s: Seq<u8>) -> int {
    s[8] + 256 * s[9]
}

/// Does the sniff buffer carry a GIF signature?
pub fn starts_with_gif_signature(buf: &Vec<u8>) -> (r: bool)
    ensures
        r == is_gif_signature(buf@),
{
    buf.len() >= 6 && buf[0] == 71 && buf[1] == 73 && buf[2] == 70 && buf[3] == 56 && (buf[4]
        == 57 || buf[4] == 55) && buf[5] == 97
}

/// The managed in-process GIF decoder. It learns the logical-screen
/// dimensions from the stream header at construction time.
pub struct GifDecoder {
    pub io_id: i32,
    pub w: u32,
    pub h: u32,
}

impl GifDecoder {
    /// Reads the 10-byte GIF header from the start of the stream, keeps the
    /// logical-screen dimensions, and restores the stream position to 0.
    /// A stream too short to carry a header is malformed.
    pub fn create(io: &mut IoProxy, io_id: i32) -> (r: Result<GifDecoder, FlowError>)
        requires
            old(io).wf(),
            old(io).pos == 0,
        ensures
            final(io).wf(),
            final(io).bytes == old(io).bytes,
            final(io).io_id == old(io).io_id,
            final(io).pos == 0,
            old(io).bytes@.len() >= 10 ==> (r matches Ok(d) && d.io_id == io_id && d.w
                == gif_screen_width(old(io).bytes@) && d.h == gif_screen_height(old(io).bytes@)),
            old(io).bytes@.len() < 10 ==> (r matches Err(e) && e.kind == ErrorKind::InvalidArgument),
    {
        let header = io.read_to_buffer(10);
        let seek_back = io.seek(0);
        if seek_back.is_err() {
            return Err(FlowError::new(ErrorKind::InvalidArgument));
        }
        if header.len() < 10 {
            return Err(FlowError::new(ErrorKind::InvalidArgument));
        }
        let w: u32 = header[6] as u32 + 256 * (header[7] as u32);
        let h: u32 = header[8] as u32 + 256 * (header[9] as u32);
        Ok(GifDecoder { io_id, w, h })
    }

    /// Decode-time metadata of the GIF stream: the logical-screen
    /// dimensions, decoding into 32-bit BGRA.
    pub fn get_image_info(&self) -> (r: ImageInfo)
        ensures
            r.frame_decodes_into == PixelFormat::Bgra32,
            r.image_width == self.w,
            r.image_height == self.h,
            r.preferred_extension@ == "gif"@,
            r.preferred_mime_type@ == "image/gif"@,
    {
        ImageInfo {
            frame_decodes_into: PixelFormat::Bgra32,
            image_width: self.w,
            image_height: self.h,
            preferred_extension: String::from_str("gif"),
            preferred_mime_type: String::from_str("image/gif"),
        }
    }

    /// The frame a managed GIF read produces: the logical screen in BGRA.
    pub fn read_frame(&self) -> (r: FrameInfo)
        ensures
            r == (FrameInfo { w: self.w, h: self.h, fmt: PixelFormat::Bgra32 }),
    {
        FrameInfo { w: self.w, h: self.h, fmt: PixelFormat::Bgra32 }
    }
}

/// Adapter over a native decoder: the codec identifier chosen by native
/// format detection, plus whether native state was prepared.
pub struct ClassicDecoder {
    pub io_id: i32,
    pub codec_id: i64,
    pub initialized: bool,
}

impl ClassicDecoder {
    /// Accepts the native format-detection result. Zero means no native
    /// codec recognizes the stream, which is fatal to codec selection.
    pub fn create(io_id: i32, selected_codec_id: i64) -> (r: Result<ClassicDecoder, FlowError>)
        ensures
            selected_codec_id == 0 ==> (r matches Err(e) && e.kind == ErrorKind::NativeCodecError),
            selected_codec_id != 0 ==> r == Ok::<ClassicDecoder, FlowError>(ClassicDecoder {
                io_id,
                codec_id: selected_codec_id,
                initialized: false,
            }),
    {
        if selected_codec_id == 0 {
            Err(FlowError::new(ErrorKind::NativeCodecError))
        } else {
            Ok(ClassicDecoder { io_id, codec_id: selected_codec_id, initialized: false })
        }
    }

    /// Asks the native layer to prepare per-codec state, once; preparing an
    /// already-prepared decoder is a no-op.
    pub fn initialize(&mut self, profile: &NativeCodecProfile) -> (r: Result<(), FlowError>)
        ensures
            final(self).io_id == old(self).io_id,
            final(self).codec_id == old(self).codec_id,
            old(self).initialized ==> r is Ok && *final(self) == *old(self),
            !old(self).initialized && profile.initialize_ok ==> r is Ok && final(self).initialized,
            !old(self).initialized && !profile.initialize_ok ==> (r matches Err(e) && e.kind
                == ErrorKind::NativeCodecError && *final(self) == *old(self)),
    {
        if self.initialized {
            Ok(())
        } else if profile.initialize_ok {
            self.initialized = true;
            Ok(())
        } else {
            Err(FlowError::new(ErrorKind::NativeCodecError))
        }
    }

    /// Copies the metadata the native decoder reports into owned values;
    /// fails when the native query fails.
    pub fn get_image_info(&self, profile: &NativeCodecProfile) -> (r: Result<ImageInfo, FlowError>)
        ensures
            profile.info_result matches Some(info) ==> r == Ok::<ImageInfo, FlowError>(info),
            profile.info_result is None ==> (r matches Err(e) && e.kind
                == ErrorKind::NativeCodecError),
    {
        match &profile.info_result {
            Some(info) => Ok(info.duplicate()),
            None => Err(FlowError::new(ErrorKind::NativeCodecError)),
        }
    }

    /// A non-negative native answer is an orientation flag; a negative
    /// sentinel means the flag is absent, which is not an error.
    pub fn get_exif_rotation_flag(&self, profile: &NativeCodecProfile) -> (r: Result<
        Option<i32>,
        FlowError,
    >)
        ensures
            profile.exif_flag >= 0 ==> r == Ok::<Option<i32>, FlowError>(Some(profile.exif_flag)),
            profile.exif_flag < 0 ==> r == Ok::<Option<i32>, FlowError>(None),
    {
        if profile.exif_flag >= 0 {
            Ok(Some(profile.exif_flag))
        } else {
            Ok(None)
        }
    }

    /// Translates a command into the native hints record and forwards it in
    /// the non-strict (lossy-permitted) downscale mode; fails only when the
    /// native layer rejects the hints.
    pub fn tell_decoder(&self, profile: &NativeCodecProfile, tell: &DecoderCommand) -> (r: Result<
        (),
        FlowError,
    >)
        ensures
            profile.set_hints_ok ==> r is Ok,
            !profile.set_hints_ok ==> (r matches Err(e) && e.kind == ErrorKind::NativeCodecError),
    {
        match tell {
            DecoderCommand::JpegDownscaleHints(hints) => {
                let _native_hints = translate_downscale_hints(hints);
                if profile.set_hints_ok {
                    Ok(())
                } else {
                    Err(FlowError::new(ErrorKind::NativeCodecError))
                }
            },
        }
    }

    /// A native read that returns a frame transfers its ownership to the
    /// caller; a null result is a failure.
    pub fn read_frame(&self, profile: &NativeCodecProfile) -> (r: Result<FrameInfo, FlowError>)
        ensures
            profile.read_frame_result matches Some(f) ==> r == Ok::<FrameInfo, FlowError>(f),
            profile.read_frame_result is None ==> (r matches Err(e) && e.kind
                == ErrorKind::NativeCodecError),
    {
        match &profile.read_frame_result {
            Some(f) => Ok(*f),
            None => Err(FlowError::new(ErrorKind::NativeCodecError)),
        }
    }
}

/// The native hints record that a JPEG downscale command translates to.
pub open spec fn spec_downscale_hints(h: JpegDownscaleHints) -> DecoderDownscaleHints {
    DecoderDownscaleHints {
        downscale_if_wider_than: h.width,
        downscaled_min_width: h.width,
        or_if_taller_than: h.height,
        downscaled_min_height: h.height,
        scale_luma_spatially: h.scale_luma_spatially == Some(true),
        gamma_correct_for_srgb_during_spatial_luma_scaling:
            h.gamma_correct_for_srgb_during_spatial_luma_scaling == Some(true),
    }
}

/// Builds the native downscale-hints record from a JPEG downscale command:
/// both width fields take the requested width, both height fields the
/// requested height, and absent boolean options default to false.
pub fn translate_downscale_hints(h: &JpegDownscaleHints) -> (r: DecoderDownscaleHints)
    ensures
        r == spec_downscale_hints(*h),
{
    DecoderDownscaleHints {
        downscale_if_wider_than: h.width,
        downscaled_min_width: h.width,
        or_if_taller_than: h.height,
        downscaled_min_height: h.height,
        scale_luma_spatially: match h.scale_luma_spatially {
            Some(b) => b,
            None => false,
        },
        gamma_correct_for_srgb_during_spatial_luma_scaling: match h
            .gamma_correct_for_srgb_during_spatial_luma_scaling {
            Some(b) => b,
            None => false,
        },
    }
}

/// A decoder capability: the native adapter, or the managed GIF decoder.
pub enum Decoder {
    Classic(ClassicDecoder),
    Gif(GifDecoder),
}

impl Decoder {
    pub fn initialize(&mut self, profile: &NativeCodecProfile) -> (r: Result<(), FlowError>)
        ensures
            *old(self) matches Decoder::Gif(g) ==> r is Ok && *final(self) == *old(self),
            *old(self) matches Decoder::Classic(c) && c.initialized ==> r is Ok && *final(self)
                == *old(self),
            *old(self) matches Decoder::Classic(c) ==> ((!c.initialized && profile.initialize_ok)
                ==> ({
                &&& r is Ok
                &&& *final(self) matches Decoder::Classic(c2) && c2.io_id == c.io_id
                    && c2.codec_id == c.codec_id && c2.initialized
            })),
            *old(self) matches Decoder::Classic(c) && !c.initialized && !profile.initialize_ok
                ==> (r matches Err(e) && e.kind == ErrorKind::NativeCodecError && *final(self)
                == *old(self)),
    {
        match self {
            Decoder::Classic(d) => d.initialize(profile),
            Decoder::Gif(_) => Ok(()),
        }
    }

    pub fn get_image_info(&self, profile: &NativeCodecProfile) -> (r: Result<ImageInfo, FlowError>)
        ensures
            self matches Decoder::Classic(c) ==> (profile.info_result matches Some(info) ==> r
                == Ok::<ImageInfo, FlowError>(info)),
            self matches Decoder::Classic(c) && profile.info_result is None ==> (r matches Err(
                e,
            ) && e.kind == ErrorKind::NativeCodecError),
            self matches Decoder::Gif(g) ==> (r matches Ok(i) && i.frame_decodes_into
                == PixelFormat::Bgra32 && i.image_width == g.w && i.image_height == g.h
                && i.preferred_extension@ == "gif"@ && i.preferred_mime_type@ == "image/gif"@),
    {
        match self {
            Decoder::Classic(d) => d.get_image_info(profile),
            Decoder::Gif(d) => Ok(d.get_image_info()),
        }
    }

    /// The managed GIF decoder never reports an orientation flag; the
    /// native adapter maps the negative sentinel to the absent case.
    pub fn get_exif_rotation_flag(&self, profile: &NativeCodecProfile) -> (r: Result<
        Option<i32>,
        FlowError,
    >)
        ensures
            r == Ok::<Option<i32>, FlowError>(spec_exif_flag(*self, *profile)),
    {
        match self {
            Decoder::Classic(d) => d.get_exif_rotation_flag(profile),
            Decoder::Gif(_) => Ok(None),
        }
    }

    /// Decoder commands are meaningful only to the native adapter; the
    /// managed GIF decoder implements none.
    pub fn tell_decoder(&self, profile: &NativeCodecProfile, tell: &DecoderCommand) -> (r: Result<
        (),
        FlowError,
    >)
        ensures
            self is Classic && profile.set_hints_ok ==> r is Ok,
            self is Classic && !profile.set_hints_ok ==> (r matches Err(e) && e.kind
                == ErrorKind::NativeCodecError),
            self is Gif ==> (r matches Err(e) && e.kind == ErrorKind::NotImplemented),
    {
        match self {
            Decoder::Classic(d) => d.tell_decoder(profile, tell),
            Decoder::Gif(_) => Err(FlowError::new(ErrorKind::NotImplemented)),
        }
    }

    pub fn read_frame(&self, profile: &NativeCodecProfile) -> (r: Result<FrameInfo, FlowError>)
        ensures
            self matches Decoder::Classic(c) ==> (profile.read_frame_result matches Some(f)
                ==> r == Ok::<FrameInfo, FlowError>(f)),
            self matches Decoder::Classic(c) && profile.read_frame_result is None ==> (
            r matches Err(e) && e.kind == ErrorKind::NativeCodecError),
            self matches Decoder::Gif(g) ==> r == Ok::<FrameInfo, FlowError>(FrameInfo {
                w: g.w,
                h: g.h,
                fmt: PixelFormat::Bgra32,
            }),
    {
        match self {
            Decoder::Classic(d) => d.read_frame(profile),
            Decoder::Gif(d) => Ok(d.read_frame()),
        }
    }
}

/// The frame a read through a decoder produces: for the native adapter,
/// whatever the native read reports (a null frame is a failure); for the
/// managed GIF decoder, the logical screen in BGRA.
pub open spec fn spec_read_result(d: Decoder, p: NativeCodecProfile) -> Result<
    FrameInfo,
    FlowError,
> {
    match d {
        Decoder::Classic(_) => match p.read_frame_result {
            Some(f) => Ok(f),
            None => Err(FlowError { kind: ErrorKind::NativeCodecError }),
        },
        Decoder::Gif(g) => Ok(FrameInfo { w: g.w, h: g.h, fmt: PixelFormat::Bgra32 }),
    }
}

/// The orientation flag a decoder reports: `None` both for the managed GIF
/// decoder and for the native adapter's negative "absent" sentinel.
pub open spec fn spec_exif_flag(d: Decoder, profile: NativeCodecProfile) -> Option<i32> {
    match d {
        Decoder::Classic(_) => if profile.exif_flag >= 0 {
            Some(profile.exif_flag)
        } else {
            None
        },
        Decoder::Gif(_) => None,
    }
}

/// The native codec identifier and hints record a preset maps to. The GIF
/// preset has no native encoder and is rejected as not implemented.
pub open spec fn spec_codec_id_and_hints(preset: EncoderPreset) -> Result<
    (i64, EncoderHints),
    FlowError,
> {
    match preset {
        EncoderPreset::LibjpegTurbo { quality, progressive, optimize_huffman_coding } => Ok(
            (
                CODEC_ID_ENCODE_JPEG,
                EncoderHints {
                    jpeg_encode_quality: match quality {
                        Some(q) => q,
                        None => 90,
                    },
                    disable_png_alpha: false,
                    jpeg_allow_low_quality_non_baseline: false,
                    jpeg_optimize_huffman_coding: optimize_huffman_coding == Some(true),
                    jpeg_progressive: progressive == Some(true),
                    jpeg_use_arithmetic_coding: false,
                },
            ),
        ),
        EncoderPreset::Libpng { matte, zlib_compression, depth } => Ok(
            (
                CODEC_ID_ENCODE_PNG,
                EncoderHints {
                    jpeg_encode_quality: -1i32,
                    disable_png_alpha: depth == Some(PngBitDepth::Png24),
                    jpeg_allow_low_quality_non_baseline: false,
                    jpeg_optimize_huffman_coding: true,
                    jpeg_progressive: true,
                    jpeg_use_arithmetic_coding: false,
                },
            ),
        ),
        EncoderPreset::Gif => Err(FlowError { kind: ErrorKind::NotImplemented }),
    }
}

/// Mime type fixed by the preset variant.
pub open spec fn spec_preset_mime_type(p: EncoderPreset) -> Seq<char> {
    match p {
        EncoderPreset::Libpng { .. } => "image/png"@,
        EncoderPreset::LibjpegTurbo { .. } => "image/jpeg"@,
        EncoderPreset::Gif => "image/gif"@,
    }
}

/// File extension fixed by the preset variant.
pub open spec fn spec_preset_extension(p: EncoderPreset) -> Seq<char> {
    match p {
        EncoderPreset::Libpng { .. } => "png"@,
        EncoderPreset::LibjpegTurbo { .. } => "jpg"@,
        EncoderPreset::Gif => "gif"@,
    }
}

/// The mime type and extension the preset variant fixes.
pub fn preset_mime_and_extension(preset: &EncoderPreset) -> (r: (String, String))
    ensures
        r.0@ == spec_preset_mime_type(*preset),
        r.1@ == spec_preset_extension(*preset),
{
    match preset {
        EncoderPreset::Libpng { .. } => (String::from_str("image/png"), String::from_str("png")),
        EncoderPreset::LibjpegTurbo { .. } => (
            String::from_str("image/jpeg"),
            String::from_str("jpg"),
        ),
        EncoderPreset::Gif => (String::from_str("image/gif"), String::from_str("gif")),
    }
}

/// Where a native encode attempt fails, if anywhere: the preset has no
/// native encoder, native state preparation fails, the codec-definition
/// table lacks the codec, the codec lacks a write entry point, or the
/// write itself fails. `None` means the write succeeds.
pub open spec fn spec_classic_write_error(
    preset: EncoderPreset,
    profile: NativeCodecProfile,
) -> Option<ErrorKind> {
    if spec_codec_id_and_hints(preset) is Err {
        Some(ErrorKind::NotImplemented)
    } else if !profile.encoder_initialize_ok {
        Some(ErrorKind::NativeCodecError)
    } else if !profile.codec_def_present {
        Some(ErrorKind::NativeCodecError)
    } else if !profile.write_fn_present {
        Some(ErrorKind::NotImplemented)
    } else if !profile.write_ok {
        Some(ErrorKind::NativeCodecError)
    } else {
        None
    }
}

/// The dimensions a successful write reports: exactly the written frame's.
pub open spec fn spec_encode_dims(frame: FrameInfo) -> (u32, u32) {
    (frame.w, frame.h)
}

/// Adapter over a native encoder. It learns its codec identifier from the
/// preset supplied to the first write.
pub struct ClassicEncoder {
    pub io_id: i32,
    pub codec_id: i64,
}

impl ClassicEncoder {
    /// Maps a preset to its native codec identifier and hints record: JPEG
    /// quality defaults to 90, flags default to false, and a requested
    /// 24-bit PNG depth disables the alpha channel.
    pub fn get_codec_id_and_hints(preset: &EncoderPreset) -> (r: Result<
        (i64, EncoderHints),
        FlowError,
    >)
        ensures
            r == spec_codec_id_and_hints(*preset),
    {
        match preset {
            EncoderPreset::LibjpegTurbo { quality, progressive, optimize_huffman_coding } => Ok(
                (
                    CODEC_ID_ENCODE_JPEG,
                    EncoderHints {
                        jpeg_encode_quality: match quality {
                            Some(q) => *q,
                            None => 90,
                        },
                        disable_png_alpha: false,
                        jpeg_allow_low_quality_non_baseline: false,
                        jpeg_optimize_huffman_coding: match optimize_huffman_coding {
                            Some(b) => *b,
                            None => false,
                        },
                        jpeg_progressive: match progressive {
                            Some(b) => *b,
                            None => false,
                        },
                        jpeg_use_arithmetic_coding: false,
                    },
                ),
            ),
            EncoderPreset::Libpng { matte: _, zlib_compression: _, depth } => Ok(
                (
                    CODEC_ID_ENCODE_PNG,
                    EncoderHints {
                        jpeg_encode_quality: -1,
                        disable_png_alpha: match depth {
                            Some(PngBitDepth::Png24) => true,
                            _ => false,
                        },
                        jpeg_allow_low_quality_non_baseline: false,
                        jpeg_optimize_huffman_coding: true,
                        jpeg_progressive: true,
                        jpeg_use_arithmetic_coding: false,
                    },
                ),
            ),
            EncoderPreset::Gif => Err(FlowError::new(ErrorKind::NotImplemented)),
        }
    }

    /// The unbound adapter: no codec identifier until the first write
    /// supplies a preset.
    pub fn get_empty(io_id: i32) -> (r: ClassicEncoder)
        ensures
            r == (ClassicEncoder { io_id, codec_id: 0 }),
    {
        ClassicEncoder { io_id, codec_id: 0 }
    }

    /// Resolves the preset, binds the codec identifier, walks the native
    /// prepare/lookup/write steps, and reports the frame's actual
    /// dimensions with the mime type and extension the preset fixes.
    pub fn write_frame(
        &mut self,
        profile: &NativeCodecProfile,
        preset: &EncoderPreset,
        frame: &FrameInfo,
    ) -> (r: Result<EncodeResult, FlowError>)
        ensures
            final(self).io_id == old(self).io_id,
            spec_codec_id_and_hints(*preset) matches Ok(t) ==> final(self).codec_id == t.0,
            spec_codec_id_and_hints(*preset) is Err ==> *final(self) == *old(self),
            spec_classic_write_error(*preset, *profile) matches Some(k) ==> (r matches Err(e)
                && e.kind == k),
            spec_classic_write_error(*preset, *profile) is None ==> (r matches Ok(er) && er.w
                == frame.w && er.h == frame.h && (er.w, er.h) == spec_encode_dims(*frame)
                && er.io_id == old(self).io_id && er.preferred_mime_type@
                == spec_preset_mime_type(*preset) && er.preferred_extension@
                == spec_preset_extension(*preset) && er.bytes == ResultBytes::Elsewhere),
    {
        let (wanted_id, _hints) = match Self::get_codec_id_and_hints(preset) {
            Ok(t) => t,
            Err(e) => {
                return Err(e);
            },
        };
        let (mime, ext) = preset_mime_and_extension(preset);
        self.codec_id = wanted_id;
        if !profile.encoder_initialize_ok {
            return Err(FlowError::new(ErrorKind::NativeCodecError));
        }
        if !profile.codec_def_present {
            return Err(FlowError::new(ErrorKind::NativeCodecError));
        }
        if !profile.write_fn_present {
            return Err(FlowError::new(ErrorKind::NotImplemented));
        }
        if !profile.write_ok {
            return Err(FlowError::new(ErrorKind::NativeCodecError));
        }
        Ok(
            EncodeResult {
                w: frame.w,
                h: frame.h,
                preferred_mime_type: mime,
                preferred_extension: ext,
                io_id: self.io_id,
                bytes: ResultBytes::Elsewhere,
            },
        )
    }
}

/// The managed in-process GIF encoder, constructed with knowledge of its
/// preset up front.
pub struct GifEncoder {
    pub io_id: i32,
    pub preset: EncoderPreset,
}

impl GifEncoder {
    pub fn create(preset: &EncoderPreset, io_id: i32) -> (r: GifEncoder)
        ensures
            r.io_id == io_id,
            r.preset == *preset,
    {
        GifEncoder { io_id, preset: *preset }
    }

    /// Writes the frame into the destination stream; the managed encoder
    /// reports the frame's dimensions and the fixed GIF mime/extension
    /// pair, whatever preset a later call carries.
    pub fn write_frame(&self, frame: &FrameInfo) -> (r: EncodeResult)
        ensures
            r.w == frame.w,
            r.h == frame.h,
            (r.w, r.h) == spec_encode_dims(*frame),
            r.io_id == self.io_id,
            r.preferred_mime_type@ == "image/gif"@,
            r.preferred_extension@ == "gif"@,
            r.bytes == ResultBytes::Elsewhere,
    {
        EncodeResult {
            w: frame.w,
            h: frame.h,
            preferred_mime_type: String::from_str("image/gif"),
            preferred_extension: String::from_str("gif"),
            io_id: self.io_id,
            bytes: ResultBytes::Elsewhere,
        }
    }
}

/// An encoder capability: the native adapter, or the managed GIF encoder.
pub enum Encoder {
    Classic(ClassicEncoder),
    Gif(GifEncoder),
}

impl Encoder {
    pub fn write_frame(
        &mut self,
        profile: &NativeCodecProfile,
        preset: &EncoderPreset,
        frame: &FrameInfo,
    ) -> (r: Result<EncodeResult, FlowError>)
        ensures
            *old(self) matches Encoder::Gif(g) ==> ({
                &&& *final(self) == *old(self)
                &&& r matches Ok(er) && er.w == frame.w && er.h == frame.h && er.io_id == g.io_id
                    && er.preferred_mime_type@ == "image/gif"@ && er.preferred_extension@
                    == "gif"@ && er.bytes == ResultBytes::Elsewhere
            }),
            *old(self) matches Encoder::Classic(c) ==> (*final(self) matches Encoder::Classic(c2)
                && c2.io_id == c.io_id && (spec_codec_id_and_hints(*preset) matches Ok(t) ==> c2.codec_id
                == t.0) && (spec_codec_id_and_hints(*preset) is Err ==> c2.codec_id == c.codec_id)),
            spec_classic_write_error(*preset, *profile) matches Some(k) ==> (*old(
                self,
            ) matches Encoder::Classic(_) ==> (r matches Err(e) && e.kind == k)),
            *old(self) matches Encoder::Classic(c) ==> (spec_classic_write_error(*preset, *profile)
                is None ==> (r matches Ok(er) && er.w == frame.w && er.h == frame.h && er.io_id
                == c.io_id && er.preferred_mime_type@ == spec_preset_mime_type(*preset)
                && er.preferred_extension@ == spec_preset_extension(*preset) && er.bytes
                == ResultBytes::Elsewhere)),
    {
        match self {
            Encoder::Classic(e) => e.write_frame(profile, preset, frame),
            Encoder::Gif(e) => Ok(e.write_frame(frame)),
        }
    }
}

/// What a container holds: nothing yet (an output stream waiting for its
/// first write), a bound encoder, or a bound decoder.
pub enum CodecKind {
    EncoderPlaceholder,
    Encoder(Encoder),
    Decoder(Decoder),
}

/// The encoder implementation the first write request binds: the managed
/// GIF encoder for the GIF preset, the unbound native adapter otherwise.
/// A container already bound keeps its binding.
pub open spec fn spec_bind_encoder(kind: CodecKind, preset: EncoderPreset, io_id: i32) -> CodecKind {
    match kind {
        CodecKind::EncoderPlaceholder => match preset {
            EncoderPreset::Gif => CodecKind::Encoder(Encoder::Gif(GifEncoder { io_id, preset })),
            _ => CodecKind::Encoder(Encoder::Classic(ClassicEncoder { io_id, codec_id: 0 })),
        },
        _ => kind,
    }
}

/// Owns the one codec bound to a stream identifier.
pub struct CodecInstanceContainer {
    pub io_id: i32,
    pub codec: CodecKind,
}

impl CodecInstanceContainer {
    /// For an output stream, a placeholder container: encoder selection
    /// waits for the first write request. For an input stream, format
    /// detection: sniff up to 8 bytes, restore the position to offset 0
    /// unconditionally, then pick the managed GIF decoder on a GIF
    /// signature and otherwise go by the native format-detection result
    /// supplied in `native_select`. On a GIF signature the native result is
    /// never consulted: a signature-bearing stream too short for its header
    /// fails as malformed rather than falling back to native detection.
    /// Containers are created only through the registry
    /// (`Context::get_codec`), which binds at most one per stream
    /// identifier.
    pub fn create(io: &mut IoProxy, io_id: i32, direction: IoDirection, native_select: i64) -> (r:
        Result<CodecInstanceContainer, FlowError>)
        requires
            old(io).wf(),
        ensures
            final(io).wf(),
            final(io).bytes == old(io).bytes,
            final(io).io_id == old(io).io_id,
            direction == IoDirection::Out ==> *final(io) == *old(io) && r == Ok::<
                CodecInstanceContainer,
                FlowError,
            >(CodecInstanceContainer { io_id, codec: CodecKind::EncoderPlaceholder }),
            direction == IoDirection::In ==> final(io).pos == 0,
            direction == IoDirection::In && is_gif_signature(old(io).remaining()) ==> {
                &&& old(io).bytes@.len() >= 10 ==> (r matches Ok(c) && c == (
                CodecInstanceContainer {
                    io_id,
                    codec: CodecKind::Decoder(Decoder::Gif(GifDecoder {
                        io_id,
                        w: gif_screen_width(old(io).bytes@) as u32,
                        h: gif_screen_height(old(io).bytes@) as u32,
                    })),
                }))
                &&& old(io).bytes@.len() < 10 ==> (r matches Err(e) && e.kind
                    == ErrorKind::InvalidArgument)
            },
            direction == IoDirection::In && !is_gif_signature(old(io).remaining()) ==> {
                &&& native_select == 0 ==> (r matches Err(e) && e.kind
                    == ErrorKind::NativeCodecError)
                &&& native_select != 0 ==> r == Ok::<CodecInstanceContainer, FlowError>(
                CodecInstanceContainer {
                    io_id,
                    codec: CodecKind::Decoder(Decoder::Classic(ClassicDecoder {
                        io_id,
                        codec_id: native_select,
                        initialized: false,
                    })),
                })
            },
    {
        if matches!(direction, IoDirection::Out) {
            return Ok(CodecInstanceContainer { io_id, codec: CodecKind::EncoderPlaceholder });
        }
        let buffer = io.read_to_buffer(8);
        let seek_back = io.seek(0);
        if seek_back.is_err() {
            return Err(FlowError::new(ErrorKind::InvalidArgument));
        }
        if starts_with_gif_signature(&buffer) {
            proof {
                assert(buffer@ == old(io).remaining().take(
                    if 8 <= old(io).remaining().len() {
                        8int
                    } else {
                        old(io).remaining().len() as int
                    },
                ));
                assert(is_gif_signature(old(io).remaining()));
            }
            match GifDecoder::create(io, io_id) {
                Ok(d) => Ok(
                    CodecInstanceContainer { io_id, codec: CodecKind::Decoder(Decoder::Gif(d)) },
                ),
                Err(e) => Err(e),
            }
        } else {
            match ClassicDecoder::create(io_id, native_select) {
                Ok(d) => Ok(
                    CodecInstanceContainer {
                        io_id,
                        codec: CodecKind::Decoder(Decoder::Classic(d)),
                    },
                ),
                Err(e) => Err(e),
            }
        }
    }

    /// The bound decoder, or `InvalidArgument` when the container holds an
    /// encoder or is still a placeholder.
    pub fn get_decoder(&self) -> (r: Result<&Decoder, FlowError>)
        ensures
            self.codec matches CodecKind::Decoder(d) ==> (r matches Ok(x) && *x == d),
            !(self.codec is Decoder) ==> (r matches Err(e) && e.kind
                == ErrorKind::InvalidArgument),
    {
        if let CodecKind::Decoder(d) = &self.codec {
            Ok(d)
        } else {
            Err(FlowError::new(ErrorKind::InvalidArgument))
        }
    }

    /// On the first write request against a placeholder, binds the encoder
    /// implementation the preset selects, permanently; then delegates the
    /// write to the bound implementation. A later call with a different
    /// preset never rebinds.
    pub fn write_frame(
        &mut self,
        profile: &NativeCodecProfile,
        preset: &EncoderPreset,
        frame: &FrameInfo,
    ) -> (r: Result<EncodeResult, FlowError>)
        ensures
            final(self).io_id == old(self).io_id,
            old(self).codec is Decoder ==> ({
                &&& *final(self) == *old(self)
                &&& r matches Err(e) && e.kind == ErrorKind::NotImplemented
            }),
            spec_bind_encoder(old(self).codec, *preset, old(self).io_id) matches CodecKind::Encoder(
                Encoder::Gif(g),
            ) ==> ({
                &&& final(self).codec == spec_bind_encoder(
                    old(self).codec,
                    *preset,
                    old(self).io_id,
                )
                &&& r matches Ok(er) && er.w == frame.w && er.h == frame.h && er.io_id == g.io_id
                    && er.preferred_mime_type@ == "image/gif"@ && er.preferred_extension@
                    == "gif"@ && er.bytes == ResultBytes::Elsewhere
            }),
            spec_bind_encoder(old(self).codec, *preset, old(self).io_id) matches CodecKind::Encoder(
                Encoder::Classic(c),
            ) ==> {
                &&& final(self).codec matches CodecKind::Encoder(Encoder::Classic(c2)) && c2.io_id
                    == c.io_id && (spec_codec_id_and_hints(*preset) matches Ok(t) ==> c2.codec_id
                    == t.0) && (spec_codec_id_and_hints(*preset) is Err ==> c2.codec_id
                    == c.codec_id)
                &&& spec_classic_write_error(*preset, *profile) matches Some(k) ==> (
                r matches Err(e) && e.kind == k)
                &&& spec_classic_write_error(*preset, *profile) is None ==> (r matches Ok(er)
                    && er.w == frame.w && er.h == frame.h && er.io_id == c.io_id
                    && er.preferred_mime_type@ == spec_preset_mime_type(*preset)
                    && er.preferred_extension@ == spec_preset_extension(*preset) && er.bytes
                    == ResultBytes::Elsewhere)
            },
    {
        if matches!(self.codec, CodecKind::EncoderPlaceholder) {
            match preset {
                EncoderPreset::Gif => {
                    self.codec = CodecKind::Encoder(
                        Encoder::Gif(GifEncoder::create(preset, self.io_id)),
                    );
                },
                _ => {
                    self.codec = CodecKind::Encoder(
                        Encoder::Classic(ClassicEncoder::get_empty(self.io_id)),
                    );
                },
            }
        }
        if let CodecKind::Encoder(e) = &mut self.codec {
            e.write_frame(profile, preset, frame)
        } else {
            Err(FlowError::new(ErrorKind::NotImplemented))
        }
    }
}


/// Law: the preset supplied on the first write permanently determines the
/// bound encoder implementation; a later binding step with any other
/// preset changes nothing.
pub proof fn lemma_encoder_binding_is_single_shot(
    kind: CodecKind,
    first: EncoderPreset,
    later: EncoderPreset,
    io_id: i32,
)
    ensures
        spec_bind_encoder(spec_bind_encoder(kind, first, io_id), later, io_id)
            == spec_bind_encoder(kind, first, io_id),
{
}

/// Law: re-encoding a decoded frame reports the decoded frame's dimensions
/// exactly — in particular, a frame decoded through any decoder and written
/// with the lossless PNG preset keeps its width and height.
pub proof fn lemma_roundtrip_preserves_dimensions(
    d: Decoder,
    p: NativeCodecProfile,
    f: FrameInfo,
)
    requires
        spec_read_result(d, p) == Ok::<FrameInfo, FlowError>(f),
    ensures
        spec_encode_dims(f) == (f.w, f.h),
        d matches Decoder::Gif(gd) ==> f.w == gd.w && f.h == gd.h,
{
}

} // verus!
