//! Codec-bearing graph nodes and their lifecycle: the logical decode node
//! that rewrites itself into the primitive decode node (inserting an
//! orientation-correction step when the decoder reports one), the primitive
//! decode node, the encode node, and the bitmap-pointer passthrough node.
//!
//! The graph is the minimal neighborhood the nodes need: node weights by
//! index, and edges that can be added, copied and deleted by direction.

use vstd::prelude::*;
use crate::errors::{ErrorKind, FlowError};
use crate::types::{
    DecoderCommand, EncodeResult, EncoderPreset, FrameEstimate, FrameInfo, NodeParams, PixelFormat,
};
use crate::context::{registry_step, Context};
use crate::codecs::{spec_exif_flag, CodecKind, Decoder};

verus! {

broadcast use vstd::seq_lib::group_seq_properties;

/// What an edge carries to its target node.
#[derive(Clone, Copy, Debug, PartialEq, Eq, Structural)]
pub enum EdgeKind {
    Input,
    Canvas,
}

/// One directed edge of the graph.
#[derive(Clone, Copy, Debug, PartialEq, Eq, Structural)]
pub struct Edge {
    pub from: usize,
    pub to: usize,
    pub kind: EdgeKind,
}

/// Input arity a node demands of the graph around it.
#[derive(Clone, Copy, Debug, PartialEq, Eq, Structural)]
pub enum EdgesIn {
    NoInput,
    OneInput,
    OneOptionalInput,
}

/// Output arity a node demands of the graph around it.
#[derive(Clone, Copy, Debug, PartialEq, Eq, Structural)]
pub enum EdgesOut {
    Any,
    NoOutput,
}

/// Which behavior a node dispatches through. The decode node starts as
/// `Decoder` (logical) and is mutated, once, into `DecoderPrimitive`.
#[derive(Clone, Copy, Debug, PartialEq, Eq, Structural)]
pub enum NodeDefKind {
    BitmapBgraPointer,
    Decoder,
    DecoderPrimitive,
    Encoder,
    ApplyOrientation,
}

/// What a node produced so far. A frame is owned by exactly one consumer:
/// consuming a parent's frame moves it to `Consumed`.
pub enum NodeResult {
    Nothing,
    Frame(usize),
    Encoded(EncodeResult),
    Consumed,
}

/// One node: its dispatched behavior, its parameters, its result slot and
/// its cached frame estimate.
pub struct Node {
    pub def: NodeDefKind,
    pub params: NodeParams,
    pub result: NodeResult,
    pub est: FrameEstimate,
}

impl Node {
    /// A fresh node: nothing produced, estimate unknown.
    pub fn n(def: NodeDefKind, params: NodeParams) -> (r: Node)
        ensures
            r.def == def,
            r.params == params,
            r.result is Nothing,
            r.est == FrameEstimate::Unknown,
    {
        Node { def, params, result: NodeResult::Nothing, est: FrameEstimate::Unknown }
    }
}

/// The graph neighborhood the nodes operate on.
pub struct Graph {
    pub nodes: Vec<Node>,
    pub edges: Vec<Edge>,
}

impl Graph {
    /// Every edge connects existing nodes.
    pub open spec fn wf(&self) -> bool {
        forall|k: int|
            0 <= k < self.edges@.len() ==> (#[trigger] self.edges@[k]).from < self.nodes@.len()
                && self.edges@[k].to < self.nodes@.len()
    }

    pub open spec fn has_edge(&self, from: usize, to: usize, kind: EdgeKind) -> bool {
        self.edges@.contains(Edge { from, to, kind })
    }

    pub fn new() -> (r: Graph)
        ensures
            r.wf(),
            r.nodes@.len() == 0,
            r.edges@.len() == 0,
    {
        Graph { nodes: Vec::new(), edges: Vec::new() }
    }

    pub fn add_node(&mut self, n: Node) -> (r: usize)
        requires
            old(self).wf(),
        ensures
            final(self).wf(),
            final(self).nodes@ == old(self).nodes@.push(n),
            final(self).edges == old(self).edges,
            r == old(self).nodes@.len(),
    {
        let idx = self.nodes.len();
        self.nodes.push(n);
        idx
    }

    pub fn add_edge(&mut self, from: usize, to: usize, kind: EdgeKind)
        requires
            old(self).wf(),
            from < old(self).nodes@.len(),
            to < old(self).nodes@.len(),
        ensures
            final(self).wf(),
            final(self).nodes == old(self).nodes,
            final(self).edges@ == old(self).edges@.push(Edge { from, to, kind }),
            final(self).has_edge(from, to, kind),
    {
        self.edges.push(Edge { from, to, kind });
        proof {
            assert(self.edges@[self.edges@.len() - 1] == (Edge { from, to, kind }));
        }
    }

    /// Copy every outgoing edge of `source` onto `target`: for each edge
    /// `source -> t`, an edge `target -> t` of the same kind is added.
    /// Existing edges stay untouched.
    pub fn copy_edges_to(&mut self, source: usize, target: usize)
        requires
            old(self).wf(),
            target < old(self).nodes@.len(),
        ensures
            final(self).wf(),
            final(self).nodes == old(self).nodes,
            final(self).edges@.len() >= old(self).edges@.len(),
            forall|k: int|
                0 <= k < old(self).edges@.len() ==> #[trigger] final(self).edges@[k] == old(
                    self,
                ).edges@[k],
            forall|k: int|
                old(self).edges@.len() <= k < final(self).edges@.len()
                    ==> (#[trigger] final(self).edges@[k]).from == target
                    && old(self).edges@.contains(
                    Edge {
                        from: source,
                        to: final(self).edges@[k].to,
                        kind: final(self).edges@[k].kind,
                    },
                ),
            forall|k: int|
                0 <= k < old(self).edges@.len() && (#[trigger] old(self).edges@[k]).from == source
                    ==> final(self).has_edge(target, old(self).edges@[k].to, old(
                    self,
                ).edges@[k].kind),
    {
        let n = self.edges.len();
        let mut i: usize = 0;
        while i < n
            invariant
                old(self).wf(),
                target < old(self).nodes@.len(),
                self.nodes == old(self).nodes,
                n == old(self).edges@.len(),
                i <= n,
                self.edges@.len() >= n,
                forall|k: int|
                    0 <= k < n ==> #[trigger] self.edges@[k] == old(self).edges@[k],
                forall|k: int|
                    n <= k < self.edges@.len() ==> (#[trigger] self.edges@[k]).from == target
                        && old(self).edges@.contains(
                        Edge { from: source, to: self.edges@[k].to, kind: self.edges@[k].kind },
                    ),
                forall|k: int|
                    0 <= k < i && (#[trigger] old(self).edges@[k]).from == source
                        ==> self.has_edge(target, old(self).edges@[k].to, old(self).edges@[k].kind),
                self.wf(),
            decreases n - i,
        {
            let e = self.edges[i];
            if e.from == source {
                let copied = Edge { from: target, to: e.to, kind: e.kind };
                self.edges.push(copied);
                proof {
                    assert(self.edges@[self.edges@.len() - 1] == copied);
                    assert(old(self).edges@.contains(
                        Edge { from: source, to: copied.to, kind: copied.kind },
                    )) by {
                        assert(old(self).edges@[i as int] == (Edge {
                            from: source,
                            to: copied.to,
                            kind: copied.kind,
                        }));
                    }
                }
            }
            i += 1;
        }
        proof {
            assert forall|k: int|
                0 <= k < old(self).edges@.len() && (#[trigger] old(self).edges@[k]).from == source
                    implies self.has_edge(target, old(self).edges@[k].to, old(
                self,
            ).edges@[k].kind) by {}
        }
    }

    /// Delete every outgoing edge of `source`. Edges of other nodes stay.
    pub fn delete_child_edges_for(&mut self, source: usize)
        requires
            old(self).wf(),
        ensures
            final(self).wf(),
            final(self).nodes == old(self).nodes,
            forall|k: int|
                0 <= k < final(self).edges@.len() ==> (#[trigger] final(self).edges@[k]).from
                    != source && old(self).edges@.contains(final(self).edges@[k]),
            forall|k: int|
                0 <= k < old(self).edges@.len() && (#[trigger] old(self).edges@[k]).from != source
                    ==> final(self).edges@.contains(old(self).edges@[k]),
    {
        let mut kept: Vec<Edge> = Vec::new();
        let mut i: usize = 0;
        let n = self.edges.len();
        while i < n
            invariant
                old(self).wf(),
                self == old(self),
                n == self.edges@.len(),
                i <= n,
                forall|k: int|
                    0 <= k < kept@.len() ==> (#[trigger] kept@[k]).from != source
                        && old(self).edges@.contains(kept@[k]),
                forall|k: int|
                    0 <= k < i && (#[trigger] self.edges@[k]).from != source ==> kept@.contains(
                        self.edges@[k],
                    ),
            decreases n - i,
        {
            let e = self.edges[i];
            if e.from != source {
                kept.push(e);
                proof {
                    assert(kept@[kept@.len() - 1] == e);
                    assert(old(self).edges@[i as int] == e);
                }
            }
            i += 1;
        }
        self.edges = kept;
    }

    /// The parent a node draws its single input from, if an edge of that
    /// kind exists.
    pub fn first_input_parent(&self, ix: usize, kind: EdgeKind) -> (r: Option<usize>)
        requires
            self.wf(),
        ensures
            r matches Some(p) ==> (p < self.nodes@.len() && self.has_edge(p, ix, kind)),
            r is None ==> forall|p: usize| !self.has_edge(p, ix, kind),
    {
        let mut i: usize = 0;
        let n = self.edges.len();
        while i < n
            invariant
                self.wf(),
                n == self.edges@.len(),
                i <= n,
                forall|k: int|
                    0 <= k < i ==> !((#[trigger] self.edges@[k]).to == ix && self.edges@[k].kind
                        == kind),
            decreases n - i,
        {
            let e = self.edges[i];
            if e.to == ix && e.kind == kind {
                proof {
                    assert(self.edges@.contains(Edge { from: e.from, to: ix, kind })) by {
                        assert(self.edges@[i as int] == (Edge { from: e.from, to: ix, kind }));
                    }
                }
                return Some(e.from);
            }
            i += 1;
        }
        proof {
            assert forall|p: usize| !self.has_edge(p, ix, kind) by {
                if self.has_edge(p, ix, kind) {
                    let k = choose|k: int|
                        0 <= k < self.edges@.len() && self.edges@[k] == (Edge {
                            from: p,
                            to: ix,
                            kind,
                        });
                    assert(!(self.edges@[k].to == ix && self.edges@[k].kind == kind));
                }
            }
        }
        None
    }

    /// The frame the first input parent of `ix` produced, with the parent's
    /// index, if there is a parent holding an unconsumed frame.
    pub fn first_parent_frame(&self, ix: usize, kind: EdgeKind) -> (r: Option<(usize, usize)>)
        requires
            self.wf(),
        ensures
            r matches Some(pf) ==> (pf.0 < self.nodes@.len() && self.has_edge(pf.0, ix, kind)
                && self.nodes@[pf.0 as int].result == NodeResult::Frame(pf.1)),
            r is None ==> forall|p: usize, f: usize|
                !(self.has_edge(p, ix, kind) && self.nodes@[p as int].result
                    == NodeResult::Frame(f)),
    {
        let mut i: usize = 0;
        let n = self.edges.len();
        while i < n
            invariant
                self.wf(),
                n == self.edges@.len(),
                i <= n,
                forall|k: int|
                    0 <= k < i ==> !((#[trigger] self.edges@[k]).to == ix && self.edges@[k].kind
                        == kind && self.nodes@[self.edges@[k].from as int].result is Frame),
            decreases n - i,
        {
            let e = self.edges[i];
            if e.to == ix && e.kind == kind {
                if let NodeResult::Frame(f) = self.nodes[e.from].result {
                    proof {
                        assert(self.edges@.contains(Edge { from: e.from, to: ix, kind })) by {
                            assert(self.edges@[i as int] == (Edge { from: e.from, to: ix, kind }));
                        }
                    }
                    return Some((e.from, f));
                }
            }
            i += 1;
        }
        proof {
            assert forall|p: usize, f: usize|
                !(self.has_edge(p, ix, kind) && self.nodes@[p as int].result == NodeResult::Frame(
                    f,
                )) by {
                if self.has_edge(p, ix, kind) && self.nodes@[p as int].result == NodeResult::Frame(
                    f,
                ) {
                    let k = choose|k: int|
                        0 <= k < self.edges@.len() && self.edges@[k] == (Edge {
                            from: p,
                            to: ix,
                            kind,
                        });
                    assert(!(self.edges@[k].to == ix && self.edges@[k].kind == kind
                        && self.nodes@[self.edges@[k].from as int].result is Frame));
                }
            }
        }
        None
    }

    /// The explicit ownership-transfer point: marks the frame a parent
    /// produced as consumed, exactly once — a parent holding no unconsumed
    /// frame cannot be consumed.
    pub fn consume_parent_result(&mut self, p: usize) -> (r: Result<(), FlowError>)
        requires
            old(self).wf(),
            p < old(self).nodes@.len(),
        ensures
            final(self).wf(),
            final(self).edges == old(self).edges,
            final(self).nodes@.len() == old(self).nodes@.len(),
            forall|j: int|
                0 <= j < old(self).nodes@.len() && j != p ==> #[trigger] final(self).nodes@[j]
                    == old(self).nodes@[j],
            old(self).nodes@[p as int].result is Frame ==> ({
                &&& r is Ok
                &&& final(self).nodes@[p as int].result is Consumed
                &&& final(self).nodes@[p as int].def == old(self).nodes@[p as int].def
                &&& final(self).nodes@[p as int].params == old(self).nodes@[p as int].params
                &&& final(self).nodes@[p as int].est == old(self).nodes@[p as int].est
            }),
            !(old(self).nodes@[p as int].result is Frame) ==> ({
                &&& *final(self) == *old(self)
                &&& r matches Err(e) && e.kind == ErrorKind::InvalidArgument
            }),
    {
        let is_frame = matches!(self.nodes[p].result, NodeResult::Frame(_));
        if !is_frame {
            return Err(FlowError::new(ErrorKind::InvalidArgument));
        }
        let mut node = self.nodes.remove(p);
        node.result = NodeResult::Consumed;
        self.nodes.insert(p, node);
        proof {
            assert(forall|j: int|
                0 <= j < self.nodes@.len() && j != p ==> #[trigger] self.nodes@[j] == old(
                    self,
                ).nodes@[j]);
        }
        Ok(())
    }
}

/// Every frame a node result names lives in the context's arena.
pub open spec fn results_valid(g: Graph, c: Context) -> bool {
    forall|j: int|
        0 <= j < g.nodes@.len() ==> ((#[trigger] g.nodes@[j]).result matches NodeResult::Frame(f)
            ==> f < c.frames@.len())
}

/// The stream identifier a decode node's parameters carry.
pub open spec fn spec_decode_io_id(p: NodeParams) -> Result<i32, FlowError> {
    match p {
        NodeParams::Decode { io_id, .. } => Ok(io_id),
        _ => Err(FlowError { kind: ErrorKind::NodeParamsMismatch }),
    }
}

/// The slot a bitmap-pointer node's parameters name; a missing slot stands
/// for a null pointer-to-pointer, which is invalid.
pub open spec fn spec_bitmap_slot(p: NodeParams) -> Result<usize, FlowError> {
    match p {
        NodeParams::BitmapBgraPointer { slot } => match slot {
            Some(s) => Ok(s),
            None => Err(FlowError { kind: ErrorKind::InvalidArgument }),
        },
        _ => Err(FlowError { kind: ErrorKind::NodeParamsMismatch }),
    }
}

/// The stream identifier and preset an encode node's parameters carry.
pub open spec fn spec_encode_params(p: NodeParams) -> Result<(i32, EncoderPreset), FlowError> {
    match p {
        NodeParams::Encode { io_id, preset } => Ok((io_id, preset)),
        _ => Err(FlowError { kind: ErrorKind::NodeParamsMismatch }),
    }
}

/// Reads the stream identifier out of decode parameters.
pub fn decoder_get_io_id(params: &NodeParams) -> (r: Result<i32, FlowError>)
    ensures
        r == spec_decode_io_id(*params),
{
    if let NodeParams::Decode { io_id, .. } = params {
        Ok(*io_id)
    } else {
        Err(FlowError::new(ErrorKind::NodeParamsMismatch))
    }
}

/// What estimating a decode node returns and how it may move the context,
/// given the node's parameters. The logical and the primitive decode
/// definitions both promise exactly this, so expanding a decode node does
/// not change its frame estimate.
pub open spec fn decode_estimate_outcome(
    pre: Context,
    post: Context,
    params: NodeParams,
    r: Result<FrameEstimate, FlowError>,
) -> bool {
    &&& spec_decode_io_id(params) matches Err(e) ==> (r == Err::<FrameEstimate, FlowError>(e)
        && post == pre)
    &&& spec_decode_io_id(params) matches Ok(io_id) ==> ({
        &&& registry_step(pre, post, io_id)
        &&& pre.spec_codec_result(io_id) matches Err(e) ==> r == Err::<FrameEstimate, FlowError>(
            e,
        )
        &&& pre.spec_codec_result(io_id) matches Ok(cont) ==> ({
            &&& !(cont.codec is Decoder) ==> (r matches Err(e) && e.kind
                == ErrorKind::InvalidArgument)
            &&& cont.codec matches CodecKind::Decoder(Decoder::Gif(gd)) ==> r == Ok::<
                FrameEstimate,
                FlowError,
            >(FrameEstimate::Known(FrameInfo { w: gd.w, h: gd.h, fmt: PixelFormat::Bgra32 }))
            &&& cont.codec matches CodecKind::Decoder(Decoder::Classic(cd)) ==> ({
                &&& !cd.initialized && !pre.io_profile(io_id).initialize_ok ==> (r matches Err(e)
                    && e.kind == ErrorKind::NativeCodecError)
                &&& (cd.initialized || pre.io_profile(io_id).initialize_ok) ==> (match pre.io_profile(
                    io_id,
                ).info_result {
                    Some(info) => r == Ok::<FrameEstimate, FlowError>(FrameEstimate::Known(
                        FrameInfo {
                            w: info.image_width,
                            h: info.image_height,
                            fmt: info.frame_decodes_into,
                        },
                    )),
                    None => r matches Err(e) && e.kind == ErrorKind::NativeCodecError,
                })
            })
        })
    })
}

/// Law: a decode node's estimate is a function of its parameters and the
/// context's codec state alone. The logical and the primitive decode
/// definitions both promise `decode_estimate_outcome`, so for one context
/// they return the same result: expanding a decode node does not change
/// its frame estimate.
pub proof fn lemma_estimate_unchanged_by_expansion(
    pre: Context,
    post_logical: Context,
    post_primitive: Context,
    params: NodeParams,
    r_logical: Result<FrameEstimate, FlowError>,
    r_primitive: Result<FrameEstimate, FlowError>,
)
    requires
        decode_estimate_outcome(pre, post_logical, params, r_logical),
        decode_estimate_outcome(pre, post_primitive, params, r_primitive),
    ensures
        r_logical == r_primitive,
{
}

/// Estimates a decode node's output: obtains (and on first access binds)
/// the stream's decoder and turns its reported metadata into a frame shape.
pub fn decoder_estimate(c: &mut Context, g: &Graph, ix: usize) -> (r: Result<
    FrameEstimate,
    FlowError,
>)
    requires
        old(c).wf(),
        ix < g.nodes@.len(),
    ensures
        final(c).wf(),
        final(c).frames == old(c).frames,
        final(c).slots == old(c).slots,
        decode_estimate_outcome(*old(c), *final(c), g.nodes@[ix as int].params, r),
{
    let io_id = match decoder_get_io_id(&g.nodes[ix].params) {
        Ok(id) => id,
        Err(e) => {
            return Err(e);
        },
    };
    let info = match c.get_image_info(io_id) {
        Ok(i) => i,
        Err(e) => {
            return Err(e);
        },
    };
    Ok(
        FrameEstimate::Known(
            FrameInfo {
                w: info.image_width,
                h: info.image_height,
                fmt: info.frame_decodes_into,
            },
        ),
    )
}

/// Deep copy of an optional decoder-command list.
fn clone_commands(commands: &Option<Vec<DecoderCommand>>) -> (r: Option<Vec<DecoderCommand>>)
    ensures
        (match *commands {
            Some(v) => r matches Some(v2) && v2@ == v@,
            None => r is None,
        }),
{
    match commands {
        None => None,
        Some(v) => {
            let mut out: Vec<DecoderCommand> = Vec::new();
            let mut i: usize = 0;
            while i < v.len()
                invariant
                    i <= v@.len(),
                    out@ =~= v@.take(i as int),
                decreases v@.len() - i,
            {
                out.push(v[i]);
                i += 1;
            }
            proof {
                assert(out@ =~= v@);
            }
            Some(out)
        },
    }
}

/// What expanding a decode node does, given the node's parameters and the
/// codec state the context resolves for its stream: on success the node's
/// definition is the primitive decode definition; a positive orientation
/// flag inserts exactly one orientation node and migrates the edges.
pub open spec fn decode_expand_outcome(
    c_pre: Context,
    c_post: Context,
    g_pre: Graph,
    g_post: Graph,
    ix: usize,
    r: Result<(), FlowError>,
) -> bool {
    &&& spec_decode_io_id(g_pre.nodes@[ix as int].params) matches Err(e) ==> ({
        &&& r == Err::<(), FlowError>(e)
        &&& g_post == g_pre
        &&& c_post == c_pre
    })
    &&& spec_decode_io_id(g_pre.nodes@[ix as int].params) matches Ok(io_id) ==> ({
        &&& registry_step(c_pre, c_post, io_id)
        &&& c_pre.spec_codec_result(io_id) matches Err(e) ==> (r == Err::<(), FlowError>(e)
            && g_post == g_pre)
        &&& c_pre.spec_codec_result(io_id) matches Ok(cont) ==> ({
            &&& !(cont.codec is Decoder) ==> (r matches Err(e) && e.kind
                == ErrorKind::InvalidArgument && g_post == g_pre)
            &&& cont.codec matches CodecKind::Decoder(d) ==> ({
                &&& r is Ok
                &&& g_post.nodes@[ix as int].def == NodeDefKind::DecoderPrimitive
                &&& g_post.nodes@[ix as int].params == g_pre.nodes@[ix as int].params
                &&& g_post.nodes@[ix as int].result == g_pre.nodes@[ix as int].result
                &&& g_post.nodes@[ix as int].est == g_pre.nodes@[ix as int].est
                &&& (match spec_exif_flag(d, c_pre.io_profile(io_id)) {
                    Some(flag) => if flag > 0 {
                        expanded_with_orientation(g_pre, g_post, ix, flag)
                    } else {
                        g_post.edges == g_pre.edges && g_post.nodes@.len() == g_pre.nodes@.len()
                    },
                    None => g_post.edges == g_pre.edges && g_post.nodes@.len()
                        == g_pre.nodes@.len(),
                })
                &&& forall|j: int|
                    0 <= j < g_pre.nodes@.len() && j != ix ==> #[trigger] g_post.nodes@[j]
                        == g_pre.nodes@[j]
            })
        })
    })
}

/// The logical decode node: it has not yet committed to a codec pipeline
/// shape. Its expansion step inserts any needed orientation correction and
/// mutates the node into the primitive decode node.
#[derive(Debug, Clone)]
pub struct DecoderDef {}

impl DecoderDef {
    pub fn fqn(&self) -> (r: &'static str)
        ensures
            r@ == "imazen.decoder"@,
    {
        "imazen.decoder"
    }

    /// A decode node takes no input and feeds any number of consumers.
    pub fn edges_required(&self, _p: &NodeParams) -> (r: (EdgesIn, EdgesOut))
        ensures
            r == (EdgesIn::NoInput, EdgesOut::Any),
    {
        (EdgesIn::NoInput, EdgesOut::Any)
    }

    pub fn validate_params(&self, p: &NodeParams) -> (r: Result<(), FlowError>)
        ensures
            spec_decode_io_id(*p) matches Ok(id) ==> r is Ok,
            spec_decode_io_id(*p) matches Err(e) ==> r == Err::<(), FlowError>(e),
    {
        match decoder_get_io_id(p) {
            Ok(_) => Ok(()),
            Err(e) => Err(e),
        }
    }

    /// The logical node reports no pending decoder commands, by design:
    /// commands are only meaningful once a concrete codec is bound.
    pub fn tell_decoder(&self, _p: &NodeParams) -> (r: Result<
        Option<(i32, Vec<DecoderCommand>)>,
        FlowError,
    >)
        ensures
            r matches Ok(o) && o is None,
    {
        Ok(None)
    }

    /// Estimates identically to the primitive decode definition: expanding
    /// a decode node does not change its frame estimate.
    pub fn estimate(&self, c: &mut Context, g: &Graph, ix: usize) -> (r: Result<
        FrameEstimate,
        FlowError,
    >)
        requires
            old(c).wf(),
            ix < g.nodes@.len(),
        ensures
            final(c).wf(),
            final(c).frames == old(c).frames,
            final(c).slots == old(c).slots,
            decode_estimate_outcome(*old(c), *final(c), g.nodes@[ix as int].params, r),
    {
        decoder_estimate(c, g, ix)
    }

    /// The logical decode node is the one node that can expand.
    pub fn can_expand(&self) -> (r: bool)
        ensures
            r == true,
    {
        true
    }

    /// The one-time rewrite step: if the bound decoder reports a positive
    /// orientation flag, insert one orientation-correction node, move every
    /// outgoing edge of this node onto it, and connect this node to it.
    /// Whether or not a correction was inserted, mutate this node's
    /// behavior to the primitive decode definition. The node's position and
    /// parameters are unchanged, and the primitive definition no longer
    /// advertises expansion, so a node cannot be expanded twice.
    pub fn expand(&self, c: &mut Context, g: &mut Graph, ix: usize) -> (r: Result<(), FlowError>)
        requires
            old(c).wf(),
            old(g).wf(),
            ix < old(g).nodes@.len(),
        ensures
            final(c).wf(),
            final(g).wf(),
            final(c).frames == old(c).frames,
            final(c).slots == old(c).slots,
            decode_expand_outcome(*old(c), *final(c), *old(g), *final(g), ix, r),
    {
        let io_id = match decoder_get_io_id(&g.nodes[ix].params) {
            Ok(id) => id,
            Err(e) => {
                return Err(e);
            },
        };
        let flag_opt = match c.get_exif_rotation_flag(io_id) {
            Ok(f) => f,
            Err(e) => {
                return Err(e);
            },
        };
        if let Some(flag) = flag_opt {
            if flag > 0 {
                let new_node = g.add_node(
                    Node::n(
                        NodeDefKind::ApplyOrientation,
                        NodeParams::ApplyOrientation { flag },
                    ),
                );
                let ghost g1 = *g;
                g.copy_edges_to(ix, new_node);
                let ghost g2 = *g;
                g.delete_child_edges_for(ix);
                let ghost g3 = *g;
                g.add_edge(ix, new_node, EdgeKind::Input);
                proof {
                    assert forall|k: int|
                        0 <= k < old(g).edges@.len() && (#[trigger] old(g).edges@[k]).from == ix
                            implies g.has_edge(
                        new_node,
                        old(g).edges@[k].to,
                        old(g).edges@[k].kind,
                    ) by {
                        let copied = Edge {
                            from: new_node,
                            to: old(g).edges@[k].to,
                            kind: old(g).edges@[k].kind,
                        };
                        assert(g2.edges@.contains(copied));
                        let m = choose|m: int|
                            0 <= m < g2.edges@.len() && g2.edges@[m] == copied;
                        assert(g3.edges@.contains(copied));
                        assert(g.edges@ == g3.edges@.push(
                            Edge { from: ix, to: new_node, kind: EdgeKind::Input },
                        ));
                        let m3 = choose|m3: int|
                            0 <= m3 < g3.edges@.len() && g3.edges@[m3] == copied;
                        assert(g.edges@[m3] == copied);
                    }
                    assert forall|k: int|
                        0 <= k < g.edges@.len() && (#[trigger] g.edges@[k]).from == ix implies (
                    g.edges@[k].to == new_node && g.edges@[k].kind == EdgeKind::Input) by {
                        if k < g3.edges@.len() {
                            assert(g3.edges@[k].from != ix);
                        }
                    }
                    assert forall|k: int|
                        0 <= k < old(g).edges@.len() && (#[trigger] old(g).edges@[k]).from != ix
                            implies g.edges@.contains(old(g).edges@[k]) by {
                        assert(g2.edges@[k] == old(g).edges@[k]);
                        assert(g3.edges@.contains(old(g).edges@[k]));
                        let m3 = choose|m3: int|
                            0 <= m3 < g3.edges@.len() && g3.edges@[m3] == old(g).edges@[k];
                        assert(g.edges@[m3] == old(g).edges@[k]);
                    }
                    assert forall|k: int|
                        0 <= k < g.edges@.len() && (#[trigger] g.edges@[k]).from == new_node
                            implies old(g).has_edge(ix, g.edges@[k].to, g.edges@[k].kind) by {
                        if k < g3.edges@.len() {
                            assert(g3.edges@.contains(g3.edges@[k]));
                            let m2 = choose|m2: int|
                                0 <= m2 < g2.edges@.len() && g2.edges@[m2] == g3.edges@[k];
                            assert(m2 >= g1.edges@.len()) by {
                                if m2 < g1.edges@.len() {
                                    assert(g2.edges@[m2] == g1.edges@[m2]);
                                    assert(g1.edges@[m2].from == new_node);
                                    assert(old(g).wf());
                                    assert(g1.edges@[m2].from < old(g).nodes@.len());
                                }
                            }
                            assert(g1.edges@.contains(
                                Edge {
                                    from: ix,
                                    to: g2.edges@[m2].to,
                                    kind: g2.edges@[m2].kind,
                                },
                            ));
                        }
                    }
                }
            }
        }
        let node_ref = &mut g.nodes[ix];
        node_ref.def = NodeDefKind::DecoderPrimitive;
        Ok(())
    }
}

/// How expansion rewires the neighborhood when an orientation flag is
/// present: exactly one orientation node is appended, every pre-expansion
/// outgoing edge of the decode node now leaves the new node instead, the
/// decode node's only outgoing edge leads to the new node, edges of other
/// nodes survive, and the new node has no edges the decode node did not
/// have.
pub open spec fn expanded_with_orientation(pre: Graph, post: Graph, ix: usize, flag: i32) -> bool {
    let nn = pre.nodes@.len() as usize;
    &&& post.nodes@.len() == pre.nodes@.len() + 1
    &&& post.nodes@[nn as int].def == NodeDefKind::ApplyOrientation
    &&& post.nodes@[nn as int].params == NodeParams::ApplyOrientation { flag }
    &&& forall|k: int|
        0 <= k < pre.edges@.len() && (#[trigger] pre.edges@[k]).from == ix ==> post.has_edge(
            nn,
            pre.edges@[k].to,
            pre.edges@[k].kind,
        )
    &&& forall|k: int|
        0 <= k < post.edges@.len() && (#[trigger] post.edges@[k]).from == ix ==> (
        post.edges@[k].to == nn && post.edges@[k].kind == EdgeKind::Input)
    &&& post.has_edge(ix, nn, EdgeKind::Input)
    &&& forall|k: int|
        0 <= k < pre.edges@.len() && (#[trigger] pre.edges@[k]).from != ix
            ==> post.edges@.contains(pre.edges@[k])
    &&& forall|k: int|
        0 <= k < post.edges@.len() && (#[trigger] post.edges@[k]).from == nn ==> pre.has_edge(
            ix,
            post.edges@[k].to,
            post.edges@[k].kind,
        )
}


/// What executing a primitive decode node returns and how it moves the
/// context: a successful read pushes the frame into the arena and hands its
/// handle on.
pub open spec fn decode_execute_outcome(
    pre: Context,
    post: Context,
    params: NodeParams,
    r: Result<NodeResult, FlowError>,
) -> bool {
    &&& spec_decode_io_id(params) matches Err(e) ==> (r == Err::<NodeResult, FlowError>(e)
        && post == pre)
    &&& spec_decode_io_id(params) matches Ok(io_id) ==> ({
        &&& registry_step(pre, post, io_id)
        &&& pre.spec_codec_result(io_id) matches Err(e) ==> r == Err::<NodeResult, FlowError>(e)
        &&& pre.spec_codec_result(io_id) matches Ok(cont) ==> ({
            &&& !(cont.codec is Decoder) ==> (r matches Err(e) && e.kind
                == ErrorKind::InvalidArgument)
            &&& cont.codec matches CodecKind::Decoder(d) ==> (match crate::codecs::spec_read_result(
                d,
                pre.io_profile(io_id),
            ) {
                Ok(f) => r == Ok::<NodeResult, FlowError>(NodeResult::Frame(
                    pre.frames@.len() as usize,
                )) && post.frames@ == pre.frames@.push(f),
                Err(e) => r == Err::<NodeResult, FlowError>(e),
            })
        })
    })
}

/// The primitive decode node: the committed form of the decode node after
/// expansion. It reads one frame through the bound decoder.
#[derive(Debug, Clone)]
pub struct DecoderPrimitiveDef {}

impl DecoderPrimitiveDef {
    /// The stream identifier and any pending decoder commands.
    pub fn get(&self, params: &NodeParams) -> (r: Result<
        (i32, Option<Vec<DecoderCommand>>),
        FlowError,
    >)
        ensures
            (match *params {
                NodeParams::Decode { io_id, commands } => ({
                    &&& r matches Ok(t) && t.0 == io_id
                    &&& (match commands {
                        Some(v) => r matches Ok(t) && t.1 matches Some(v2) && v2@ == v@,
                        None => r matches Ok(t) && t.1 is None,
                    })
                }),
                _ => r matches Err(e) && e.kind == ErrorKind::NodeParamsMismatch,
            }),
    {
        if let NodeParams::Decode { io_id, commands } = params {
            Ok((*io_id, clone_commands(commands)))
        } else {
            Err(FlowError::new(ErrorKind::NodeParamsMismatch))
        }
    }

    pub fn fqn(&self) -> (r: &'static str)
        ensures
            r@ == "imazen.primitive_decoder"@,
    {
        "imazen.primitive_decoder"
    }

    pub fn edges_required(&self, _p: &NodeParams) -> (r: (EdgesIn, EdgesOut))
        ensures
            r == (EdgesIn::NoInput, EdgesOut::Any),
    {
        (EdgesIn::NoInput, EdgesOut::Any)
    }

    pub fn validate_params(&self, p: &NodeParams) -> (r: Result<(), FlowError>)
        ensures
            spec_decode_io_id(*p) matches Ok(id) ==> r is Ok,
            spec_decode_io_id(*p) matches Err(e) ==> r == Err::<(), FlowError>(e),
    {
        match decoder_get_io_id(p) {
            Ok(_) => Ok(()),
            Err(e) => Err(e),
        }
    }

    /// The primitive node is the one that surfaces pending commands for
    /// forwarding into the codec.
    pub fn tell_decoder(&self, p: &NodeParams) -> (r: Result<
        Option<(i32, Vec<DecoderCommand>)>,
        FlowError,
    >)
        ensures
            (match *p {
                NodeParams::Decode { io_id, commands } => (match commands {
                    Some(v) => r matches Ok(o) && o matches Some(t) && t.0 == io_id && t.1@
                        == v@,
                    None => r matches Ok(o) && o is None,
                }),
                _ => r matches Err(e) && e.kind == ErrorKind::NodeParamsMismatch,
            }),
    {
        let (io_id, commands) = match self.get(p) {
            Ok(t) => t,
            Err(e) => {
                return Err(e);
            },
        };
        if let Some(v) = commands {
            Ok(Some((io_id, v)))
        } else {
            Ok(None)
        }
    }

    /// Estimates identically to the logical decode definition: expanding
    /// a decode node does not change its frame estimate.
    pub fn estimate(&self, c: &mut Context, g: &Graph, ix: usize) -> (r: Result<
        FrameEstimate,
        FlowError,
    >)
        requires
            old(c).wf(),
            ix < g.nodes@.len(),
        ensures
            final(c).wf(),
            final(c).frames == old(c).frames,
            final(c).slots == old(c).slots,
            decode_estimate_outcome(*old(c), *final(c), g.nodes@[ix as int].params, r),
    {
        decoder_estimate(c, g, ix)
    }

    pub fn can_execute(&self) -> (r: bool)
        ensures
            r == true,
    {
        true
    }

    /// Reads one frame through the stream's bound decoder and hands the
    /// frame handle on.
    pub fn execute(&self, c: &mut Context, g: &Graph, ix: usize) -> (r: Result<
        NodeResult,
        FlowError,
    >)
        requires
            old(c).wf(),
            ix < g.nodes@.len(),
        ensures
            final(c).wf(),
            final(c).slots == old(c).slots,
            r matches Ok(nr) ==> (nr matches NodeResult::Frame(f) && f
                < final(c).frames@.len()),
            r is Err ==> final(c).frames == old(c).frames,
            decode_execute_outcome(*old(c), *final(c), g.nodes@[ix as int].params, r),
    {
        let io_id = match decoder_get_io_id(&g.nodes[ix].params) {
            Ok(id) => id,
            Err(e) => {
                return Err(e);
            },
        };
        match c.read_frame(io_id) {
            Ok(fid) => Ok(NodeResult::Frame(fid)),
            Err(e) => Err(e),
        }
    }
}

/// What executing an encode node returns and how it moves the context: the
/// single input frame is written through the stream's (lazily bound)
/// encoder, and the result reports that frame's dimensions.
pub open spec fn encode_execute_outcome(
    pre: Context,
    post: Context,
    g: Graph,
    ix: usize,
    r: Result<NodeResult, FlowError>,
) -> bool {
    &&& spec_encode_params(g.nodes@[ix as int].params) matches Err(e) ==> (r == Err::<
        NodeResult,
        FlowError,
    >(e) && post == pre)
    &&& spec_encode_params(g.nodes@[ix as int].params) matches Ok(t) ==> ({
        &&& (forall|p: usize, f: usize|
            !(g.has_edge(p, ix, EdgeKind::Input) && g.nodes@[p as int].result
                == NodeResult::Frame(f))) ==> (r matches Err(e) && e.kind
            == ErrorKind::InvalidArgument && post == pre)
        &&& (exists|p: usize, f: usize|
            g.has_edge(p, ix, EdgeKind::Input) && g.nodes@[p as int].result == NodeResult::Frame(
                f,
            )) ==> (exists|p: usize, fid: usize| #![auto]
            ({
                &&& g.has_edge(p, ix, EdgeKind::Input)
                &&& g.nodes@[p as int].result == NodeResult::Frame(fid)
                &&& registry_step(pre, post, t.0)
                &&& pre.spec_codec_result(t.0) matches Err(e) ==> r == Err::<
                    NodeResult,
                    FlowError,
                >(e)
                &&& pre.spec_codec_result(t.0) matches Ok(cont) ==> ({
                    &&& cont.codec is Decoder ==> (r matches Err(e) && e.kind
                        == ErrorKind::NotImplemented)
                    &&& crate::codecs::spec_bind_encoder(cont.codec, t.1, t.0)
                        matches CodecKind::Encoder(crate::codecs::Encoder::Gif(ge)) ==> (r
                        matches Ok(nr) && nr matches NodeResult::Encoded(er) && er.w
                        == pre.frames@[fid as int].w && er.h == pre.frames@[fid as int].h
                        && er.io_id == ge.io_id && er.preferred_mime_type@ == "image/gif"@
                        && er.preferred_extension@ == "gif"@)
                    &&& crate::codecs::spec_bind_encoder(cont.codec, t.1, t.0)
                        matches CodecKind::Encoder(crate::codecs::Encoder::Classic(ce)) ==> ({
                        &&& crate::codecs::spec_classic_write_error(t.1, pre.io_profile(t.0))
                            matches Some(k) ==> (r matches Err(e) && e.kind == k)
                        &&& crate::codecs::spec_classic_write_error(t.1, pre.io_profile(t.0))
                            is None ==> (r matches Ok(nr) && nr matches NodeResult::Encoded(er)
                            && er.w == pre.frames@[fid as int].w && er.h
                            == pre.frames@[fid as int].h && er.io_id == ce.io_id
                            && er.preferred_mime_type@ == crate::codecs::spec_preset_mime_type(
                            t.1) && er.preferred_extension@
                            == crate::codecs::spec_preset_extension(t.1))
                    })
                })
            }))
    })
}

/// The encode node: takes its single input frame and writes it through the
/// output stream's (lazily bound) encoder.
#[derive(Debug, Clone)]
pub struct EncoderDef {}

impl EncoderDef {
    /// The stream identifier and preset the node's parameters carry.
    pub fn get(&self, params: &NodeParams) -> (r: Result<(i32, EncoderPreset), FlowError>)
        ensures
            r == spec_encode_params(*params),
    {
        if let NodeParams::Encode { io_id, preset } = params {
            Ok((*io_id, *preset))
        } else {
            Err(FlowError::new(ErrorKind::NodeParamsMismatch))
        }
    }

    pub fn fqn(&self) -> (r: &'static str)
        ensures
            r@ == "imazen.primitive_encoder"@,
    {
        "imazen.primitive_encoder"
    }

    /// An encode node takes exactly one input and feeds nothing.
    pub fn edges_required(&self, _p: &NodeParams) -> (r: (EdgesIn, EdgesOut))
        ensures
            r == (EdgesIn::OneInput, EdgesOut::NoOutput),
    {
        (EdgesIn::OneInput, EdgesOut::NoOutput)
    }

    pub fn validate_params(&self, p: &NodeParams) -> (r: Result<(), FlowError>)
        ensures
            spec_encode_params(*p) matches Ok(t) ==> r is Ok,
            spec_encode_params(*p) matches Err(e) ==> r == Err::<(), FlowError>(e),
    {
        match self.get(p) {
            Ok(_) => Ok(()),
            Err(e) => Err(e),
        }
    }

    /// An encode node's estimate passes its input's estimate through
    /// unchanged.
    pub fn estimate(&self, g: &Graph, ix: usize) -> (r: Result<FrameEstimate, FlowError>)
        requires
            g.wf(),
            ix < g.nodes@.len(),
        ensures
            r matches Ok(est) ==> exists|p: usize| #![auto]
                g.has_edge(p, ix, EdgeKind::Input) && g.nodes@[p as int].est == est,
            r matches Err(e) ==> (e.kind == ErrorKind::InvalidArgument && forall|p: usize|
                !g.has_edge(p, ix, EdgeKind::Input)),
    {
        match g.first_input_parent(ix, EdgeKind::Input) {
            Some(p) => Ok(g.nodes[p].est),
            None => Err(FlowError::new(ErrorKind::InvalidArgument)),
        }
    }

    pub fn can_execute(&self) -> (r: bool)
        ensures
            r == true,
    {
        true
    }

    /// Resolves the stream and preset, takes the single input frame, and
    /// writes it through the bound (or first-write-bound) encoder.
    pub fn execute(&self, c: &mut Context, g: &Graph, ix: usize) -> (r: Result<
        NodeResult,
        FlowError,
    >)
        requires
            old(c).wf(),
            g.wf(),
            ix < g.nodes@.len(),
            results_valid(*g, *old(c)),
        ensures
            final(c).wf(),
            final(c).frames == old(c).frames,
            final(c).slots == old(c).slots,
            encode_execute_outcome(*old(c), *final(c), *g, ix, r),
    {
        let (io_id, preset) = match self.get(&g.nodes[ix].params) {
            Ok(t) => t,
            Err(e) => {
                return Err(e);
            },
        };
        match g.first_parent_frame(ix, EdgeKind::Input) {
            None => Err(FlowError::new(ErrorKind::InvalidArgument)),
            Some((p, fid)) => {
                proof {
                    assert(fid < old(c).frames@.len());
                }
                match c.write_frame(io_id, &preset, fid) {
                    Ok(er) => Ok(NodeResult::Encoded(er)),
                    Err(e) => Err(e),
                }
            },
        }
    }
}


/// The bitmap-pointer passthrough node: wired to an externally supplied
/// pointer slot, it hands a decoded frame off to the slot, or serves a
/// pre-populated slot as a source.
#[derive(Debug, Clone)]
pub struct BitmapBgraDef {}

impl BitmapBgraDef {
    /// The slot the parameters point at; a missing slot stands for a null
    /// pointer-to-pointer, which must be a valid reference to a pointer's
    /// location.
    pub fn get(&self, p: &NodeParams) -> (r: Result<usize, FlowError>)
        ensures
            r == spec_bitmap_slot(*p),
    {
        if let NodeParams::BitmapBgraPointer { slot } = p {
            match slot {
                Some(s) => Ok(*s),
                None => Err(FlowError::new(ErrorKind::InvalidArgument)),
            }
        } else {
            Err(FlowError::new(ErrorKind::NodeParamsMismatch))
        }
    }

    pub fn fqn(&self) -> (r: &'static str)
        ensures
            r@ == "imazen.bitmap_bgra_pointer"@,
    {
        "imazen.bitmap_bgra_pointer"
    }

    /// A bitmap-pointer node takes at most one input and feeds any number
    /// of consumers.
    pub fn edges_required(&self, _p: &NodeParams) -> (r: (EdgesIn, EdgesOut))
        ensures
            r == (EdgesIn::OneOptionalInput, EdgesOut::Any),
    {
        (EdgesIn::OneOptionalInput, EdgesOut::Any)
    }

    pub fn validate_params(&self, p: &NodeParams) -> (r: Result<(), FlowError>)
        ensures
            spec_bitmap_slot(*p) matches Ok(s) ==> r is Ok,
            spec_bitmap_slot(*p) matches Err(e) ==> r == Err::<(), FlowError>(e),
    {
        match self.get(p) {
            Ok(_) => Ok(()),
            Err(e) => Err(e),
        }
    }

    /// Estimate from the pointed-to frame when the slot is filled, else
    /// from the upstream input's estimate.
    pub fn estimate(&self, c: &Context, g: &Graph, ix: usize) -> (r: Result<
        FrameEstimate,
        FlowError,
    >)
        requires
            c.wf(),
            g.wf(),
            ix < g.nodes@.len(),
        ensures
            spec_bitmap_slot(g.nodes@[ix as int].params) matches Err(e) ==> r == Err::<
                FrameEstimate,
                FlowError,
            >(e),
            spec_bitmap_slot(g.nodes@[ix as int].params) matches Ok(sid) ==> ({
                &&& sid >= c.slots@.len() ==> (r matches Err(e) && e.kind
                    == ErrorKind::InvalidArgument)
                &&& sid < c.slots@.len() ==> (match c.slots@[sid as int] {
                    Some(fid) => r == Ok::<FrameEstimate, FlowError>(FrameEstimate::Known(
                        c.frames@[fid as int],
                    )),
                    None => ({
                        &&& (r matches Ok(est) ==> exists|p: usize| #![auto]
                            g.has_edge(p, ix, EdgeKind::Input) && g.nodes@[p as int].est == est)
                        &&& (r matches Err(e) ==> (e.kind == ErrorKind::InvalidArgument
                            && forall|p: usize| !g.has_edge(p, ix, EdgeKind::Input)))
                    }),
                })
            }),
    {
        let sid = match self.get(&g.nodes[ix].params) {
            Ok(s) => s,
            Err(e) => {
                return Err(e);
            },
        };
        if sid >= c.slots.len() {
            return Err(FlowError::new(ErrorKind::InvalidArgument));
        }
        match c.slots[sid] {
            Some(fid) => Ok(FrameEstimate::Known(c.frames[fid])),
            None => {
                match g.first_input_parent(ix, EdgeKind::Input) {
                    Some(p) => Ok(g.nodes[p].est),
                    None => Err(FlowError::new(ErrorKind::InvalidArgument)),
                }
            },
        }
    }

    pub fn can_execute(&self) -> (r: bool)
        ensures
            r == true,
    {
        true
    }

    /// With an upstream frame: write its handle into the slot, consume the
    /// parent's result (the ownership-transfer point), and pass the frame
    /// through. Without an upstream input the node serves as a source: it
    /// returns the frame already present in the slot, and fails when the
    /// slot is empty, since a source node must be pre-populated.
    pub fn execute(&self, c: &mut Context, g: &mut Graph, ix: usize) -> (r: Result<
        NodeResult,
        FlowError,
    >)
        requires
            old(c).wf(),
            old(g).wf(),
            ix < old(g).nodes@.len(),
            results_valid(*old(g), *old(c)),
        ensures
            final(c).wf(),
            final(g).wf(),
            results_valid(*final(g), *final(c)),
            final(c).io == old(c).io,
            final(c).codecs == old(c).codecs,
            final(c).frames == old(c).frames,
            final(g).edges == old(g).edges,
            final(g).nodes@.len() == old(g).nodes@.len(),
            r matches Ok(nr) ==> (nr matches NodeResult::Frame(f) && f
                < final(c).frames@.len()),
            spec_bitmap_slot(old(g).nodes@[ix as int].params) matches Err(e) ==> (r == Err::<
                NodeResult,
                FlowError,
            >(e) && *final(c) == *old(c) && *final(g) == *old(g)),
            spec_bitmap_slot(old(g).nodes@[ix as int].params) matches Ok(sid) ==> ({
                &&& sid >= old(c).slots@.len() ==> ({
                    &&& r matches Err(e) && e.kind == ErrorKind::InvalidArgument
                    &&& *final(c) == *old(c)
                    &&& *final(g) == *old(g)
                })
                &&& sid < old(c).slots@.len() ==> ({
                    &&& (forall|p: usize, f: usize|
                        !(old(g).has_edge(p, ix, EdgeKind::Input) && old(g).nodes@[p as int].result
                            == NodeResult::Frame(f))) ==> ({
                        &&& *final(g) == *old(g)
                        &&& (match old(c).slots@[sid as int] {
                            Some(fid) => r == Ok::<NodeResult, FlowError>(NodeResult::Frame(fid))
                                && *final(c) == *old(c),
                            None => ({
                                &&& r matches Err(e) && e.kind == ErrorKind::InvalidArgument
                                &&& *final(c) == *old(c)
                            }),
                        })
                    })
                    &&& (exists|p: usize, f: usize|
                        old(g).has_edge(p, ix, EdgeKind::Input) && old(g).nodes@[p as int].result
                            == NodeResult::Frame(f)) ==> (exists|p: usize, fid: usize| #![auto]
                        ({
                            &&& old(g).has_edge(p, ix, EdgeKind::Input)
                            &&& old(g).nodes@[p as int].result == NodeResult::Frame(fid)
                            &&& r == Ok::<NodeResult, FlowError>(NodeResult::Frame(fid))
                            &&& final(c).slots@ == old(c).slots@.update(sid as int, Some(fid))
                            &&& final(g).nodes@[p as int].result is Consumed
                            &&& forall|j: int|
                                0 <= j < old(g).nodes@.len() && j != p
                                    ==> #[trigger] final(g).nodes@[j] == old(g).nodes@[j]
                        }))
                })
            }),
    {
        let sid = match self.get(&g.nodes[ix].params) {
            Ok(s) => s,
            Err(e) => {
                return Err(e);
            },
        };
        if sid >= c.slots.len() {
            return Err(FlowError::new(ErrorKind::InvalidArgument));
        }
        match g.first_parent_frame(ix, EdgeKind::Input) {
            Some((p, fid)) => {
                proof {
                    assert(fid < old(c).frames@.len());
                }
                c.slots[sid] = Some(fid);
                match g.consume_parent_result(p) {
                    Ok(_) => Ok(NodeResult::Frame(fid)),
                    Err(e) => {
                        proof {
                            assert(false);
                        }
                        Err(e)
                    },
                }
            },
            None => {
                match c.slots[sid] {
                    Some(fid) => Ok(NodeResult::Frame(fid)),
                    None => Err(FlowError::new(ErrorKind::InvalidArgument)),
                }
            },
        }
    }
}


/// Whether a node definition advertises the one-time expansion step: only
/// the logical decode node does; in particular, a node already mutated to
/// the primitive decode definition does not, so expansion cannot happen
/// twice.
pub fn node_can_expand(def: NodeDefKind) -> (r: bool)
    ensures
        r == (def == NodeDefKind::Decoder),
{
    matches!(def, NodeDefKind::Decoder)
}

/// Whether a node definition can execute. The logical decode node cannot:
/// it must expand into the primitive form first.
pub fn node_can_execute(def: NodeDefKind) -> (r: bool)
    ensures
        r == (def == NodeDefKind::BitmapBgraPointer || def == NodeDefKind::DecoderPrimitive || def
            == NodeDefKind::Encoder),
{
    matches!(
        def,
        NodeDefKind::BitmapBgraPointer | NodeDefKind::DecoderPrimitive | NodeDefKind::Encoder
    )
}

/// Surfaces a node's pending decoder commands through its current
/// definition: only the primitive decode node reports any; the logical
/// decode node always reports none, by design.
pub fn node_tell_decoder(g: &Graph, ix: usize) -> (r: Result<
    Option<(i32, Vec<DecoderCommand>)>,
    FlowError,
>)
    requires
        ix < g.nodes@.len(),
    ensures
        g.nodes@[ix as int].def == NodeDefKind::Decoder ==> (r matches Ok(o) && o is None),
        g.nodes@[ix as int].def == NodeDefKind::DecoderPrimitive ==> (match g.nodes@[ix as int].params {
            NodeParams::Decode { io_id, commands } => (match commands {
                Some(v) => r matches Ok(o) && o matches Some(t) && t.0 == io_id && t.1@ == v@,
                None => r matches Ok(o) && o is None,
            }),
            _ => r matches Err(e) && e.kind == ErrorKind::NodeParamsMismatch,
        }),
        g.nodes@[ix as int].def == NodeDefKind::BitmapBgraPointer || g.nodes@[ix as int].def
            == NodeDefKind::Encoder || g.nodes@[ix as int].def == NodeDefKind::ApplyOrientation
            ==> (r matches Ok(o) && o is None),
{
    match g.nodes[ix].def {
        NodeDefKind::Decoder => DecoderDef {  }.tell_decoder(&g.nodes[ix].params),
        NodeDefKind::DecoderPrimitive => DecoderPrimitiveDef {  }.tell_decoder(&g.nodes[ix].params),
        _ => Ok(None),
    }
}

/// Runs a node's expansion step through its current definition. Only the
/// logical decode node has one.
pub fn node_expand(c: &mut Context, g: &mut Graph, ix: usize) -> (r: Result<(), FlowError>)
    requires
        old(c).wf(),
        old(g).wf(),
        ix < old(g).nodes@.len(),
    ensures
        final(c).wf(),
        final(g).wf(),
        old(g).nodes@[ix as int].def != NodeDefKind::Decoder ==> ({
            &&& r matches Err(e) && e.kind == ErrorKind::NotImplemented
            &&& *final(c) == *old(c)
            &&& *final(g) == *old(g)
        }),
        old(g).nodes@[ix as int].def == NodeDefKind::Decoder && r is Ok
            ==> final(g).nodes@[ix as int].def == NodeDefKind::DecoderPrimitive,
        old(g).nodes@[ix as int].def == NodeDefKind::Decoder ==> decode_expand_outcome(
            *old(c),
            *final(c),
            *old(g),
            *final(g),
            ix,
            r,
        ),
{
    let is_decoder = matches!(g.nodes[ix].def, NodeDefKind::Decoder);
    if is_decoder {
        DecoderDef {  }.expand(c, g, ix)
    } else {
        Err(FlowError::new(ErrorKind::NotImplemented))
    }
}

/// Computes a node's estimate through its current definition and caches it
/// on the node.
pub fn node_estimate(c: &mut Context, g: &mut Graph, ix: usize) -> (r: Result<
    FrameEstimate,
    FlowError,
>)
    requires
        old(c).wf(),
        old(g).wf(),
        ix < old(g).nodes@.len(),
    ensures
        final(c).wf(),
        final(g).wf(),
        final(c).frames == old(c).frames,
        final(c).slots == old(c).slots,
        final(g).edges == old(g).edges,
        final(g).nodes@.len() == old(g).nodes@.len(),
        forall|j: int|
            0 <= j < old(g).nodes@.len() && j != ix ==> #[trigger] final(g).nodes@[j] == old(
                g,
            ).nodes@[j],
        final(g).nodes@[ix as int].def == old(g).nodes@[ix as int].def,
        final(g).nodes@[ix as int].params == old(g).nodes@[ix as int].params,
        final(g).nodes@[ix as int].result == old(g).nodes@[ix as int].result,
        r matches Ok(est) ==> final(g).nodes@[ix as int].est == est,
        r is Err ==> final(g).nodes@[ix as int].est == old(g).nodes@[ix as int].est,
        old(g).nodes@[ix as int].def == NodeDefKind::ApplyOrientation ==> ({
            &&& r matches Err(e) && e.kind == ErrorKind::NotImplemented
            &&& *final(c) == *old(c)
        }),
        old(g).nodes@[ix as int].def == NodeDefKind::Decoder || old(g).nodes@[ix as int].def
            == NodeDefKind::DecoderPrimitive ==> decode_estimate_outcome(
            *old(c),
            *final(c),
            old(g).nodes@[ix as int].params,
            r,
        ),
        old(g).nodes@[ix as int].def == NodeDefKind::Encoder ==> ({
            &&& *final(c) == *old(c)
            &&& (r matches Ok(est) ==> exists|p: usize| #![auto]
                old(g).has_edge(p, ix, EdgeKind::Input) && old(g).nodes@[p as int].est == est)
            &&& (r matches Err(e) ==> (e.kind == ErrorKind::InvalidArgument && forall|p: usize|
                !old(g).has_edge(p, ix, EdgeKind::Input)))
        }),
        old(g).nodes@[ix as int].def == NodeDefKind::BitmapBgraPointer ==> ({
            &&& *final(c) == *old(c)
            &&& spec_bitmap_slot(old(g).nodes@[ix as int].params) matches Err(e) ==> r == Err::<
                FrameEstimate,
                FlowError,
            >(e)
            &&& spec_bitmap_slot(old(g).nodes@[ix as int].params) matches Ok(sid) ==> ({
                &&& sid >= old(c).slots@.len() ==> (r matches Err(e) && e.kind
                    == ErrorKind::InvalidArgument)
                &&& sid < old(c).slots@.len() ==> (match old(c).slots@[sid as int] {
                    Some(fid) => r == Ok::<FrameEstimate, FlowError>(FrameEstimate::Known(
                        old(c).frames@[fid as int],
                    )),
                    None => ({
                        &&& (r matches Ok(est) ==> exists|p: usize| #![auto]
                            old(g).has_edge(p, ix, EdgeKind::Input)
                                && old(g).nodes@[p as int].est == est)
                        &&& (r matches Err(e) ==> (e.kind == ErrorKind::InvalidArgument
                            && forall|p: usize| !old(g).has_edge(p, ix, EdgeKind::Input)))
                    }),
                })
            })
        }),
{
    let def = g.nodes[ix].def;
    let est_result = match def {
        NodeDefKind::Decoder => DecoderDef {  }.estimate(c, g, ix),
        NodeDefKind::DecoderPrimitive => DecoderPrimitiveDef {  }.estimate(c, g, ix),
        NodeDefKind::Encoder => EncoderDef {  }.estimate(g, ix),
        NodeDefKind::BitmapBgraPointer => BitmapBgraDef {  }.estimate(c, g, ix),
        NodeDefKind::ApplyOrientation => Err(FlowError::new(ErrorKind::NotImplemented)),
    };
    match est_result {
        Ok(est) => {
            g.nodes[ix].est = est;
            Ok(est)
        },
        Err(e) => Err(e),
    }
}

/// Executes a node through its current definition and stores the produced
/// result on the node. After expansion a decode node's definition is
/// `DecoderPrimitive`, so execution dispatches through the primitive
/// implementation; the logical decode definition cannot execute.
pub fn node_execute(c: &mut Context, g: &mut Graph, ix: usize) -> (r: Result<(), FlowError>)
    requires
        old(c).wf(),
        old(g).wf(),
        ix < old(g).nodes@.len(),
        results_valid(*old(g), *old(c)),
    ensures
        final(c).wf(),
        final(g).wf(),
        results_valid(*final(g), *final(c)),
        final(g).nodes@.len() == old(g).nodes@.len(),
        old(g).nodes@[ix as int].def == NodeDefKind::Decoder || old(g).nodes@[ix as int].def
            == NodeDefKind::ApplyOrientation ==> ({
            &&& r matches Err(e) && e.kind == ErrorKind::NotImplemented
            &&& *final(c) == *old(c)
            &&& *final(g) == *old(g)
        }),
        old(g).nodes@[ix as int].def == NodeDefKind::DecoderPrimitive && r is Ok
            ==> final(g).nodes@[ix as int].result is Frame,
        old(g).nodes@[ix as int].def == NodeDefKind::Encoder && r is Ok
            ==> final(g).nodes@[ix as int].result is Encoded,
        old(g).nodes@[ix as int].def == NodeDefKind::BitmapBgraPointer && r is Ok
            ==> final(g).nodes@[ix as int].result is Frame,
        old(g).nodes@[ix as int].def == NodeDefKind::DecoderPrimitive || old(
            g,
        ).nodes@[ix as int].def == NodeDefKind::Encoder ==> ({
            &&& final(g).edges == old(g).edges
            &&& forall|j: int|
                0 <= j < old(g).nodes@.len() && j != ix ==> #[trigger] final(g).nodes@[j] == old(
                    g,
                ).nodes@[j]
            &&& final(g).nodes@[ix as int].def == old(g).nodes@[ix as int].def
            &&& final(g).nodes@[ix as int].params == old(g).nodes@[ix as int].params
            &&& final(g).nodes@[ix as int].est == old(g).nodes@[ix as int].est
        }),
        old(g).nodes@[ix as int].def == NodeDefKind::DecoderPrimitive ==> ({
            &&& r matches Err(e) ==> (decode_execute_outcome(
                *old(c),
                *final(c),
                old(g).nodes@[ix as int].params,
                Err(e),
            ) && *final(g) == *old(g))
            &&& r is Ok ==> decode_execute_outcome(
                *old(c),
                *final(c),
                old(g).nodes@[ix as int].params,
                Ok(final(g).nodes@[ix as int].result),
            )
        }),
        old(g).nodes@[ix as int].def == NodeDefKind::Encoder ==> ({
            &&& r matches Err(e) ==> (encode_execute_outcome(*old(c), *final(c), *old(g), ix, Err(
                e,
            )) && *final(g) == *old(g))
            &&& r is Ok ==> encode_execute_outcome(
                *old(c),
                *final(c),
                *old(g),
                ix,
                Ok(final(g).nodes@[ix as int].result),
            )
        }),
        old(g).nodes@[ix as int].def == NodeDefKind::BitmapBgraPointer ==> ({
            &&& final(c).io == old(c).io
            &&& final(c).codecs == old(c).codecs
            &&& final(c).frames == old(c).frames
            &&& final(g).edges == old(g).edges
            &&& spec_bitmap_slot(old(g).nodes@[ix as int].params) matches Err(e) ==> (r == Err::<
                (),
                FlowError,
            >(e) && *final(c) == *old(c) && *final(g) == *old(g))
            &&& spec_bitmap_slot(old(g).nodes@[ix as int].params) matches Ok(sid) ==> ({
                &&& sid >= old(c).slots@.len() ==> ({
                    &&& r matches Err(e) && e.kind == ErrorKind::InvalidArgument
                    &&& *final(c) == *old(c)
                    &&& *final(g) == *old(g)
                })
                &&& sid < old(c).slots@.len() ==> ({
                    &&& (forall|p: usize, f: usize|
                        !(old(g).has_edge(p, ix, EdgeKind::Input) && old(g).nodes@[p as int].result
                            == NodeResult::Frame(f))) ==> (match old(c).slots@[sid as int] {
                        Some(fid) => ({
                            &&& r is Ok
                            &&& *final(c) == *old(c)
                            &&& final(g).nodes@[ix as int].result == NodeResult::Frame(fid)
                            &&& forall|j: int|
                                0 <= j < old(g).nodes@.len() && j != ix
                                    ==> #[trigger] final(g).nodes@[j] == old(g).nodes@[j]
                        }),
                        None => ({
                            &&& r matches Err(e) && e.kind == ErrorKind::InvalidArgument
                            &&& *final(c) == *old(c)
                            &&& *final(g) == *old(g)
                        }),
                    })
                    &&& (exists|p: usize, f: usize|
                        old(g).has_edge(p, ix, EdgeKind::Input) && old(g).nodes@[p as int].result
                            == NodeResult::Frame(f)) ==> (r is Ok && exists|p: usize, fid: usize| #![auto]
                        ({
                            &&& old(g).has_edge(p, ix, EdgeKind::Input)
                            &&& old(g).nodes@[p as int].result == NodeResult::Frame(fid)
                            &&& final(c).slots@ == old(c).slots@.update(sid as int, Some(fid))
                            &&& final(g).nodes@[ix as int].result == NodeResult::Frame(fid)
                            &&& (p != ix ==> final(g).nodes@[p as int].result is Consumed)
                            &&& forall|j: int|
                                0 <= j < old(g).nodes@.len() && j != p && j != ix
                                    ==> #[trigger] final(g).nodes@[j] == old(g).nodes@[j]
                        }))
                })
            })
        }),
{
    let def = g.nodes[ix].def;
    match def {
        NodeDefKind::DecoderPrimitive => {
            match (DecoderPrimitiveDef {  }.execute(c, g, ix)) {
                Ok(res) => {
                    g.nodes[ix].result = res;
                    Ok(())
                },
                Err(e) => Err(e),
            }
        },
        NodeDefKind::Encoder => {
            match (EncoderDef {  }.execute(c, g, ix)) {
                Ok(res) => {
                    g.nodes[ix].result = res;
                    Ok(())
                },
                Err(e) => Err(e),
            }
        },
        NodeDefKind::BitmapBgraPointer => {
            match (BitmapBgraDef {  }.execute(c, g, ix)) {
                Ok(res) => {
                    g.nodes[ix].result = res;
                    Ok(())
                },
                Err(e) => Err(e),
            }
        },
        _ => Err(FlowError::new(ErrorKind::NotImplemented)),
    }
}

} // verus!
