use imageflow_codecs::codecs::NativeCodecProfile;
use imageflow_codecs::context::Context;
use imageflow_codecs::errors::ErrorKind;
use imageflow_codecs::io::IoDirection;
use imageflow_codecs::nodes::{
    decoder_estimate, decoder_get_io_id, node_can_execute, node_can_expand, node_estimate,
    node_execute, node_expand, node_tell_decoder, BitmapBgraDef, DecoderDef, DecoderPrimitiveDef,
    EdgeKind, EdgesIn, EdgesOut, EncoderDef, Graph, Node, NodeDefKind, NodeResult,
};
use imageflow_codecs::types::{
    DecoderCommand, EncoderPreset, FrameEstimate, FrameInfo, JpegDownscaleHints, NodeParams,
    PixelFormat,
};

fn base_profile(select: i64) -> NativeCodecProfile {
    NativeCodecProfile {
        select_result: select,
        initialize_ok: true,
        info_result: None,
        exif_flag: -1,
        read_frame_result: None,
        set_hints_ok: true,
        encoder_initialize_ok: true,
        codec_def_present: true,
        write_fn_present: true,
        write_ok: true,
    }
}

fn gif_stream(w: u16, h: u16) -> Vec<u8> {
    let mut b = b"GIF89a".to_vec();
    b.push((w & 0xff) as u8);
    b.push((w >> 8) as u8);
    b.push((h & 0xff) as u8);
    b.push((h >> 8) as u8);
    b.push(0);
    b
}

fn decode_params(io_id: i32) -> NodeParams {
    NodeParams::Decode { io_id, commands: None }
}

#[test]
fn expansion_inserts_one_orientation_node_and_migrates_edges() {
    // A native-decoded stream whose decoder reports orientation flag 6.
    let mut p = base_profile(4);
    p.exif_flag = 6;
    let mut c = Context::new();
    c.add_io(1, IoDirection::In, vec![0u8; 16], p).unwrap();

    let mut g = Graph::new();
    let decode = g.add_node(Node::n(NodeDefKind::Decoder, decode_params(1)));
    let sink_a = g.add_node(Node::n(
        NodeDefKind::Encoder,
        NodeParams::Encode { io_id: 2, preset: EncoderPreset::Gif },
    ));
    let sink_b = g.add_node(Node::n(
        NodeDefKind::Encoder,
        NodeParams::Encode { io_id: 3, preset: EncoderPreset::Gif },
    ));
    g.add_edge(decode, sink_a, EdgeKind::Input);
    g.add_edge(decode, sink_b, EdgeKind::Input);

    node_expand(&mut c, &mut g, decode).unwrap();

    // Exactly one node was inserted, and it is the orientation step.
    assert_eq!(g.nodes.len(), 4);
    let orient = 3usize;
    assert_eq!(g.nodes[orient].def, NodeDefKind::ApplyOrientation);
    assert!(matches!(
        g.nodes[orient].params,
        NodeParams::ApplyOrientation { flag: 6 }
    ));
    // The decode node now dispatches through the primitive definition.
    assert_eq!(g.nodes[decode].def, NodeDefKind::DecoderPrimitive);
    // All pre-expansion outgoing edges moved onto the orientation node,
    // and the decode node's only outgoing edge leads to it.
    assert!(g.edges.iter().any(|e| e.from == orient && e.to == sink_a));
    assert!(g.edges.iter().any(|e| e.from == orient && e.to == sink_b));
    assert!(g.edges.iter().any(|e| e.from == decode && e.to == orient));
    assert!(!g.edges.iter().any(|e| e.from == decode && e.to != orient));
}

#[test]
fn expansion_without_positive_flag_only_mutates_the_node() {
    // The managed GIF decoder reports no orientation flag.
    let mut c = Context::new();
    c.add_io(1, IoDirection::In, gif_stream(4, 4), base_profile(0)).unwrap();
    let mut g = Graph::new();
    let decode = g.add_node(Node::n(NodeDefKind::Decoder, decode_params(1)));
    let sink = g.add_node(Node::n(
        NodeDefKind::Encoder,
        NodeParams::Encode { io_id: 2, preset: EncoderPreset::Gif },
    ));
    g.add_edge(decode, sink, EdgeKind::Input);

    node_expand(&mut c, &mut g, decode).unwrap();

    assert_eq!(g.nodes.len(), 2);
    assert_eq!(g.edges.len(), 1);
    assert_eq!(g.nodes[decode].def, NodeDefKind::DecoderPrimitive);
}

#[test]
fn expanded_node_no_longer_advertises_expansion() {
    let mut c = Context::new();
    c.add_io(1, IoDirection::In, gif_stream(4, 4), base_profile(0)).unwrap();
    let mut g = Graph::new();
    let decode = g.add_node(Node::n(NodeDefKind::Decoder, decode_params(1)));
    assert!(node_can_expand(g.nodes[decode].def));
    assert!(!node_can_execute(g.nodes[decode].def));
    node_expand(&mut c, &mut g, decode).unwrap();
    assert!(!node_can_expand(g.nodes[decode].def));
    assert!(node_can_execute(g.nodes[decode].def));
    // Re-expanding through the dispatcher is refused.
    let e = node_expand(&mut c, &mut g, decode).unwrap_err();
    assert_eq!(e.kind, ErrorKind::NotImplemented);
}

#[test]
fn tell_decoder_dispatches_through_the_current_definition() {
    let commands = vec![DecoderCommand::JpegDownscaleHints(JpegDownscaleHints {
        width: 100,
        height: 50,
        scale_luma_spatially: None,
        gamma_correct_for_srgb_during_spatial_luma_scaling: None,
    })];
    let mut c = Context::new();
    c.add_io(1, IoDirection::In, gif_stream(4, 4), base_profile(0)).unwrap();
    let mut g = Graph::new();
    let decode = g.add_node(Node::n(
        NodeDefKind::Decoder,
        NodeParams::Decode { io_id: 1, commands: Some(commands) },
    ));
    // The logical node reports no commands, by design.
    assert!(node_tell_decoder(&g, decode).unwrap().is_none());
    node_expand(&mut c, &mut g, decode).unwrap();
    // The primitive node surfaces them.
    let (io_id, cmds) = node_tell_decoder(&g, decode).unwrap().unwrap();
    assert_eq!(io_id, 1);
    assert_eq!(cmds.len(), 1);
}

#[test]
fn logical_decoder_cannot_execute() {
    let mut c = Context::new();
    c.add_io(1, IoDirection::In, gif_stream(4, 4), base_profile(0)).unwrap();
    let mut g = Graph::new();
    let decode = g.add_node(Node::n(NodeDefKind::Decoder, decode_params(1)));
    let e = node_execute(&mut c, &mut g, decode).unwrap_err();
    assert_eq!(e.kind, ErrorKind::NotImplemented);
}

#[test]
fn decode_estimate_reports_the_image_shape() {
    let mut c = Context::new();
    c.add_io(1, IoDirection::In, gif_stream(31, 17), base_profile(0)).unwrap();
    let mut g = Graph::new();
    let decode = g.add_node(Node::n(NodeDefKind::Decoder, decode_params(1)));
    let est = node_estimate(&mut c, &mut g, decode).unwrap();
    let expected = FrameEstimate::Known(FrameInfo { w: 31, h: 17, fmt: PixelFormat::Bgra32 });
    assert_eq!(est, expected);
    // The estimate is cached on the node.
    assert_eq!(g.nodes[decode].est, expected);
}

#[test]
fn estimate_unchanged_by_expansion() {
    // Managed GIF path: the estimate before and after expansion agree.
    let mut c = Context::new();
    c.add_io(1, IoDirection::In, gif_stream(31, 17), base_profile(0)).unwrap();
    let mut g = Graph::new();
    let decode = g.add_node(Node::n(NodeDefKind::Decoder, decode_params(1)));
    let before = node_estimate(&mut c, &mut g, decode).unwrap();
    node_expand(&mut c, &mut g, decode).unwrap();
    let after = node_estimate(&mut c, &mut g, decode).unwrap();
    assert_eq!(before, after);

    // Native path with an orientation flag: the same holds while expansion
    // rewires the graph.
    let mut p = base_profile(4);
    p.exif_flag = 6;
    p.info_result = Some(imageflow_codecs::types::ImageInfo {
        frame_decodes_into: PixelFormat::Bgr24,
        image_width: 100,
        image_height: 80,
        preferred_extension: "jpg".to_string(),
        preferred_mime_type: "image/jpeg".to_string(),
    });
    let mut c2 = Context::new();
    c2.add_io(1, IoDirection::In, vec![0u8; 16], p).unwrap();
    let mut g2 = Graph::new();
    let d2 = g2.add_node(Node::n(NodeDefKind::Decoder, decode_params(1)));
    let before2 = node_estimate(&mut c2, &mut g2, d2).unwrap();
    node_expand(&mut c2, &mut g2, d2).unwrap();
    let after2 = node_estimate(&mut c2, &mut g2, d2).unwrap();
    assert_eq!(before2, after2);
    assert_eq!(
        after2,
        FrameEstimate::Known(FrameInfo { w: 100, h: 80, fmt: PixelFormat::Bgr24 })
    );
}

#[test]
fn decoder_estimate_rejects_wrong_params() {
    let mut c = Context::new();
    c.add_io(1, IoDirection::In, gif_stream(4, 4), base_profile(0)).unwrap();
    let g2 = {
        let mut g = Graph::new();
        g.add_node(Node::n(
            NodeDefKind::Decoder,
            NodeParams::Encode { io_id: 1, preset: EncoderPreset::Gif },
        ));
        g
    };
    let e = decoder_estimate(&mut c, &g2, 0).unwrap_err();
    assert_eq!(e.kind, ErrorKind::NodeParamsMismatch);
}

#[test]
fn decoder_get_io_id_reads_decode_params() {
    assert_eq!(decoder_get_io_id(&decode_params(12)).unwrap(), 12);
    let e = decoder_get_io_id(&NodeParams::ApplyOrientation { flag: 1 }).unwrap_err();
    assert_eq!(e.kind, ErrorKind::NodeParamsMismatch);
}

#[test]
fn encode_estimate_passes_the_input_estimate_through() {
    let mut g = Graph::new();
    let parent = g.add_node(Node::n(NodeDefKind::DecoderPrimitive, decode_params(1)));
    let enc = g.add_node(Node::n(
        NodeDefKind::Encoder,
        NodeParams::Encode { io_id: 2, preset: EncoderPreset::Gif },
    ));
    g.add_edge(parent, enc, EdgeKind::Input);
    g.nodes[parent].est = FrameEstimate::Known(FrameInfo { w: 9, h: 9, fmt: PixelFormat::Bgra32 });
    let est = EncoderDef {}.estimate(&g, enc).unwrap();
    assert_eq!(
        est,
        FrameEstimate::Known(FrameInfo { w: 9, h: 9, fmt: PixelFormat::Bgra32 })
    );
}

#[test]
fn full_decode_expand_execute_encode_pipeline() {
    let mut c = Context::new();
    c.add_io(1, IoDirection::In, gif_stream(13, 7), base_profile(0)).unwrap();
    c.add_io(2, IoDirection::Out, Vec::new(), base_profile(0)).unwrap();
    let mut g = Graph::new();
    let decode = g.add_node(Node::n(NodeDefKind::Decoder, decode_params(1)));
    let png = EncoderPreset::Libpng { matte: None, zlib_compression: None, depth: None };
    let enc = g.add_node(Node::n(
        NodeDefKind::Encoder,
        NodeParams::Encode { io_id: 2, preset: png },
    ));
    g.add_edge(decode, enc, EdgeKind::Input);

    node_expand(&mut c, &mut g, decode).unwrap();
    node_execute(&mut c, &mut g, decode).unwrap();
    let fid = match g.nodes[decode].result {
        NodeResult::Frame(f) => f,
        _ => panic!("decode must produce a frame"),
    };
    assert_eq!(c.frames[fid].w, 13);
    assert_eq!(c.frames[fid].h, 7);

    node_execute(&mut c, &mut g, enc).unwrap();
    match &g.nodes[enc].result {
        NodeResult::Encoded(er) => {
            assert_eq!(er.w, 13);
            assert_eq!(er.h, 7);
            assert_eq!(er.preferred_mime_type, "image/png");
            assert_eq!(er.preferred_extension, "png");
            assert_eq!(er.io_id, 2);
        }
        _ => panic!("encode must produce an encode result"),
    }
}

#[test]
fn encode_without_input_frame_is_invalid() {
    let mut c = Context::new();
    c.add_io(2, IoDirection::Out, Vec::new(), base_profile(0)).unwrap();
    let mut g = Graph::new();
    let enc = g.add_node(Node::n(
        NodeDefKind::Encoder,
        NodeParams::Encode { io_id: 2, preset: EncoderPreset::Gif },
    ));
    let e = node_execute(&mut c, &mut g, enc).unwrap_err();
    assert_eq!(e.kind, ErrorKind::InvalidArgument);
}

#[test]
fn bitmap_pointer_null_outer_pointer_fails_validation() {
    let def = BitmapBgraDef {};
    let e = def
        .validate_params(&NodeParams::BitmapBgraPointer { slot: None })
        .unwrap_err();
    assert_eq!(e.kind, ErrorKind::InvalidArgument);
    let e2 = def.validate_params(&decode_params(1)).unwrap_err();
    assert_eq!(e2.kind, ErrorKind::NodeParamsMismatch);
}

#[test]
fn bitmap_pointer_empty_slot_without_parent_fails() {
    let mut c = Context::new();
    let sid = c.add_slot(None).unwrap();
    let mut g = Graph::new();
    let ix = g.add_node(Node::n(
        NodeDefKind::BitmapBgraPointer,
        NodeParams::BitmapBgraPointer { slot: Some(sid) },
    ));
    let e = node_execute(&mut c, &mut g, ix).unwrap_err();
    assert_eq!(e.kind, ErrorKind::InvalidArgument);
}

#[test]
fn bitmap_pointer_prepopulated_slot_serves_as_source() {
    let mut c = Context::new();
    let fid = c.add_frame(FrameInfo { w: 5, h: 6, fmt: PixelFormat::Bgra32 });
    let sid = c.add_slot(Some(fid)).unwrap();
    let mut g = Graph::new();
    let ix = g.add_node(Node::n(
        NodeDefKind::BitmapBgraPointer,
        NodeParams::BitmapBgraPointer { slot: Some(sid) },
    ));
    node_execute(&mut c, &mut g, ix).unwrap();
    assert!(matches!(g.nodes[ix].result, NodeResult::Frame(f) if f == fid));
    // The estimate comes from the pointed-to frame.
    let est = node_estimate(&mut c, &mut g, ix).unwrap();
    assert_eq!(
        est,
        FrameEstimate::Known(FrameInfo { w: 5, h: 6, fmt: PixelFormat::Bgra32 })
    );
}

#[test]
fn bitmap_pointer_passthrough_consumes_the_parent_frame() {
    let mut c = Context::new();
    let fid = c.add_frame(FrameInfo { w: 2, h: 3, fmt: PixelFormat::Bgra32 });
    let sid = c.add_slot(None).unwrap();
    let mut g = Graph::new();
    let parent = g.add_node(Node::n(NodeDefKind::DecoderPrimitive, decode_params(1)));
    let ix = g.add_node(Node::n(
        NodeDefKind::BitmapBgraPointer,
        NodeParams::BitmapBgraPointer { slot: Some(sid) },
    ));
    g.add_edge(parent, ix, EdgeKind::Input);
    g.nodes[parent].result = NodeResult::Frame(fid);

    node_execute(&mut c, &mut g, ix).unwrap();

    // The frame handle was written to the external slot, the parent result
    // was consumed (ownership transferred), and the node passes the frame.
    assert_eq!(c.slots[sid], Some(fid));
    assert!(matches!(g.nodes[parent].result, NodeResult::Consumed));
    assert!(matches!(g.nodes[ix].result, NodeResult::Frame(f) if f == fid));
}

#[test]
fn node_contracts_report_their_shape() {
    assert_eq!(DecoderDef {}.fqn(), "imazen.decoder");
    assert_eq!(DecoderPrimitiveDef {}.fqn(), "imazen.primitive_decoder");
    assert_eq!(EncoderDef {}.fqn(), "imazen.primitive_encoder");
    assert_eq!(BitmapBgraDef {}.fqn(), "imazen.bitmap_bgra_pointer");
    let p = decode_params(1);
    assert_eq!(
        DecoderDef {}.edges_required(&p),
        (EdgesIn::NoInput, EdgesOut::Any)
    );
    assert_eq!(
        EncoderDef {}.edges_required(&p),
        (EdgesIn::OneInput, EdgesOut::NoOutput)
    );
    assert_eq!(
        BitmapBgraDef {}.edges_required(&p),
        (EdgesIn::OneOptionalInput, EdgesOut::Any)
    );
}

#[test]
fn primitive_decoder_validate_and_get() {
    let def = DecoderPrimitiveDef {};
    assert!(def.validate_params(&decode_params(3)).is_ok());
    let (io_id, cmds) = def.get(&decode_params(3)).unwrap();
    assert_eq!(io_id, 3);
    assert!(cmds.is_none());
    let e = def
        .get(&NodeParams::BitmapBgraPointer { slot: None })
        .unwrap_err();
    assert_eq!(e.kind, ErrorKind::NodeParamsMismatch);
}
