use imageflow_codecs::codecs::{
    starts_with_gif_signature, translate_downscale_hints, ClassicEncoder, CodecKind, Decoder,
    Encoder, NativeCodecProfile,
};
use imageflow_codecs::context::Context;
use imageflow_codecs::errors::ErrorKind;
use imageflow_codecs::io::IoDirection;
use imageflow_codecs::types::{
    EncoderPreset, ImageInfo, JpegDownscaleHints, PixelFormat, PngBitDepth, ResultBytes,
    CODEC_ID_ENCODE_JPEG, CODEC_ID_ENCODE_PNG,
};

fn profile(select: i64) -> NativeCodecProfile {
    NativeCodecProfile {
        select_result: select,
        initialize_ok: true,
        info_result: None,
        exif_flag: -1,
        read_frame_result: None,
        set_hints_ok: true,
        encoder_initialize_ok: true,
        codec_def_present: true,
        write_fn_present: true,
        write_ok: true,
    }
}

fn gif_bytes(w: u16, h: u16) -> Vec<u8> {
    let mut b = b"GIF89a".to_vec();
    b.push((w & 0xff) as u8);
    b.push((w >> 8) as u8);
    b.push((h & 0xff) as u8);
    b.push((h >> 8) as u8);
    b.push(0);
    b
}

#[test]
fn gif89a_signature_selects_managed_decoder() {
    let mut c = Context::new();
    c.add_io(5, IoDirection::In, gif_bytes(3, 2), profile(99)).unwrap();
    let ci = c.get_codec(5).unwrap();
    match &c.codecs[ci].codec {
        CodecKind::Decoder(Decoder::Gif(g)) => {
            assert_eq!(g.w, 3);
            assert_eq!(g.h, 2);
            assert_eq!(g.io_id, 5);
        }
        _ => panic!("expected the managed GIF decoder"),
    }
}

#[test]
fn gif87a_signature_selects_managed_decoder() {
    let mut bytes = gif_bytes(3, 2);
    bytes[4] = b'7';
    let mut c = Context::new();
    c.add_io(1, IoDirection::In, bytes, profile(99)).unwrap();
    let ci = c.get_codec(1).unwrap();
    assert!(matches!(
        c.codecs[ci].codec,
        CodecKind::Decoder(Decoder::Gif(_))
    ));
}

#[test]
fn non_gif_stream_delegates_to_native_detection() {
    let png = vec![137u8, 80, 78, 71, 13, 10, 26, 10, 0, 0, 0, 13];
    let mut c = Context::new();
    c.add_io(2, IoDirection::In, png, profile(7)).unwrap();
    let ci = c.get_codec(2).unwrap();
    match &c.codecs[ci].codec {
        CodecKind::Decoder(Decoder::Classic(d)) => {
            assert_eq!(d.codec_id, 7);
            assert!(!d.initialized);
        }
        _ => panic!("expected the native adapter"),
    }
}

#[test]
fn unrecognized_stream_is_a_native_codec_error() {
    let junk = vec![1u8, 2, 3, 4, 5, 6, 7, 8, 9, 10];
    let mut c = Context::new();
    c.add_io(3, IoDirection::In, junk, profile(0)).unwrap();
    let e = c.get_codec(3).unwrap_err();
    assert_eq!(e.kind, ErrorKind::NativeCodecError);
}

#[test]
fn gif_signature_never_consults_native_detection() {
    // Even with native detection reporting "no codec" (zero), a GIF
    // signature takes the managed path.
    let mut c = Context::new();
    c.add_io(1, IoDirection::In, gif_bytes(2, 2), profile(0)).unwrap();
    let ci = c.get_codec(1).unwrap();
    assert!(matches!(
        c.codecs[ci].codec,
        CodecKind::Decoder(Decoder::Gif(_))
    ));
    // A signature-bearing stream too short for its header fails as
    // malformed, not as a native detection failure.
    let mut c2 = Context::new();
    c2.add_io(1, IoDirection::In, b"GIF89a".to_vec(), profile(0)).unwrap();
    let e = c2.get_codec(1).unwrap_err();
    assert_eq!(e.kind, ErrorKind::InvalidArgument);
}

#[test]
fn sniffer_recognizes_signatures_only() {
    assert!(starts_with_gif_signature(&b"GIF89a".to_vec()));
    assert!(starts_with_gif_signature(&b"GIF87a".to_vec()));
    assert!(!starts_with_gif_signature(&b"GIF88a".to_vec()));
    assert!(!starts_with_gif_signature(&b"GIF89".to_vec()));
    assert!(!starts_with_gif_signature(&Vec::new()));
}

#[test]
fn stream_position_restored_after_detection() {
    let mut c = Context::new();
    c.add_io(1, IoDirection::In, gif_bytes(4, 4), profile(9)).unwrap();
    c.add_io(2, IoDirection::In, vec![9u8; 20], profile(9)).unwrap();
    c.get_codec(1).unwrap();
    c.get_codec(2).unwrap();
    assert_eq!(c.io[0].io.pos, 0);
    assert_eq!(c.io[1].io.pos, 0);
}

#[test]
fn short_stream_position_restored_even_on_failure() {
    let mut c = Context::new();
    c.add_io(1, IoDirection::In, b"GIF89a".to_vec(), profile(9)).unwrap();
    let e = c.get_codec(1).unwrap_err();
    assert_eq!(e.kind, ErrorKind::InvalidArgument);
    assert_eq!(c.io[0].io.pos, 0);
}

#[test]
fn container_constructed_at_most_once() {
    let mut c = Context::new();
    c.add_io(8, IoDirection::In, gif_bytes(5, 6), profile(1)).unwrap();
    let first = c.get_codec(8).unwrap();
    let again = c.get_codec(8).unwrap();
    assert_eq!(first, again);
    assert_eq!(c.codecs.len(), 1);
}

#[test]
fn duplicate_io_id_is_rejected() {
    let mut c = Context::new();
    c.add_io(4, IoDirection::In, gif_bytes(1, 1), profile(1)).unwrap();
    let e = c.add_io(4, IoDirection::Out, Vec::new(), profile(1)).unwrap_err();
    assert_eq!(e.kind, ErrorKind::InvalidArgument);
}

#[test]
fn output_stream_starts_as_placeholder() {
    let mut c = Context::new();
    c.add_io(9, IoDirection::Out, Vec::new(), profile(0)).unwrap();
    let ci = c.get_codec(9).unwrap();
    assert!(matches!(c.codecs[ci].codec, CodecKind::EncoderPlaceholder));
}

#[test]
fn first_write_binds_classic_and_later_preset_is_ignored() {
    let mut c = Context::new();
    c.add_io(9, IoDirection::Out, Vec::new(), profile(0)).unwrap();
    let fid = c.add_frame(imageflow_codecs::types::FrameInfo {
        w: 10,
        h: 20,
        fmt: PixelFormat::Bgra32,
    });
    let png = EncoderPreset::Libpng { matte: None, zlib_compression: None, depth: None };
    let er = c.write_frame(9, &png, fid).unwrap();
    assert_eq!(er.w, 10);
    assert_eq!(er.h, 20);
    assert_eq!(er.preferred_mime_type, "image/png");
    assert_eq!(er.preferred_extension, "png");
    assert_eq!(er.io_id, 9);
    assert!(matches!(er.bytes, ResultBytes::Elsewhere));
    let ci = c.get_codec(9).unwrap();
    match &c.codecs[ci].codec {
        CodecKind::Encoder(Encoder::Classic(enc)) => {
            assert_eq!(enc.io_id, 9);
            assert_eq!(enc.codec_id, CODEC_ID_ENCODE_PNG);
        }
        _ => panic!("expected the native adapter to be bound"),
    }
    // A later GIF preset does not rebind: the native adapter stays bound
    // and rejects the GIF preset as not implemented.
    let e = c.write_frame(9, &EncoderPreset::Gif, fid).unwrap_err();
    assert_eq!(e.kind, ErrorKind::NotImplemented);
    assert!(matches!(
        c.codecs[ci].codec,
        CodecKind::Encoder(Encoder::Classic(_))
    ));
}

#[test]
fn first_write_binds_gif_and_later_preset_is_ignored() {
    let mut c = Context::new();
    c.add_io(3, IoDirection::Out, Vec::new(), profile(0)).unwrap();
    let fid = c.add_frame(imageflow_codecs::types::FrameInfo {
        w: 7,
        h: 8,
        fmt: PixelFormat::Bgra32,
    });
    let er = c.write_frame(3, &EncoderPreset::Gif, fid).unwrap();
    assert_eq!(er.preferred_mime_type, "image/gif");
    assert_eq!(er.preferred_extension, "gif");
    let ci = c.get_codec(3).unwrap();
    assert!(matches!(c.codecs[ci].codec, CodecKind::Encoder(Encoder::Gif(_))));
    // The managed GIF encoder stays bound and keeps writing GIF.
    let png = EncoderPreset::Libpng { matte: None, zlib_compression: None, depth: None };
    let er2 = c.write_frame(3, &png, fid).unwrap();
    assert_eq!(er2.preferred_mime_type, "image/gif");
    assert!(matches!(c.codecs[ci].codec, CodecKind::Encoder(Encoder::Gif(_))));
}

#[test]
fn negative_exif_sentinel_is_absent_not_error() {
    let mut c = Context::new();
    let mut p = profile(4);
    p.exif_flag = -1;
    c.add_io(1, IoDirection::In, vec![0u8; 16], p).unwrap();
    assert_eq!(c.get_exif_rotation_flag(1).unwrap(), None);
}

#[test]
fn positive_exif_flag_is_reported() {
    let mut c = Context::new();
    let mut p = profile(4);
    p.exif_flag = 6;
    c.add_io(1, IoDirection::In, vec![0u8; 16], p).unwrap();
    assert_eq!(c.get_exif_rotation_flag(1).unwrap(), Some(6));
}

#[test]
fn jpeg_quality_defaults_to_90() {
    let preset = EncoderPreset::LibjpegTurbo {
        quality: None,
        progressive: None,
        optimize_huffman_coding: None,
    };
    let (id, hints) = ClassicEncoder::get_codec_id_and_hints(&preset).unwrap();
    assert_eq!(id, CODEC_ID_ENCODE_JPEG);
    assert_eq!(hints.jpeg_encode_quality, 90);
    assert!(!hints.jpeg_progressive);
    assert!(!hints.jpeg_optimize_huffman_coding);
    assert!(!hints.disable_png_alpha);
}

#[test]
fn jpeg_quality_request_is_respected() {
    let preset = EncoderPreset::LibjpegTurbo {
        quality: Some(55),
        progressive: Some(true),
        optimize_huffman_coding: Some(true),
    };
    let (_, hints) = ClassicEncoder::get_codec_id_and_hints(&preset).unwrap();
    assert_eq!(hints.jpeg_encode_quality, 55);
    assert!(hints.jpeg_progressive);
    assert!(hints.jpeg_optimize_huffman_coding);
}

#[test]
fn gif_preset_through_native_adapter_is_not_implemented() {
    let e = ClassicEncoder::get_codec_id_and_hints(&EncoderPreset::Gif).unwrap_err();
    assert_eq!(e.kind, ErrorKind::NotImplemented);
}

#[test]
fn png_depth_controls_alpha() {
    let p24 = EncoderPreset::Libpng {
        matte: None,
        zlib_compression: None,
        depth: Some(PngBitDepth::Png24),
    };
    let (id, hints) = ClassicEncoder::get_codec_id_and_hints(&p24).unwrap();
    assert_eq!(id, CODEC_ID_ENCODE_PNG);
    assert!(hints.disable_png_alpha);
    assert_eq!(hints.jpeg_encode_quality, -1);
    let p32 = EncoderPreset::Libpng {
        matte: None,
        zlib_compression: None,
        depth: Some(PngBitDepth::Png32),
    };
    let (_, hints32) = ClassicEncoder::get_codec_id_and_hints(&p32).unwrap();
    assert!(!hints32.disable_png_alpha);
}

#[test]
fn downscale_hints_translation_is_exact() {
    let h = JpegDownscaleHints {
        width: 100,
        height: 50,
        scale_luma_spatially: None,
        gamma_correct_for_srgb_during_spatial_luma_scaling: None,
    };
    let native = translate_downscale_hints(&h);
    assert_eq!(native.downscale_if_wider_than, 100);
    assert_eq!(native.downscaled_min_width, 100);
    assert_eq!(native.or_if_taller_than, 50);
    assert_eq!(native.downscaled_min_height, 50);
    assert!(!native.scale_luma_spatially);
    assert!(!native.gamma_correct_for_srgb_during_spatial_luma_scaling);
}

#[test]
fn roundtrip_png_preserves_dimensions() {
    let mut c = Context::new();
    c.add_io(1, IoDirection::In, gif_bytes(13, 7), profile(1)).unwrap();
    c.add_io(2, IoDirection::Out, Vec::new(), profile(0)).unwrap();
    let fid = c.read_frame(1).unwrap();
    assert_eq!(c.frames[fid].w, 13);
    assert_eq!(c.frames[fid].h, 7);
    let png = EncoderPreset::Libpng { matte: None, zlib_compression: None, depth: None };
    let er = c.write_frame(2, &png, fid).unwrap();
    assert_eq!(er.w, 13);
    assert_eq!(er.h, 7);
    assert_eq!(er.preferred_mime_type, "image/png");
    assert_eq!(er.io_id, 2);
}

#[test]
fn largest_gif_dimensions_are_read() {
    let mut c = Context::new();
    c.add_io(1, IoDirection::In, gif_bytes(65535, 65535), profile(1)).unwrap();
    let info = c.get_image_info(1).unwrap();
    assert_eq!(info.image_width, 65535);
    assert_eq!(info.image_height, 65535);
    assert_eq!(info.preferred_extension, "gif");
    assert_eq!(info.preferred_mime_type, "image/gif");
    assert_eq!(info.frame_decodes_into, PixelFormat::Bgra32);
}

#[test]
fn classic_image_info_is_copied_out() {
    let mut p = profile(4);
    p.info_result = Some(ImageInfo {
        frame_decodes_into: PixelFormat::Bgr24,
        image_width: 640,
        image_height: 480,
        preferred_extension: "jpg".to_string(),
        preferred_mime_type: "image/jpeg".to_string(),
    });
    let mut c = Context::new();
    c.add_io(1, IoDirection::In, vec![0u8; 16], p).unwrap();
    let info = c.get_image_info(1).unwrap();
    assert_eq!(info.image_width, 640);
    assert_eq!(info.image_height, 480);
    assert_eq!(info.preferred_extension, "jpg");
    assert_eq!(info.preferred_mime_type, "image/jpeg");
}

#[test]
fn classic_info_failure_is_native_codec_error() {
    let mut c = Context::new();
    c.add_io(1, IoDirection::In, vec![0u8; 16], profile(4)).unwrap();
    let e = c.get_image_info(1).unwrap_err();
    assert_eq!(e.kind, ErrorKind::NativeCodecError);
}

#[test]
fn decoder_initialize_failure_is_native_codec_error() {
    let mut p = profile(4);
    p.initialize_ok = false;
    let mut c = Context::new();
    c.add_io(1, IoDirection::In, vec![0u8; 16], p).unwrap();
    let e = c.get_image_info(1).unwrap_err();
    assert_eq!(e.kind, ErrorKind::NativeCodecError);
}

#[test]
fn null_native_frame_is_an_error() {
    let mut c = Context::new();
    c.add_io(1, IoDirection::In, vec![0u8; 16], profile(4)).unwrap();
    let e = c.read_frame(1).unwrap_err();
    assert_eq!(e.kind, ErrorKind::NativeCodecError);
}

#[test]
fn native_frame_lands_in_the_arena() {
    let mut p = profile(4);
    p.read_frame_result = Some(imageflow_codecs::types::FrameInfo {
        w: 320,
        h: 200,
        fmt: PixelFormat::Bgra32,
    });
    let mut c = Context::new();
    c.add_io(1, IoDirection::In, vec![0u8; 16], p).unwrap();
    let fid = c.read_frame(1).unwrap();
    assert_eq!(c.frames[fid].w, 320);
    assert_eq!(c.frames[fid].h, 200);
}

#[test]
fn missing_write_entry_point_is_not_implemented() {
    let mut p = profile(0);
    p.write_fn_present = false;
    let mut c = Context::new();
    c.add_io(1, IoDirection::Out, Vec::new(), p).unwrap();
    let fid = c.add_frame(imageflow_codecs::types::FrameInfo {
        w: 1,
        h: 1,
        fmt: PixelFormat::Bgra32,
    });
    let png = EncoderPreset::Libpng { matte: None, zlib_compression: None, depth: None };
    let e = c.write_frame(1, &png, fid).unwrap_err();
    assert_eq!(e.kind, ErrorKind::NotImplemented);
}

#[test]
fn native_write_failure_is_native_codec_error() {
    let mut p = profile(0);
    p.write_ok = false;
    let mut c = Context::new();
    c.add_io(1, IoDirection::Out, Vec::new(), p).unwrap();
    let fid = c.add_frame(imageflow_codecs::types::FrameInfo {
        w: 1,
        h: 1,
        fmt: PixelFormat::Bgra32,
    });
    let png = EncoderPreset::Libpng { matte: None, zlib_compression: None, depth: None };
    let e = c.write_frame(1, &png, fid).unwrap_err();
    assert_eq!(e.kind, ErrorKind::NativeCodecError);
}

#[test]
fn tell_decoder_gif_is_not_implemented() {
    let mut c = Context::new();
    c.add_io(1, IoDirection::In, gif_bytes(2, 2), profile(1)).unwrap();
    let cmd = imageflow_codecs::types::DecoderCommand::JpegDownscaleHints(JpegDownscaleHints {
        width: 10,
        height: 10,
        scale_luma_spatially: None,
        gamma_correct_for_srgb_during_spatial_luma_scaling: None,
    });
    let e = c.tell_decoder(1, &cmd).unwrap_err();
    assert_eq!(e.kind, ErrorKind::NotImplemented);
}

#[test]
fn tell_decoder_classic_follows_native_outcome() {
    let cmd = imageflow_codecs::types::DecoderCommand::JpegDownscaleHints(JpegDownscaleHints {
        width: 10,
        height: 10,
        scale_luma_spatially: Some(true),
        gamma_correct_for_srgb_during_spatial_luma_scaling: None,
    });
    let mut c = Context::new();
    c.add_io(1, IoDirection::In, vec![0u8; 16], profile(4)).unwrap();
    assert!(c.tell_decoder(1, &cmd).is_ok());
    let mut p = profile(4);
    p.set_hints_ok = false;
    let mut c2 = Context::new();
    c2.add_io(1, IoDirection::In, vec![0u8; 16], p).unwrap();
    let e = c2.tell_decoder(1, &cmd).unwrap_err();
    assert_eq!(e.kind, ErrorKind::NativeCodecError);
}

#[test]
fn unregistered_stream_is_invalid_argument() {
    let mut c = Context::new();
    let e = c.get_codec(42).unwrap_err();
    assert_eq!(e.kind, ErrorKind::InvalidArgument);
}

#[test]
fn writing_through_a_decoder_container_is_not_implemented() {
    let mut c = Context::new();
    c.add_io(1, IoDirection::In, gif_bytes(2, 2), profile(1)).unwrap();
    c.get_codec(1).unwrap();
    let fid = c.add_frame(imageflow_codecs::types::FrameInfo {
        w: 1,
        h: 1,
        fmt: PixelFormat::Bgra32,
    });
    let png = EncoderPreset::Libpng { matte: None, zlib_compression: None, depth: None };
    let e = c.write_frame(1, &png, fid).unwrap_err();
    assert_eq!(e.kind, ErrorKind::NotImplemented);
}

#[test]
fn reading_through_an_output_container_is_invalid() {
    let mut c = Context::new();
    c.add_io(1, IoDirection::Out, Vec::new(), profile(0)).unwrap();
    let e = c.read_frame(1).unwrap_err();
    assert_eq!(e.kind, ErrorKind::InvalidArgument);
}
