//! Plain data carried between nodes, codecs and the embedder: presets,
//! decoder commands, image metadata, frame estimates and encode results.

use vstd::prelude::*;

verus! {

/// Pixel layout of a decoded frame.
#[derive(Clone, Copy, Debug, PartialEq, Eq, Structural)]
pub enum PixelFormat {
    Bgra32,
    Bgr24,
    Gray8,
}

/// Requested bit depth for PNG output; `Png24` drops the alpha channel.
#[derive(Clone, Copy, Debug, PartialEq, Eq, Structural)]
pub enum PngBitDepth {
    Png24,
    Png32,
}

/// The encoding preset a caller requests for an output stream. Each non-GIF
/// variant maps deterministically to a native codec identifier plus a hints
/// record; GIF is served by the managed in-process encoder.
#[derive(Clone, Copy, Debug)]
pub enum EncoderPreset {
    LibjpegTurbo {
        quality: Option<i32>,
        progressive: Option<bool>,
        optimize_huffman_coding: Option<bool>,
    },
    Libpng {
        /// Background to composite against, as packed RGBA.
        matte: Option<u32>,
        zlib_compression: Option<i32>,
        depth: Option<PngBitDepth>,
    },
    Gif,
}

/// Out-of-band instruction telling a JPEG decoder to produce a smaller frame
/// directly, skipping a separate resize step.
#[derive(Clone, Copy, Debug)]
pub struct JpegDownscaleHints {
    pub width: i64,
    pub height: i64,
    pub scale_luma_spatially: Option<bool>,
    pub gamma_correct_for_srgb_during_spatial_luma_scaling: Option<bool>,
}

/// A command forwarded into a decoder before read time. Currently a single
/// variant.
#[derive(Clone, Copy, Debug)]
pub enum DecoderCommand {
    JpegDownscaleHints(JpegDownscaleHints),
}

/// The downscale hints record in the shape the native decoder takes.
#[derive(Clone, Copy, Debug, PartialEq, Eq, Structural)]
pub struct DecoderDownscaleHints {
    pub downscale_if_wider_than: i64,
    pub downscaled_min_width: i64,
    pub or_if_taller_than: i64,
    pub downscaled_min_height: i64,
    pub scale_luma_spatially: bool,
    pub gamma_correct_for_srgb_during_spatial_luma_scaling: bool,
}

/// The hints record handed to a native encoder.
#[derive(Clone, Copy, Debug, PartialEq, Eq, Structural)]
pub struct EncoderHints {
    pub jpeg_encode_quality: i32,
    pub disable_png_alpha: bool,
    pub jpeg_allow_low_quality_non_baseline: bool,
    pub jpeg_optimize_huffman_coding: bool,
    pub jpeg_progressive: bool,
    pub jpeg_use_arithmetic_coding: bool,
}

/// Native codec identifier for the JPEG encoder entry point.
pub const CODEC_ID_ENCODE_JPEG: i64 = 4;

/// Native codec identifier for the PNG encoder entry point.
pub const CODEC_ID_ENCODE_PNG: i64 = 2;

/// Decode-time metadata, obtainable without materializing pixels.
#[derive(Debug)]
pub struct ImageInfo {
    pub frame_decodes_into: PixelFormat,
    pub image_width: u32,
    pub image_height: u32,
    pub preferred_extension: String,
    pub preferred_mime_type: String,
}

impl ImageInfo {
    /// A deep copy; the strings are owned values, never shared.
    pub fn duplicate(&self) -> (r: ImageInfo)
        ensures
            r == *self,
    {
        ImageInfo {
            frame_decodes_into: self.frame_decodes_into,
            image_width: self.image_width,
            image_height: self.image_height,
            preferred_extension: self.preferred_extension.clone(),
            preferred_mime_type: self.preferred_mime_type.clone(),
        }
    }
}

/// Dimensions and pixel format of one frame.
#[derive(Clone, Copy, Debug, PartialEq, Eq, Structural)]
pub struct FrameInfo {
    pub w: u32,
    pub h: u32,
    pub fmt: PixelFormat,
}

/// A lazily-computed, possibly-absent description of a node's output frame.
#[derive(Clone, Copy, Debug, PartialEq, Eq, Structural)]
pub enum FrameEstimate {
    Unknown,
    Known(FrameInfo),
}

/// Where the encoded bytes went: always directly into the destination
/// stream, never returned inline.
#[derive(Clone, Copy, Debug, PartialEq, Eq, Structural)]
pub enum ResultBytes {
    Elsewhere,
}

/// What an encoder reports after writing a frame.
#[derive(Debug)]
pub struct EncodeResult {
    pub w: u32,
    pub h: u32,
    pub preferred_mime_type: String,
    pub preferred_extension: String,
    pub io_id: i32,
    pub bytes: ResultBytes,
}

/// Per-node parameters. The bitmap-pointer node's externally supplied
/// pointer-to-pointer is modeled as an optional slot index into the
/// context's slot table; `slot: None` stands for a null outer pointer.
pub enum NodeParams {
    Decode { io_id: i32, commands: Option<Vec<DecoderCommand>> },
    Encode { io_id: i32, preset: EncoderPreset },
    BitmapBgraPointer { slot: Option<usize> },
    ApplyOrientation { flag: i32 },
}

} // verus!
