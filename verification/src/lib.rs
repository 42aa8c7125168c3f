//! Codec dispatch and codec-bearing graph nodes for an image-processing
//! pipeline.
//!
//! The library models the two subsystems at the heart of the engine: the
//! codec layer (format sniffing, decoder/encoder selection, lazy encoder
//! binding per output stream) and the lifecycle of the graph nodes that
//! carry codecs (decode, encode, and the bitmap-pointer passthrough node).
//!
//! The native per-format codec libraries are external collaborators behind
//! a fixed ABI boundary. Their responses are plain values supplied by the
//! embedder through [`codecs::NativeCodecProfile`]; every decision taken on
//! those responses is verified here.

pub mod errors;
pub mod types;
pub mod io;
pub mod codecs;
pub mod context;
pub mod nodes;
