//! In-memory raster images tagged with an explicit pixel format, and a
//! conversion engine that re-encodes pixel data between formats.
//!
//! A format is the triple (channel count, channel size, channel
//! representation). The engine converts between any two integer-sampled
//! formats, combining representation conversion, bit-width conversion and
//! channel-layout conversion; every step of the transcoding loop is verified
//! against a byte-level specification.

pub mod color_format;
pub mod container;
pub mod conversion;
pub mod image;
pub mod transcode;
