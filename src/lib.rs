//! Buffer-to-buffer image recompression: sniff the container, then run the
//! PNG (quantize, dither, indexed re-encode) or JPEG (lossy re-encode) path.
mod codecs;
pub mod error;
pub mod format;
pub mod jpeg_path;
pub mod opts;
pub mod png_path;

pub use error::CompressError;
pub use format::ImageType;
pub use jpeg_path::do_jpeg_compression;
pub use opts::{compress_input, compress_request, validate_quality, Compression};
pub use png_path::{do_png_compression, do_png_compression_optimized, png_effort, DeflateEffort};
