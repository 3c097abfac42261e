use vstd::prelude::*;

use crate::error::{kind_of, CompressError};
use crate::format::{format_of, ImageType};
use crate::jpeg_path::{do_jpeg_compression, jpeg_contract};
use crate::png_path::{do_png_compression, png_contract};

verus! {

/// What a compression call may return for `input`: the path of the sniffed
/// format decides, and an unrecognised buffer is refused before any decode.
pub open spec fn compress_outcome(
    input: Seq<u8>,
    quality: u8,
    r: Result<Vec<u8>, CompressError>,
) -> bool {
    match format_of(input) {
        Some(ImageType::PNG) => png_contract(input, quality, r),
        Some(ImageType::JPEG) => jpeg_contract(input, quality, r),
        None => r == Err::<Vec<u8>, CompressError>(CompressError::UnsupportedFormat),
    }
}

/// Recompression of a whole image buffer at a quality in `0..=100`.
pub trait Compression {
    fn compress(data: &[u8], quality: u8) -> (r: Result<Vec<u8>, CompressError>)
        requires
            quality <= 100,
        ensures
            compress_outcome(data@, quality, r),
    ;
}

impl Compression for ImageType {
    /// Routes the buffer to the PNG or JPEG path by its leading bytes.
    fn compress(data: &[u8], quality: u8) -> (r: Result<Vec<u8>, CompressError>) {
        match Self::detect_type(data) {
            Some(ImageType::PNG) => do_png_compression(data, quality),
            Some(ImageType::JPEG) => do_jpeg_compression(data, quality),
            None => Err(CompressError::UnsupportedFormat),
        }
    }
}

/// A quality as the caller gives it, if it lies in `0..=100`.
pub fn validate_quality(quality: i32) -> (r: Result<u8, CompressError>)
    ensures
        0 <= quality <= 100 ==> r == Ok::<u8, CompressError>(quality as u8),
        !(0 <= quality <= 100) ==> r == Err::<u8, CompressError>(
            CompressError::InvalidQuality(quality),
        ),
{
    if 0 <= quality && quality <= 100 {
        Ok(quality as u8)
    } else {
        Err(CompressError::InvalidQuality(quality))
    }
}

/// Compresses a buffer whose quality was already validated: an empty buffer
/// is refused before any sniffing or decoding.
pub fn compress_input(data: &[u8], quality: u8) -> (r: Result<Vec<u8>, CompressError>)
    requires
        quality <= 100,
    ensures
        data@.len() == 0 ==> r == Err::<Vec<u8>, CompressError>(CompressError::EmptyInput),
        data@.len() > 0 ==> compress_outcome(data@, quality, r),
{
    if data.len() == 0 {
        return Err(CompressError::EmptyInput);
    }
    ImageType::compress(data, quality)
}

/// The checked entry point: validates the quality, then refuses an empty
/// buffer, and only then sniffs and runs a compression path.
pub fn compress_request(data: &[u8], quality: i32) -> (r: Result<Vec<u8>, CompressError>)
    ensures
        !(0 <= quality <= 100) ==> r == Err::<Vec<u8>, CompressError>(
            CompressError::InvalidQuality(quality),
        ),
        0 <= quality <= 100 && data@.len() == 0 ==> r == Err::<Vec<u8>, CompressError>(
            CompressError::EmptyInput,
        ),
        0 <= quality <= 100 && data@.len() > 0 ==> compress_outcome(data@, quality as u8, r),
{
    let q = validate_quality(quality)?;
    compress_input(data, q)
}

/// Every successful compression returns a non-empty stream that sniffs as
/// the same format as its input.
pub proof fn lemma_format_preserved(input: Seq<u8>, quality: u8, r: Result<Vec<u8>, CompressError>)
    requires
        compress_outcome(input, quality, r),
        r is Ok,
    ensures
        format_of(r->Ok_0@) == format_of(input),
        format_of(input) is Some,
        r->Ok_0@.len() > 0,
{
}

/// A buffer whose leading bytes announce neither format is refused as
/// unsupported, whatever the quality.
pub proof fn lemma_unknown_refused(input: Seq<u8>, quality: u8, r: Result<Vec<u8>, CompressError>)
    requires
        compress_outcome(input, quality, r),
        format_of(input) is None,
    ensures
        r == Err::<Vec<u8>, CompressError>(CompressError::UnsupportedFormat),
{
}

/// Compression is a function of the bytes and the quality alone: two calls
/// on the same input return the same stream, or errors of the same category.
pub proof fn lemma_outcome_determined(
    input: Seq<u8>,
    quality: u8,
    r1: Result<Vec<u8>, CompressError>,
    r2: Result<Vec<u8>, CompressError>,
)
    requires
        compress_outcome(input, quality, r1),
        compress_outcome(input, quality, r2),
    ensures
        r1 is Ok <==> r2 is Ok,
        r1 is Ok ==> r1->Ok_0@ == r2->Ok_0@,
        r1 is Err ==> kind_of(r1->Err_0) == kind_of(r2->Err_0),
{
}

} // verus!
