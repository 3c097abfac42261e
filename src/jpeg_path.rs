use vstd::prelude::*;

use crate::codecs::{
    decode, decodes, jpeg_encoded, jpeg_finish, jpeg_write_row, rgb8_grid, rgb8_of, JpegEncoder,
};
use crate::error::{outcome_is, CompressError, ErrorKind};
use crate::format::{
    format_of, has_prefix, has_suffix, jpeg_eoi, jpeg_soi, lemma_leading_bytes_detected, ImageType,
};

verus! {

/// The largest image side baseline JPEG admits.
pub const JPEG_MAX_SIDE: usize = 65500;

/// Row `y` of a row-major RGB raster `width` pixels wide: `width * 3`
/// contiguous bytes.
pub fn scanline(rgb: &[u8], width: usize, y: usize) -> (row: &[u8])
    requires
        (y + 1) * width * 3 <= rgb@.len(),
    ensures
        row@ == rgb@.subrange(y * width * 3, (y + 1) * width * 3),
{
    let len = rgb.len();
    assert(width * 3 <= (y + 1) * width * 3 && y * width * 3 + width * 3 == (y + 1) * width * 3
        && 0 <= y * width * 3) by (nonlinear_arith);
    assert((y + 1) * width * 3 <= len);
    let stride = width * 3;
    assert(y * stride == y * width * 3) by (nonlinear_arith)
        requires
            stride == width * 3,
    ;
    let start = y * stride;
    vstd::slice::slice_subrange(rgb, start, start + stride)
}

/// What the JPEG path may return: a stream that sniffs as JPEG, or a
/// decode or encode failure.
pub open spec fn jpeg_outcome(r: Result<Vec<u8>, CompressError>) -> bool {
    match r {
        Ok(out) => format_of(out@) == Some(ImageType::JPEG) && out@.len() >= 2,
        Err(e) => e is DecodeFailed || e is EncodeFailed,
    }
}

/// Whether baseline JPEG can hold an image with these sides.
pub open spec fn jpeg_sides_ok(width: u32, height: u32) -> bool {
    0 < width <= JPEG_MAX_SIDE && 0 < height <= JPEG_MAX_SIDE
}

/// The result of the JPEG path on `data` at `quality`: decode to RGB, refuse
/// sides baseline JPEG cannot hold, then encode every row of the raster.
pub open spec fn jpeg_result(data: Seq<u8>, quality: u8) -> Result<Seq<u8>, ErrorKind> {
    if !decodes(data) {
        Err(ErrorKind::DecodeFailed)
    } else {
        let (w, h, px) = rgb8_of(data);
        if !jpeg_sides_ok(w, h) {
            Err(ErrorKind::EncodeFailed)
        } else {
            Ok(jpeg_encoded(w as nat, h as nat, quality, px.subrange(0, w * h * 3)))
        }
    }
}

/// The full contract of the JPEG path: the staged result, and on success a
/// stream framed by the start- and end-of-image markers.
pub open spec fn jpeg_contract(data: Seq<u8>, quality: u8, r: Result<Vec<u8>, CompressError>) -> bool {
    &&& outcome_is(r, jpeg_result(data, quality))
    &&& jpeg_outcome(r)
    &&& r matches Ok(out) ==> has_prefix(out@, jpeg_soi()) && has_suffix(out@, jpeg_eoi())
}

/// Decodes to RGB and re-encodes as baseline JPEG at `quality`, one
/// scanline at a time; the stream is finalized only after every row was
/// accepted.
pub fn do_jpeg_compression(data: &[u8], quality: u8) -> (r: Result<Vec<u8>, CompressError>)
    requires
        quality <= 100,
    ensures
        jpeg_contract(data@, quality, r),
{
    let decoded = match decode(data) {
        Ok(d) => d,
        Err(e) => return Err(CompressError::DecodeFailed(e.to_string())),
    };
    let grid = rgb8_grid(&decoded);
    let width = grid.width as usize;
    let height = grid.height as usize;
    if width == 0 || height == 0 || width > JPEG_MAX_SIDE || height > JPEG_MAX_SIDE {
        return Err(
            CompressError::EncodeFailed("image sides must lie between 1 and 65500".to_owned()),
        );
    }
    let mut enc = match JpegEncoder::start(width, height, quality) {
        Ok(enc) => enc,
        Err(e) => return Err(CompressError::EncodeFailed(e.to_string())),
    };
    let ghost total = width * height * 3;
    let mut y: usize = 0;
    while y < height
        invariant
            0 < width <= JPEG_MAX_SIDE,
            y <= height,
            total == width * height * 3,
            grid.data@.len() >= total,
            enc.width() == width,
            enc.height() == height,
            enc.quality() == quality,
            enc.fed() == grid.data@.subrange(0, y * width * 3),
        decreases height - y,
    {
        assert((y + 1) * width * 3 <= width * height * 3 && (y + 1) * width * 3 == y * width * 3
            + width * 3 && 0 <= y * width * 3) by (nonlinear_arith)
            requires
                y < height,
        ;
        let row = scanline(grid.data.as_slice(), width, y);
        assert(enc.fed() + row@ =~= grid.data@.subrange(0, (y + 1) * width * 3));
        if let Err(e) = jpeg_write_row(&mut enc, row) {
            return Err(CompressError::EncodeFailed(e.to_string()));
        }
        y += 1;
    }
    assert(y * width * 3 == total) by (nonlinear_arith)
        requires
            y == height,
            total == width * height * 3,
    ;
    match jpeg_finish(enc) {
        Ok(out) => {
            proof {
                lemma_leading_bytes_detected(out@);
            }
            Ok(out)
        },
        Err(e) => Err(CompressError::EncodeFailed(e.to_string())),
    }
}

} // verus!
