use vstd::prelude::*;

use crate::codecs::{
    decode, decodes, encode_indexed_png, png_indexed_of, quant_image_accepts, quantizes, remap,
    remapped_of, rgba8_grid, rgba8_of, QuantImage, Quantized, Quantizer,
};
use crate::error::{outcome_is, CompressError, ErrorKind};
use crate::format::{format_of, indexed_png_framing, lemma_leading_bytes_detected, ImageType};

verus! {

/// How hard the PNG encoder's deflate stage works.
#[derive(Debug, Clone, Copy, PartialEq, Eq, Structural)]
pub enum DeflateEffort {
    /// Maximum effort.
    Best,
    /// Low effort.
    Fast,
    /// The encoder's default trade-off.
    Balanced,
}

/// Deflate effort for a requested quality: lower quality asks for more
/// effort, and the top band falls back to low effort.
pub open spec fn effort_for(quality: u8) -> DeflateEffort {
    if quality <= 25 {
        DeflateEffort::Best
    } else if quality <= 50 {
        DeflateEffort::Fast
    } else if quality <= 75 {
        DeflateEffort::Balanced
    } else {
        DeflateEffort::Fast
    }
}

/// Chooses the deflate effort for the indexed PNG re-encode.
pub fn png_effort(quality: u8) -> (r: DeflateEffort)
    ensures
        r == effort_for(quality),
{
    if quality <= 25 {
        DeflateEffort::Best
    } else if quality <= 50 {
        DeflateEffort::Fast
    } else if quality <= 75 {
        DeflateEffort::Balanced
    } else {
        DeflateEffort::Fast
    }
}

/// Channel `c` (0 red, 1 green, 2 blue) of a palette colour.
pub open spec fn channel(color: (u8, u8, u8, u8), c: int) -> u8 {
    if c == 0 {
        color.0
    } else if c == 1 {
        color.1
    } else {
        color.2
    }
}

/// The palette as consecutive RGB triples, alpha dropped.
pub open spec fn rgb_triples(palette: Seq<(u8, u8, u8, u8)>) -> Seq<u8> {
    Seq::new(3 * palette.len(), |k: int| channel(palette[k / 3], k % 3))
}

/// A palette and index map that fit together: between 1 and 256 colours, one
/// index per pixel, and every index names a colour of the palette.
pub open spec fn indexed_consistent(
    palette: Seq<(u8, u8, u8, u8)>,
    indices: Seq<u8>,
    pixel_count: int,
) -> bool {
    &&& 1 <= palette.len() <= 256
    &&& indices.len() == pixel_count
    &&& forall|i: int| 0 <= i < indices.len() ==> (indices[i] as int) < palette.len()
}

/// Checks the remapped palette against its index map and flattens it into
/// the RGB triple sequence that the indexed PNG encoder takes.
pub fn indexed_palette(
    palette: &[(u8, u8, u8, u8)],
    indices: &[u8],
    pixel_count: u64,
) -> (r: Result<Vec<u8>, CompressError>)
    ensures
        r is Ok <==> indexed_consistent(palette@, indices@, pixel_count as int),
        r matches Ok(flat) ==> flat@ == rgb_triples(palette@),
        r matches Err(e) ==> e is RemapFailed,
{
    if palette.len() == 0 || palette.len() > 256 || indices.len() as u64 != pixel_count {
        return Err(CompressError::RemapFailed("palette and index map disagree in size".to_owned()));
    }
    let mut i: usize = 0;
    while i < indices.len()
        invariant
            i <= indices@.len(),
            forall|k: int| 0 <= k < i ==> (indices@[k] as int) < palette@.len(),
        decreases indices@.len() - i,
    {
        if indices[i] as usize >= palette.len() {
            return Err(CompressError::RemapFailed("pixel index outside the palette".to_owned()));
        }
        i += 1;
    }
    let mut flat: Vec<u8> = Vec::new();
    let mut j: usize = 0;
    while j < palette.len()
        invariant
            j <= palette@.len() <= 256,
            flat@.len() == 3 * j,
            forall|k: int| 0 <= k < 3 * j ==> flat@[k] == channel(palette@[k / 3], k % 3),
        decreases palette@.len() - j,
    {
        let (red, green, blue, _alpha) = palette[j];
        flat.push(red);
        flat.push(green);
        flat.push(blue);
        j += 1;
    }
    assert(flat@ =~= rgb_triples(palette@));
    Ok(flat)
}

/// What the PNG path may return: a stream that sniffs as PNG, or a failure
/// of one of its stages.
pub open spec fn png_outcome(r: Result<Vec<u8>, CompressError>) -> bool {
    match r {
        Ok(out) => format_of(out@) == Some(ImageType::PNG) && out@.len() >= 8,
        Err(e) => e is DecodeFailed || e is QuantizeFailed || e is RemapFailed || e is EncodeFailed,
    }
}

/// The result of the PNG path on `data` at `quality`, stage by stage: decode
/// to RGBA, build the quantizer image, quantize, remap with full dithering,
/// check the palette against the index map, then encode with the deflate
/// effort that `quality` selects. The first stage that fails names the error.
pub open spec fn png_result(data: Seq<u8>, quality: u8) -> Result<Seq<u8>, ErrorKind> {
    if !decodes(data) {
        Err(ErrorKind::DecodeFailed)
    } else {
        let (w, h, px) = rgba8_of(data);
        if !quant_image_accepts(px, w as usize, h as usize) {
            Err(ErrorKind::QuantizeFailed)
        } else if !quantizes(quality, px, w as usize, h as usize) {
            Err(ErrorKind::QuantizeFailed)
        } else {
            match remapped_of(quality, px, w as usize, h as usize) {
                None => Err(ErrorKind::RemapFailed),
                Some((palette, indices)) => if !indexed_consistent(
                    palette,
                    indices,
                    w as int * h as int,
                ) {
                    Err(ErrorKind::RemapFailed)
                } else {
                    match png_indexed_of(w, h, rgb_triples(palette), indices, effort_for(quality)) {
                        None => Err(ErrorKind::EncodeFailed),
                        Some(out) => Ok(out),
                    }
                },
            }
        }
    }
}

/// The full contract of the PNG path: the staged result, and on success a
/// complete indexed PNG with the decoded image's sides.
pub open spec fn png_contract(data: Seq<u8>, quality: u8, r: Result<Vec<u8>, CompressError>) -> bool {
    &&& outcome_is(r, png_result(data, quality))
    &&& png_outcome(r)
    &&& r matches Ok(out) ==> indexed_png_framing(out@, rgba8_of(data).0, rgba8_of(data).1)
}

/// Decodes to RGBA, quantizes at `quality`, remaps with full dithering and
/// re-encodes as an 8-bit indexed PNG with the deflate effort `quality` selects.
pub fn do_png_compression(data: &[u8], quality: u8) -> (r: Result<Vec<u8>, CompressError>)
    requires
        quality <= 100,
    ensures
        png_contract(data@, quality, r),
{
    let decoded = match decode(data) {
        Ok(d) => d,
        Err(e) => return Err(CompressError::DecodeFailed(e.to_string())),
    };
    let grid = rgba8_grid(&decoded);
    let width = grid.width as usize;
    let height = grid.height as usize;

    let quantizer = Quantizer::new(quality);
    let mut qimg = match QuantImage::new(&quantizer, grid.data.as_slice(), width, height) {
        Ok(q) => q,
        Err(e) => return Err(CompressError::QuantizeFailed(e.to_string())),
    };
    let mut quantized = match Quantized::quantize(&quantizer, &mut qimg) {
        Ok(res) => res,
        Err(e) => return Err(CompressError::QuantizeFailed(e.to_string())),
    };
    if let Err(e) = quantized.dither_fully() {
        return Err(CompressError::RemapFailed(e.to_string()));
    }
    let (palette, indices) = match remap(&mut quantized, &mut qimg) {
        Ok(pair) => pair,
        Err(e) => return Err(CompressError::RemapFailed(e.to_string())),
    };
    assert(grid.width as int * grid.height as int <= 0xffff_ffffu64 as int * 0xffff_ffffu64 as int)
        by (nonlinear_arith)
        requires
            grid.width <= 0xffff_ffffu32,
            grid.height <= 0xffff_ffffu32,
    ;
    let pixel_count = grid.width as u64 * grid.height as u64;
    let flat = match indexed_palette(palette.as_slice(), indices.as_slice(), pixel_count) {
        Ok(flat) => flat,
        Err(e) => return Err(e),
    };

    match encode_indexed_png(grid.width, grid.height, flat, indices.as_slice(), png_effort(quality)) {
        Ok(out) => {
            proof {
                lemma_leading_bytes_detected(out@);
            }
            Ok(out)
        },
        Err(e) => Err(CompressError::EncodeFailed(e.to_string())),
    }
}

/// The PNG path under its second name; it has the same contract as
/// `do_png_compression`, so the two agree on every input.
pub fn do_png_compression_optimized(data: &[u8], quality: u8) -> (r: Result<
    Vec<u8>,
    CompressError,
>)
    requires
        quality <= 100,
    ensures
        png_contract(data@, quality, r),
{
    do_png_compression(data, quality)
}

} // verus!
