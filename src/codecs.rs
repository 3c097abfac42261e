//! The outside decoders, quantizer and encoders, each behind a trusted item
//! that states only what its crate's source shows.
use vstd::prelude::*;

use crate::format::{has_prefix, has_suffix, indexed_png_framing, jpeg_eoi, jpeg_soi};
use crate::png_path::DeflateEffort;

verus! {

#[verifier::external_type_specification]
#[verifier::external_body]
pub struct ExDynamicImage(image::DynamicImage);

#[verifier::external_type_specification]
#[verifier::external_body]
pub struct ExImageError(image::ImageError);

#[verifier::external_type_specification]
#[verifier::external_body]
pub struct ExQuantAttributes(imagequant::Attributes);

#[verifier::external_type_specification]
#[verifier::external_body]
pub struct ExQuantImage<'a>(imagequant::Image<'a>);

#[verifier::external_type_specification]
#[verifier::external_body]
pub struct ExQuantResult(imagequant::QuantizationResult);

#[verifier::external_type_specification]
#[verifier::external_body]
pub struct ExQuantError(imagequant::Error);

#[verifier::external_type_specification]
#[verifier::external_body]
pub struct ExPngError(png::EncodingError);

#[verifier::external_type_specification]
#[verifier::external_body]
#[verifier::reject_recursive_types(W)]
pub struct ExCompressStarted<W>(mozjpeg::compress::CompressStarted<W>);

#[verifier::external_type_specification]
#[verifier::external_body]
pub struct ExIoError(std::io::Error);

/// A decoded raster: `height` rows of `width` pixels, row-major, 8 bits per
/// channel. `data` may run past the last pixel; the pixels are its first
/// `width * height * channels` bytes.
pub struct PixelGrid {
    pub width: u32,
    pub height: u32,
    pub data: Vec<u8>,
}

/// Whether `image::load_from_memory` accepts the buffer.
pub uninterp spec fn decodes(data: Seq<u8>) -> bool;

/// The RGBA8 raster (`width`, `height`, bytes) that `DynamicImage::to_rgba8`
/// gives for the image decoded from `data`.
pub uninterp spec fn rgba8_of(data: Seq<u8>) -> (u32, u32, Seq<u8>);

/// The RGB8 raster (`width`, `height`, bytes) that `DynamicImage::to_rgb8`
/// gives for the image decoded from `data`.
pub uninterp spec fn rgb8_of(data: Seq<u8>) -> (u32, u32, Seq<u8>);

/// Whether `Attributes::new_image` accepts these RGBA bytes as a
/// `width` x `height` image.
pub uninterp spec fn quant_image_accepts(rgba: Seq<u8>, width: usize, height: usize) -> bool;

/// Whether `Attributes::quantize`, at target quality `quality`, finds a
/// palette for the image made from these RGBA bytes.
pub uninterp spec fn quantizes(quality: u8, rgba: Seq<u8>, width: usize, height: usize) -> bool;

/// What `QuantizationResult::remapped` gives, with full dithering, for that
/// quantization: the palette as `(r, g, b, a)` and one index per pixel.
pub uninterp spec fn remapped_of(quality: u8, rgba: Seq<u8>, width: usize, height: usize) -> Option<
    (Seq<(u8, u8, u8, u8)>, Seq<u8>),
>;

/// The stream png's encoder writes for an 8-bit indexed image, if it accepts
/// the parameters.
pub uninterp spec fn png_indexed_of(
    width: u32,
    height: u32,
    palette: Seq<u8>,
    indices: Seq<u8>,
    effort: DeflateEffort,
) -> Option<Seq<u8>>;

/// The stream mozjpeg writes for these RGB rows at this quality.
pub uninterp spec fn jpeg_encoded(width: nat, height: nat, quality: u8, rgb: Seq<u8>) -> Seq<u8>;

/// Relies on `image::load_from_memory`: guesses the container from the
/// leading bytes and decodes the whole buffer, or reports why it cannot.
#[verifier::external_body]
fn load_image(data: &[u8]) -> (r: Result<image::DynamicImage, image::ImageError>)
    ensures
        r is Ok <==> decodes(data@),
{
    image::load_from_memory(data)
}

/// A decoded image together with the bytes it was decoded from.
pub struct Decoded {
    image: image::DynamicImage,
    source: Ghost<Seq<u8>>,
}

impl Decoded {
    pub closed spec fn source(&self) -> Seq<u8> {
        self.source@
    }
}

/// Decodes a buffer into an image, remembering the buffer.
pub fn decode(data: &[u8]) -> (r: Result<Decoded, image::ImageError>)
    ensures
        r is Ok <==> decodes(data@),
        r matches Ok(d) ==> d.source() == data@,
{
    match load_image(data) {
        Ok(image) => Ok(Decoded { image, source: Ghost(data@) }),
        Err(e) => Err(e),
    }
}

/// Relies on `DynamicImage::to_rgba8`: an RGBA8 copy whose `ImageBuffer`
/// container holds at least `width * height * 4` bytes.
#[verifier::external_body]
pub(crate) fn rgba8_grid(d: &Decoded) -> (r: PixelGrid)
    ensures
        (r.width, r.height, r.data@) == rgba8_of(d.source()),
        r.data@.len() >= r.width as int * r.height as int * 4,
{
    let buf = d.image.to_rgba8();
    PixelGrid { width: buf.width(), height: buf.height(), data: buf.into_raw() }
}

/// Relies on `DynamicImage::to_rgb8`: an RGB8 copy whose `ImageBuffer`
/// container holds at least `width * height * 3` bytes.
#[verifier::external_body]
pub(crate) fn rgb8_grid(d: &Decoded) -> (r: PixelGrid)
    ensures
        (r.width, r.height, r.data@) == rgb8_of(d.source()),
        r.data@.len() >= r.width as int * r.height as int * 3,
{
    let buf = d.image.to_rgb8();
    PixelGrid { width: buf.width(), height: buf.height(), data: buf.into_raw() }
}

/// Relies on `imagequant::new`: quantizer settings at their defaults.
pub assume_specification[ imagequant::new ]() -> imagequant::Attributes;

/// Relies on `Attributes::set_quality`: it fails exactly when `target`
/// exceeds 100 or lies below `minimum`.
pub assume_specification[ imagequant::Attributes::set_quality ](
    attr: &mut imagequant::Attributes,
    minimum: u8,
    target: u8,
) -> (r: Result<(), imagequant::Error>)
    ensures
        r is Ok <==> (target <= 100 && minimum <= target),
;

/// Quantizer settings with target quality `quality` and no minimum.
pub struct Quantizer {
    attr: imagequant::Attributes,
    quality: Ghost<u8>,
}

impl Quantizer {
    pub closed spec fn quality(&self) -> u8 {
        self.quality@
    }

    pub fn new(quality: u8) -> (r: Quantizer)
        requires
            quality <= 100,
        ensures
            r.quality() == quality,
    {
        let mut attr = imagequant::new();
        let set = attr.set_quality(0, quality);
        assert(set is Ok);
        Quantizer { attr, quality: Ghost(quality) }
    }
}

/// Relies on `Attributes::new_image`: describes `width * height` RGBA
/// pixels, taken four bytes each from `rgba`, as an sRGB image (gamma 0
/// selects the sRGB default). Whether it accepts them depends on the pixels
/// and sides alone: the settings are read only for log output.
#[verifier::external_body]
fn new_quant_image(
    attr: &imagequant::Attributes,
    rgba: &[u8],
    width: usize,
    height: usize,
) -> (r: Result<imagequant::Image<'static>, imagequant::Error>)
    ensures
        r is Ok <==> quant_image_accepts(rgba@, width, height),
{
    let pixels: Vec<imagequant::RGBA> =
        rgba.chunks_exact(4).map(|p| imagequant::RGBA::new(p[0], p[1], p[2], p[3])).collect();
    attr.new_image(pixels, width, height, Default::default())
}

/// An image handed to the quantizer, with the pixels and sides it was made from.
pub struct QuantImage {
    img: imagequant::Image<'static>,
    rgba: Ghost<Seq<u8>>,
    width: Ghost<usize>,
    height: Ghost<usize>,
}

impl QuantImage {
    pub closed spec fn rgba(&self) -> Seq<u8> {
        self.rgba@
    }

    pub closed spec fn width(&self) -> usize {
        self.width@
    }

    pub closed spec fn height(&self) -> usize {
        self.height@
    }

    pub fn new(q: &Quantizer, rgba: &[u8], width: usize, height: usize) -> (r: Result<
        QuantImage,
        imagequant::Error,
    >)
        ensures
            r is Ok <==> quant_image_accepts(rgba@, width, height),
            r matches Ok(img) ==> img.rgba() == rgba@ && img.width() == width && img.height()
                == height,
    {
        match new_quant_image(&q.attr, rgba, width, height) {
            Ok(img) => Ok(QuantImage { img, rgba: Ghost(rgba@), width: Ghost(width), height: Ghost(height) }),
            Err(e) => Err(e),
        }
    }
}

/// Relies on `Attributes::quantize`: builds the palette for the image.
#[verifier::external_body]
fn quantize_raw(q: &Quantizer, img: &mut QuantImage) -> (r: Result<
    imagequant::QuantizationResult,
    imagequant::Error,
>)
    ensures
        r is Ok <==> quantizes(q.quality(), old(img).rgba(), old(img).width(), old(img).height()),
        final(img).rgba() == old(img).rgba(),
        final(img).width() == old(img).width(),
        final(img).height() == old(img).height(),
{
    q.attr.quantize(&mut img.img)
}

/// Relies on `QuantizationResult::set_dithering_level` with level 1.0, full
/// strength: it fails only for a level outside `0..=1`.
#[verifier::external_body]
fn set_full_dithering(res: &mut imagequant::QuantizationResult) -> (r: Result<
    (),
    imagequant::Error,
>)
    ensures
        r is Ok,
{
    res.set_dithering_level(1u8.into())
}

/// A palette built for a quantizer image, with what it was built from and
/// whether full dithering was set for the remap.
pub struct Quantized {
    res: imagequant::QuantizationResult,
    quality: Ghost<u8>,
    rgba: Ghost<Seq<u8>>,
    width: Ghost<usize>,
    height: Ghost<usize>,
    dithered: Ghost<bool>,
}

impl Quantized {
    pub closed spec fn quality(&self) -> u8 {
        self.quality@
    }

    pub closed spec fn rgba(&self) -> Seq<u8> {
        self.rgba@
    }

    pub closed spec fn width(&self) -> usize {
        self.width@
    }

    pub closed spec fn height(&self) -> usize {
        self.height@
    }

    pub closed spec fn dithered(&self) -> bool {
        self.dithered@
    }

    /// Quantizes `img` with the settings of `q`.
    pub fn quantize(q: &Quantizer, img: &mut QuantImage) -> (r: Result<Quantized, imagequant::Error>)
        ensures
            r is Ok <==> quantizes(q.quality(), old(img).rgba(), old(img).width(), old(img).height()),
            final(img).rgba() == old(img).rgba(),
            final(img).width() == old(img).width(),
            final(img).height() == old(img).height(),
            r matches Ok(qd) ==> qd.quality() == q.quality() && qd.rgba() == old(img).rgba()
                && qd.width() == old(img).width() && qd.height() == old(img).height()
                && !qd.dithered(),
    {
        match quantize_raw(q, img) {
            Ok(res) => Ok(
                Quantized {
                    res,
                    quality: Ghost(q.quality@),
                    rgba: Ghost(img.rgba@),
                    width: Ghost(img.width@),
                    height: Ghost(img.height@),
                    dithered: Ghost(false),
                },
            ),
            Err(e) => Err(e),
        }
    }

    /// Sets dithering to full strength for the remap.
    pub fn dither_fully(&mut self) -> (r: Result<(), imagequant::Error>)
        ensures
            r is Ok,
            final(self).dithered(),
            final(self).quality() == old(self).quality(),
            final(self).rgba() == old(self).rgba(),
            final(self).width() == old(self).width(),
            final(self).height() == old(self).height(),
    {
        let r = set_full_dithering(&mut self.res);
        self.dithered = Ghost(true);
        r
    }
}

/// Relies on `QuantizationResult::remapped`: the palette, each colour as
/// `(r, g, b, a)`, and one palette index byte per pixel.
#[verifier::external_body]
pub(crate) fn remap(q: &mut Quantized, img: &mut QuantImage) -> (r: Result<
    (Vec<(u8, u8, u8, u8)>, Vec<u8>),
    imagequant::Error,
>)
    requires
        old(q).dithered(),
        old(q).rgba() == old(img).rgba(),
        old(q).width() == old(img).width(),
        old(q).height() == old(img).height(),
    ensures
        r is Ok <==> remapped_of(old(q).quality(), old(q).rgba(), old(q).width(), old(q).height())
            is Some,
        r matches Ok((p, i)) ==> remapped_of(old(q).quality(), old(q).rgba(), old(q).width(), old(q).height())
            == Some((p@, i@)),
{
    let (palette, indices) = q.res.remapped(&mut img.img)?;
    Ok((palette.iter().map(|c| (c.r, c.g, c.b, c.a)).collect(), indices))
}

/// Relies on `png::Encoder` set to 8-bit indexed colour with the given RGB
/// palette and deflate level, and on its `Writer`: `write_header` writes
/// the PNG signature and then the IHDR chunk (sides, depth 8, colour type 3)
/// into the empty buffer, `write_image_data` the index bytes, and `finish`
/// the IEND chunk last.
#[verifier::external_body]
pub(crate) fn encode_indexed_png(
    width: u32,
    height: u32,
    palette: Vec<u8>,
    indices: &[u8],
    effort: DeflateEffort,
) -> (r: Result<Vec<u8>, png::EncodingError>)
    ensures
        r is Ok <==> png_indexed_of(width, height, palette@, indices@, effort) is Some,
        r matches Ok(out) ==> png_indexed_of(width, height, palette@, indices@, effort) == Some(
            out@,
        ),
        r matches Ok(out) ==> indexed_png_framing(out@, width, height),
{
    let mut out: Vec<u8> = Vec::new();
    let mut encoder = png::Encoder::new(&mut out, width, height);
    encoder.set_color(png::ColorType::Indexed);
    encoder.set_depth(png::BitDepth::Eight);
    encoder.set_compression(match effort {
        DeflateEffort::Best => png::Compression::Best,
        DeflateEffort::Fast => png::Compression::Fast,
        DeflateEffort::Balanced => png::Compression::Default,
    });
    encoder.set_palette(palette);
    let mut writer = encoder.write_header()?;
    writer.write_image_data(indices)?;
    writer.finish()?;
    Ok(out)
}

/// Relies on `mozjpeg::Compress::new` for RGB input, `set_size`,
/// `set_quality` and `start_compress` into an empty buffer. libjpeg unwinds
/// on an empty image or a side over 65500 pixels: `requires` leaves those
/// out. `start_compress` fails only when no component has sampling factor 1,
/// and the defaults for RGB input (YCbCr, luma 2x2, chroma 1x1) have one.
#[verifier::external_body]
fn jpeg_start_raw(width: usize, height: usize, quality: u8) -> (r: Result<
    mozjpeg::compress::CompressStarted<Vec<u8>>,
    std::io::Error,
>)
    requires
        0 < width <= 65500,
        0 < height <= 65500,
    ensures
        r is Ok,
{
    let mut comp = mozjpeg::Compress::new(mozjpeg::ColorSpace::JCS_RGB);
    comp.set_size(width, height);
    comp.set_quality(quality.into());
    comp.start_compress(Vec::new())
}

/// A started JPEG encoder with its sides and quality, and the RGB bytes
/// fed to it so far.
pub struct JpegEncoder {
    started: mozjpeg::compress::CompressStarted<Vec<u8>>,
    width: Ghost<nat>,
    height: Ghost<nat>,
    quality: Ghost<u8>,
    fed: Ghost<Seq<u8>>,
}

impl JpegEncoder {
    pub closed spec fn width(&self) -> nat {
        self.width@
    }

    pub closed spec fn height(&self) -> nat {
        self.height@
    }

    pub closed spec fn quality(&self) -> u8 {
        self.quality@
    }

    pub closed spec fn fed(&self) -> Seq<u8> {
        self.fed@
    }

    pub fn start(width: usize, height: usize, quality: u8) -> (r: Result<JpegEncoder, std::io::Error>)
        requires
            0 < width <= 65500,
            0 < height <= 65500,
        ensures
            r is Ok,
            r matches Ok(enc) ==> enc.width() == width && enc.height() == height && enc.quality()
                == quality && enc.fed() == Seq::<u8>::empty(),
    {
        match jpeg_start_raw(width, height, quality) {
            Ok(started) => Ok(
                JpegEncoder {
                    started,
                    width: Ghost(width as nat),
                    height: Ghost(height as nat),
                    quality: Ghost(quality),
                    fed: Ghost(Seq::empty()),
                },
            ),
            Err(e) => Err(e),
        }
    }
}

/// Relies on `CompressStarted::write_scanlines`: feeds one row of
/// `width * 3` bytes to the encoder. It fails only for a zero width, raw
/// data input or an encoder that accepts no row; none of these holds for an
/// encoder started on RGB input that has rows left and writes to a `Vec`.
#[verifier::external_body]
pub(crate) fn jpeg_write_row(enc: &mut JpegEncoder, row: &[u8]) -> (r: Result<(), std::io::Error>)
    requires
        row@.len() == old(enc).width() * 3,
        old(enc).fed().len() + row@.len() <= old(enc).width() * old(enc).height() * 3,
    ensures
        r is Ok,
        final(enc).fed() == old(enc).fed() + row@,
        final(enc).width() == old(enc).width(),
        final(enc).height() == old(enc).height(),
        final(enc).quality() == old(enc).quality(),
{
    enc.started.write_scanlines(row)
}

/// Relies on `CompressStarted::finish`: libjpeg writes the end-of-image
/// marker last and the buffer, which opens with the start-of-image marker,
/// is handed back. libjpeg unwinds when fewer rows than the height were
/// written: `requires` asks for every row.
#[verifier::external_body]
pub(crate) fn jpeg_finish(enc: JpegEncoder) -> (r: Result<Vec<u8>, std::io::Error>)
    requires
        enc.fed().len() == enc.width() * enc.height() * 3,
    ensures
        r is Ok,
        r matches Ok(out) ==> out@ == jpeg_encoded(enc.width(), enc.height(), enc.quality(), enc.fed()),
        r matches Ok(out) ==> has_prefix(out@, jpeg_soi()) && has_suffix(out@, jpeg_eoi()),
{
    enc.started.finish()
}

} // verus!
