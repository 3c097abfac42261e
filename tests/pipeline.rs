use std::io::Cursor;

use fast_image::error::ErrorKind;
use fast_image::format::ImageType;
use fast_image::jpeg_path::scanline;
use fast_image::png_path::indexed_palette;
use fast_image::{
    compress_request, do_jpeg_compression, do_png_compression, do_png_compression_optimized,
    png_effort, CompressError, Compression, DeflateEffort,
};

const PNG_MAGIC: [u8; 8] = [0x89, 0x50, 0x4E, 0x47, 0x0D, 0x0A, 0x1A, 0x0A];

fn sample_rgba_png(width: u32, height: u32) -> Vec<u8> {
    let mut pixels = Vec::with_capacity((width * height * 4) as usize);
    for y in 0..height {
        for x in 0..width {
            pixels.extend_from_slice(&[(x * 2) as u8, (y * 2) as u8, ((x + y) % 256) as u8, 255]);
        }
    }
    let mut out = Vec::new();
    {
        let mut encoder = png::Encoder::new(&mut out, width, height);
        encoder.set_color(png::ColorType::Rgba);
        encoder.set_depth(png::BitDepth::Eight);
        let mut writer = encoder.write_header().unwrap();
        writer.write_image_data(&pixels).unwrap();
        writer.finish().unwrap();
    }
    out
}

fn sample_jpeg(width: u32, height: u32) -> Vec<u8> {
    let img = image::RgbImage::from_fn(width, height, |x, y| {
        image::Rgb([(x * 3) as u8, (y * 5) as u8, ((x * y) % 256) as u8])
    });
    let mut out = Cursor::new(Vec::new());
    image::DynamicImage::ImageRgb8(img).write_to(&mut out, image::ImageFormat::Jpeg).unwrap();
    out.into_inner()
}

#[test]
fn effort_boundaries() {
    assert_eq!(png_effort(0), DeflateEffort::Best);
    assert_eq!(png_effort(25), DeflateEffort::Best);
    assert_eq!(png_effort(26), DeflateEffort::Fast);
    assert_eq!(png_effort(50), DeflateEffort::Fast);
    assert_eq!(png_effort(51), DeflateEffort::Balanced);
    assert_eq!(png_effort(75), DeflateEffort::Balanced);
    assert_eq!(png_effort(76), DeflateEffort::Fast);
    assert_eq!(png_effort(100), DeflateEffort::Fast);
}

#[test]
fn invalid_quality_wins_over_corrupt_data() {
    let corrupt = b"\x89PNG\r\n\x1a\nthis is not a real png stream";
    assert_eq!(compress_request(corrupt, -1), Err(CompressError::InvalidQuality(-1)));
    assert_eq!(compress_request(corrupt, 101), Err(CompressError::InvalidQuality(101)));
}

#[test]
fn empty_input_rejected() {
    for q in [0, 25, 50, 100] {
        assert_eq!(compress_request(b"", q), Err(CompressError::EmptyInput));
    }
}

#[test]
fn unknown_format_rejected() {
    assert_eq!(compress_request(b"unknown format", 50), Err(CompressError::UnsupportedFormat));
    assert_eq!(ImageType::compress(b"unknown format", 0), Err(CompressError::UnsupportedFormat));
}

#[test]
fn corrupt_streams_fail_to_decode() {
    let png_like = b"\x89PNG\r\n\x1a\ngarbage";
    assert!(matches!(do_png_compression(png_like, 50), Err(CompressError::DecodeFailed(_))));
    let jpeg_like = b"\xff\xd8garbage";
    assert!(matches!(do_jpeg_compression(jpeg_like, 50), Err(CompressError::DecodeFailed(_))));
    assert!(matches!(compress_request(jpeg_like, 50), Err(CompressError::DecodeFailed(_))));
}

#[test]
fn png_end_to_end_indexed_output() {
    let input = sample_rgba_png(100, 100);
    let out = compress_request(&input, 50).expect("PNG compression");
    assert!(!out.is_empty());
    assert_eq!(&out[..8], &PNG_MAGIC);
    assert_eq!(ImageType::detect_type(&out), Some(ImageType::PNG));

    let decoder = png::Decoder::new(Cursor::new(&out));
    let mut reader = decoder.read_info().unwrap();
    assert_eq!(reader.info().color_type, png::ColorType::Indexed);
    assert_eq!(reader.info().bit_depth, png::BitDepth::Eight);
    let mut buf = vec![0; reader.output_buffer_size()];
    let frame = reader.next_frame(&mut buf).unwrap();
    assert_eq!(frame.buffer_size(), 10_000);
    assert!(image::load_from_memory(&out).is_ok());
}

#[test]
fn png_output_framing() {
    let input = sample_rgba_png(100, 100);
    let out = do_png_compression(&input, 10).expect("PNG compression");
    assert_eq!(&out[8..16], &[0, 0, 0, 13, b'I', b'H', b'D', b'R']);
    assert_eq!(&out[16..20], &100u32.to_be_bytes());
    assert_eq!(&out[20..24], &100u32.to_be_bytes());
    assert_eq!(out[24], 8);
    assert_eq!(out[25], 3);
    let n = out.len();
    assert_eq!(&out[n - 12..], &[0, 0, 0, 0, b'I', b'E', b'N', b'D', 0xAE, 0x42, 0x60, 0x82]);
}

#[test]
fn compression_is_repeatable() {
    let png_in = sample_rgba_png(40, 30);
    assert_eq!(compress_request(&png_in, 60), compress_request(&png_in, 60));
    assert_eq!(do_png_compression(&png_in, 80), do_png_compression_optimized(&png_in, 80));
    let jpeg_in = sample_jpeg(40, 30);
    assert_eq!(compress_request(&jpeg_in, 60), compress_request(&jpeg_in, 60));
}

#[test]
fn error_categories() {
    assert_eq!(CompressError::InvalidQuality(-1).kind(), ErrorKind::InvalidQuality);
    assert_eq!(CompressError::EmptyInput.kind(), ErrorKind::EmptyInput);
    assert_eq!(CompressError::UnsupportedFormat.kind(), ErrorKind::UnsupportedFormat);
    assert_eq!(CompressError::DecodeFailed("d".into()).kind(), ErrorKind::DecodeFailed);
    assert_eq!(CompressError::QuantizeFailed("q".into()).kind(), ErrorKind::QuantizeFailed);
    assert_eq!(CompressError::RemapFailed("r".into()).kind(), ErrorKind::RemapFailed);
    assert_eq!(CompressError::EncodeFailed("e".into()).kind(), ErrorKind::EncodeFailed);
}

#[test]
fn png_keeps_format_across_qualities() {
    let input = sample_rgba_png(32, 24);
    for q in [0u8, 25, 30, 50, 70, 75, 90, 100] {
        let out = ImageType::compress(&input, q).expect("PNG compression");
        assert_eq!(ImageType::detect_type(&out), Some(ImageType::PNG));
        let back = image::load_from_memory(&out).unwrap();
        assert_eq!((back.width(), back.height()), (32, 24));
    }
    let out = do_png_compression_optimized(&input, 60).expect("PNG compression");
    assert_eq!(&out[..8], &PNG_MAGIC);
}

#[test]
fn jpeg_end_to_end() {
    let input = sample_jpeg(64, 48);
    assert_eq!(&input[..3], &[0xFF, 0xD8, 0xFF]);
    let out = compress_request(&input, 90).expect("JPEG compression");
    assert_eq!(&out[..2], &[0xFF, 0xD8]);
    assert_eq!(&out[out.len() - 2..], &[0xFF, 0xD9]);
    assert_eq!(ImageType::detect_type(&out), Some(ImageType::JPEG));
    let back = image::load_from_memory(&out).unwrap();
    assert_eq!((back.width(), back.height()), (64, 48));
}

#[test]
fn jpeg_keeps_format_across_qualities() {
    let input = sample_jpeg(17, 9);
    for q in [0u8, 30, 50, 70, 100] {
        let out = do_jpeg_compression(&input, q).expect("JPEG compression");
        assert_eq!(ImageType::detect_type(&out), Some(ImageType::JPEG));
        assert!(image::load_from_memory(&out).is_ok());
    }
}

#[test]
fn palette_flattened_to_rgb_triples() {
    let palette = [(1, 2, 3, 4), (5, 6, 7, 8)];
    let indices = [0, 1, 1];
    assert_eq!(indexed_palette(&palette, &indices, 3), Ok(vec![1, 2, 3, 5, 6, 7]));
}

#[test]
fn palette_index_out_of_range() {
    let palette = [(1, 2, 3, 4)];
    assert!(matches!(indexed_palette(&palette, &[0, 1], 2), Err(CompressError::RemapFailed(_))));
}

#[test]
fn index_map_of_wrong_size() {
    let palette = [(1, 2, 3, 4)];
    assert!(matches!(indexed_palette(&palette, &[0, 0], 3), Err(CompressError::RemapFailed(_))));
    assert!(matches!(indexed_palette(&[], &[], 0), Err(CompressError::RemapFailed(_))));
    let big = vec![(0, 0, 0, 0); 257];
    assert!(matches!(indexed_palette(&big, &[0], 1), Err(CompressError::RemapFailed(_))));
}

#[test]
fn scanline_picks_one_row() {
    let rgb: Vec<u8> = (0..18).collect();
    assert_eq!(scanline(&rgb, 2, 0), &[0, 1, 2, 3, 4, 5]);
    assert_eq!(scanline(&rgb, 2, 2), &[12, 13, 14, 15, 16, 17]);
}

#[test]
fn validated_quality_path_refuses_empty_input() {
    for q in [0u8, 50, 100] {
        assert_eq!(fast_image::compress_input(b"", q), Err(CompressError::EmptyInput));
    }
    assert_eq!(fast_image::compress_input(b"GIF89a", 10), Err(CompressError::UnsupportedFormat));
}
