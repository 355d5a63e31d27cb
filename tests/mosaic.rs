use emubayer::image::{BitDepth, ColorType, PixelLayout, RgbImage};
use emubayer::pattern::{BayerPattern, PatternError};

fn counting_image(width: u32, height: u32, color_type: ColorType, bit_depth: BitDepth) -> RgbImage {
    let len = width as usize * height as usize * color_type.channel_count();
    let data: Vec<u8> = (0..len).map(|k| k as u8).collect();
    RgbImage::new(width, height, data, color_type, bit_depth).unwrap()
}

fn solid_rgb(width: u32, height: u32) -> RgbImage {
    let mut data = Vec::new();
    for _ in 0..(width * height) {
        data.extend_from_slice(&[0xAA, 0xBB, 0xCC]);
    }
    RgbImage::new(width, height, data, ColorType::RGB, BitDepth::Eight).unwrap()
}

#[test]
fn solid_color_rggb_channel_mapping() {
    let raw = solid_rgb(2, 2).to_raw(BayerPattern::RGGB);
    assert_eq!(raw.width(), 2);
    assert_eq!(raw.height(), 2);
    assert_eq!(raw.data(), &vec![0xAA00, 0xBB00, 0xBB00, 0xCC00]);
    assert_eq!(raw.bayer_pattern(), BayerPattern::RGGB);
}

#[test]
fn solid_color_other_patterns() {
    assert_eq!(solid_rgb(2, 2).to_raw(BayerPattern::BGGR).data(), &vec![0xCC00, 0xBB00, 0xBB00, 0xAA00]);
    assert_eq!(solid_rgb(2, 2).to_raw(BayerPattern::GRBG).data(), &vec![0xBB00, 0xAA00, 0xCC00, 0xBB00]);
    assert_eq!(solid_rgb(2, 2).to_raw(BayerPattern::GBRG).data(), &vec![0xBB00, 0xCC00, 0xAA00, 0xBB00]);
}

#[test]
fn even_image_keeps_every_pixel() {
    let raw = counting_image(4, 2, ColorType::RGB, BitDepth::Eight).to_raw(BayerPattern::RGGB);
    assert_eq!(raw.width(), 4);
    assert_eq!(raw.height(), 2);
    assert_eq!(raw.data().len(), 8);
    // Row 0: pixels 0..3 alternate R, G; row 1: pixels 4..7 alternate G, B.
    assert_eq!(
        raw.data(),
        &vec![0x0000, 0x0400, 0x0600, 0x0A00, 0x0D00, 0x1100, 0x1300, 0x1700]
    );
}

#[test]
fn odd_width_and_height_crop_three_by_three() {
    let raw = counting_image(3, 3, ColorType::RGB, BitDepth::Eight).to_raw(BayerPattern::RGGB);
    assert_eq!(raw.width(), 2);
    assert_eq!(raw.height(), 2);
    assert_eq!(raw.data(), &vec![0x0000, 0x0400, 0x0700, 0x0B00]);
}

#[test]
fn odd_width_crop_three_by_four() {
    let raw = counting_image(3, 4, ColorType::RGB, BitDepth::Eight).to_raw(BayerPattern::RGGB);
    assert_eq!(raw.width(), 2);
    assert_eq!(raw.height(), 4);
    assert_eq!(
        raw.data(),
        &vec![0x0000, 0x0400, 0x0700, 0x0B00, 0x1200, 0x1600, 0x1900, 0x1D00]
    );
}

#[test]
fn odd_height_crop_two_by_three() {
    let raw = counting_image(2, 3, ColorType::RGB, BitDepth::Eight).to_raw(BayerPattern::RGGB);
    assert_eq!(raw.width(), 2);
    assert_eq!(raw.height(), 2);
    assert_eq!(raw.data(), &vec![0x0000, 0x0400, 0x0700, 0x0B00]);
}

#[test]
fn dropped_row_is_never_read() {
    let mut data: Vec<u8> = vec![0x10; 2 * 3 * 3];
    for b in data[12..].iter_mut() {
        *b = 0xFF;
    }
    let img = RgbImage::new(2, 3, data, ColorType::RGB, BitDepth::Eight).unwrap();
    let raw = img.to_raw(BayerPattern::GBRG);
    assert!(raw.data().iter().all(|&s| s == 0x1000));
}

#[test]
fn tiny_and_empty_images_give_empty_buffers() {
    let raw = counting_image(0, 0, ColorType::RGB, BitDepth::Eight).to_raw(BayerPattern::RGGB);
    assert_eq!((raw.width(), raw.height(), raw.data().len()), (0, 0, 0));
    let raw = counting_image(1, 1, ColorType::RGBA, BitDepth::Eight).to_raw(BayerPattern::RGGB);
    assert_eq!((raw.width(), raw.height(), raw.data().len()), (0, 0, 0));
    let raw = counting_image(1, 5, ColorType::RGB, BitDepth::Eight).to_raw(BayerPattern::RGGB);
    assert_eq!((raw.width(), raw.height(), raw.data().len()), (0, 4, 0));
}

#[test]
fn rgba_uses_four_bytes_per_pixel() {
    let raw = counting_image(2, 2, ColorType::RGBA, BitDepth::Eight).to_raw(BayerPattern::RGGB);
    assert_eq!(raw.data(), &vec![0x0000, 0x0500, 0x0900, 0x0E00]);
}

#[test]
fn same_input_same_output() {
    let a = counting_image(6, 5, ColorType::RGB, BitDepth::Eight).to_raw(BayerPattern::GRBG);
    let b = counting_image(6, 5, ColorType::RGB, BitDepth::Eight).to_raw(BayerPattern::GRBG);
    assert_eq!(a.data(), b.data());
    assert_eq!((a.width(), a.height()), (b.width(), b.height()));
}

#[test]
fn shift_follows_bit_depth() {
    assert_eq!(BitDepth::One.to_u32(), 1);
    assert_eq!(BitDepth::Two.to_u32(), 2);
    assert_eq!(BitDepth::Four.to_u32(), 4);
    assert_eq!(BitDepth::Eight.to_u32(), 8);
    assert_eq!(BitDepth::Sixteen.to_u32(), 16);
    let raw = counting_image(2, 2, ColorType::RGB, BitDepth::Sixteen).to_raw(BayerPattern::RGGB);
    assert_eq!(raw.data(), &vec![0, 4, 7, 11]);
    let raw = counting_image(2, 2, ColorType::RGB, BitDepth::Four).to_raw(BayerPattern::RGGB);
    assert_eq!(raw.data(), &vec![0, 0x4000, 0x7000, 0xB000]);
    let raw = counting_image(2, 2, ColorType::RGB, BitDepth::One).to_raw(BayerPattern::RGGB);
    assert_eq!(raw.data(), &vec![0, 0, 0x8000, 0x8000]);
}

#[test]
fn short_pixel_buffer_is_refused() {
    assert!(RgbImage::new(2, 2, vec![0; 11], ColorType::RGB, BitDepth::Eight).is_none());
    assert!(RgbImage::new(2, 2, vec![0; 15], ColorType::RGBA, BitDepth::Eight).is_none());
    let img = RgbImage::new(2, 2, vec![0; 12], ColorType::RGB, BitDepth::Eight).unwrap();
    assert_eq!((img.width(), img.height()), (2, 2));
    assert!(RgbImage::new(u32::MAX, u32::MAX, vec![0; 4], ColorType::RGB, BitDepth::Eight).is_none());
}

#[test]
fn unsupported_color_types_are_rejected() {
    assert_eq!(ColorType::from_layout(PixelLayout::Grayscale), None);
    assert_eq!(ColorType::from_layout(PixelLayout::GrayscaleAlpha), None);
    assert_eq!(ColorType::from_layout(PixelLayout::Indexed), None);
    assert_eq!(ColorType::from_layout(PixelLayout::Rgb), Some(ColorType::RGB));
    assert_eq!(ColorType::from_layout(PixelLayout::Rgba), Some(ColorType::RGBA));
    assert_eq!(ColorType::RGB.channel_count(), 3);
    assert_eq!(ColorType::RGBA.channel_count(), 4);
}

#[test]
fn pattern_parsing_ignores_case_and_spaces() {
    assert_eq!(BayerPattern::from_str("rggb"), Ok(BayerPattern::RGGB));
    assert_eq!(BayerPattern::from_str(" RGGB "), Ok(BayerPattern::RGGB));
    assert_eq!(BayerPattern::from_str("RgGb"), Ok(BayerPattern::RGGB));
    assert_eq!(BayerPattern::from_str("bggr"), Ok(BayerPattern::BGGR));
    assert_eq!(BayerPattern::from_str("\tGrbg\n"), Ok(BayerPattern::GRBG));
    assert_eq!(BayerPattern::from_str("GBRG"), Ok(BayerPattern::GBRG));
    assert_eq!(BayerPattern::from_str("XYZZ"), Err(PatternError::Unrecognized));
    assert_eq!(BayerPattern::from_str(""), Err(PatternError::Unrecognized));
    assert_eq!(BayerPattern::from_str("RG GB"), Err(PatternError::Unrecognized));
}

#[test]
fn pattern_names_and_offsets() {
    assert_eq!(BayerPattern::from_name("RGGB"), Some(BayerPattern::RGGB));
    assert_eq!(BayerPattern::from_name("rggb"), None);
    assert_eq!(BayerPattern::from_name(" RGGB"), None);
    for p in [BayerPattern::RGGB, BayerPattern::BGGR, BayerPattern::GRBG, BayerPattern::GBRG] {
        assert_eq!(BayerPattern::from_str(p.as_str()), Ok(p));
    }
    assert_eq!(BayerPattern::GBRG.as_str(), "GBRG");
    assert_eq!(BayerPattern::RGGB.color_offsets(), vec![0, 1, 1, 2]);
    assert_eq!(BayerPattern::BGGR.color_offsets(), vec![2, 1, 1, 0]);
    assert_eq!(BayerPattern::GRBG.color_offsets(), vec![1, 0, 2, 1]);
    assert_eq!(BayerPattern::GBRG.color_offsets(), vec![1, 2, 0, 1]);
}
