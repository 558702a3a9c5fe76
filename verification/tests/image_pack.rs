//! Palette quantization, nibble packing, and the PNG conversion pipeline.

use pi_inky_weather_epd::image7::{convert_png_bytes_to_raw_7color, depalette, rgb_to_raw_7color};

#[test]
fn exact_palette_colours_map_to_their_index() {
    assert_eq!(depalette(0, 0, 0), 0);
    assert_eq!(depalette(255, 255, 255), 1);
    assert_eq!(depalette(67, 138, 28), 2);
    assert_eq!(depalette(100, 64, 255), 3);
    assert_eq!(depalette(191, 0, 0), 4);
    assert_eq!(depalette(255, 243, 56), 5);
    assert_eq!(depalette(232, 126, 0), 6);
    assert_eq!(depalette(194, 164, 244), 7);
}

#[test]
fn nearby_colours_map_to_the_closest_entry() {
    assert_eq!(depalette(10, 10, 10), 0);
    assert_eq!(depalette(250, 250, 250), 1);
    assert_eq!(depalette(200, 20, 20), 4);
}

#[test]
fn packs_two_pixels_per_byte() {
    // 2x2: black, white / red, yellow
    let rgb = vec![
        0, 0, 0, 255, 255, 255, //
        191, 0, 0, 255, 243, 56,
    ];
    let packed = rgb_to_raw_7color(&rgb, 2, 2);
    assert_eq!(packed, vec![0x01, 0x45]);
}

#[test]
fn odd_widths_pad_the_last_nibble() {
    // 3x1: black, white, red; the tail byte holds red in the high nibble
    let rgb = vec![0, 0, 0, 255, 255, 255, 191, 0, 0];
    let packed = rgb_to_raw_7color(&rgb, 3, 1);
    assert_eq!(packed, vec![0x01, 0x40]);
}

#[test]
fn png_bytes_convert_through_decode_and_pack() {
    // encode a 2x2 image with the image crate, then run the full conversion
    let rgb = vec![
        0u8, 0, 0, 255, 255, 255, //
        191, 0, 0, 255, 243, 56,
    ];
    let img = image::RgbImage::from_raw(2, 2, rgb).unwrap();
    let mut png = std::io::Cursor::new(Vec::new());
    image::DynamicImage::ImageRgb8(img).write_to(&mut png, image::ImageFormat::Png).unwrap();
    let packed = convert_png_bytes_to_raw_7color(&png.into_inner()).unwrap();
    assert_eq!(packed, vec![0x01, 0x45]);
}

#[test]
fn garbage_bytes_are_rejected() {
    let junk = vec![1u8, 2, 3, 4];
    assert!(convert_png_bytes_to_raw_7color(&junk).is_err());
}
