use ascii_art::converter::{accept_decoded, AsciiConfig, AsciiConverter, ConvertError};
use ascii_art::presets::{CharacterSet, ColorTheme, SIMPLE_CHARS};
use ascii_art::quantize::{quantize_index, target_height, Ratio};
use ascii_art::raster::{grayscale, Raster};

fn solid(width: u32, height: u32, rgba: [u8; 4]) -> Raster {
    let mut pixels = Vec::new();
    for _ in 0..(width * height) {
        pixels.extend_from_slice(&rgba);
    }
    Raster::new(width, height, pixels).unwrap()
}

fn config(width: u32, full: bool, chars: &str, invert: bool, aspect: Ratio) -> AsciiConfig {
    AsciiConfig {
        width,
        use_full_resolution: full,
        character_set: chars.chars().collect(),
        invert_mapping: invert,
        aspect_ratio_correction: aspect,
        background_color: "#1a1a1a".to_string(),
        text_color: "#e0e0e0".to_string(),
    }
}

fn png_bytes(width: u32, height: u32, rgba: [u8; 4]) -> Vec<u8> {
    let img = image::RgbaImage::from_pixel(width, height, image::Rgba(rgba));
    let mut out = std::io::Cursor::new(Vec::new());
    image::DynamicImage::ImageRgba8(img)
        .write_to(&mut out, image::ImageOutputFormat::Png)
        .unwrap();
    out.into_inner()
}

const ONE: Ratio = Ratio { numerator: 1, denominator: 1 };
const HALF: Ratio = Ratio { numerator: 1, denominator: 2 };

#[test]
fn quantize_boundaries() {
    for n in [1usize, 2, 10, 70, 256, 1000] {
        assert_eq!(quantize_index(0, n, false), 0);
        assert_eq!(quantize_index(255, n, false), n - 1);
    }
}

#[test]
fn quantize_exact_values() {
    // 128 * 9 / 255 = 4.52, rounded to 5
    assert_eq!(quantize_index(128, 10, false), 5);
    // 127 * 9 / 255 = 4.48, rounded to 4
    assert_eq!(quantize_index(127, 10, false), 4);
    assert_eq!(quantize_index(128, 10, true), 4);
    assert_eq!(quantize_index(100, 70, false), 27);
}

#[test]
fn quantize_monotonic() {
    for n in [1usize, 2, 10, 70] {
        let mut last = 0;
        for l in 0..=255u8 {
            let i = quantize_index(l, n, false);
            assert!(i >= last);
            assert!(i < n);
            last = i;
        }
    }
}

#[test]
fn quantize_invert_symmetry() {
    for n in [1usize, 2, 10, 70] {
        for l in 0..=255u8 {
            assert_eq!(quantize_index(l, n, true), n - 1 - quantize_index(l, n, false));
        }
    }
}

#[test]
fn resample_aspect() {
    assert_eq!(target_height(200, 100, 100, HALF), Some(25));
}

#[test]
fn resample_height_rounds_and_is_at_least_one() {
    // 30 * 10 / 40 * 0.5 = 3.75
    assert_eq!(target_height(40, 30, 10, HALF), Some(4));
    // 10 * 7 / 20 = 3.5, halves round up
    assert_eq!(target_height(20, 10, 7, ONE), Some(4));
    assert_eq!(target_height(1000, 1, 10, HALF), Some(1));
    assert_eq!(target_height(1, u32::MAX, u32::MAX, ONE), None);
}

#[test]
fn raster_new_checks_sizes() {
    assert!(Raster::new(2, 2, vec![0; 16]).is_some());
    assert!(Raster::new(2, 2, vec![0; 15]).is_none());
    assert!(Raster::new(0, 2, vec![]).is_none());
    assert!(Raster::new(1, 1, vec![0; 4]).unwrap().is_valid());
}

#[test]
fn grayscale_weights() {
    let img = Raster::new(4, 1, vec![255, 0, 0, 255, 0, 255, 0, 255, 0, 0, 255, 0, 255, 255, 255, 9])
        .unwrap();
    let plane = grayscale(&img);
    assert_eq!((plane.width, plane.height), (4, 1));
    assert_eq!(plane.pixels, vec![54, 182, 18, 255]);
}

#[test]
fn end_to_end_black_square() {
    let conv = AsciiConverter::new(config(2, false, SIMPLE_CHARS, false, ONE));
    let grid = conv.convert_to_ascii(&solid(2, 2, [0, 0, 0, 255])).unwrap();
    assert_eq!(grid.text, "  \n  \n");
    assert_eq!((grid.columns, grid.rows), (2, 2));
    let rows: Vec<&str> = grid.text.lines().collect();
    assert_eq!(rows, vec!["  ", "  "]);
}

#[test]
fn end_to_end_inverted_black_square() {
    let conv = AsciiConverter::new(config(2, false, SIMPLE_CHARS, true, ONE));
    let grid = conv.convert_to_ascii(&solid(2, 2, [0, 0, 0, 255])).unwrap();
    assert_eq!(grid.text, "@@\n@@\n");
}

#[test]
fn full_resolution_passthrough() {
    let conv = AsciiConverter::new(config(150, true, SIMPLE_CHARS, false, HALF));
    let grid = conv.convert_to_ascii(&solid(3, 2, [255, 255, 255, 255])).unwrap();
    assert_eq!((grid.columns, grid.rows), (3, 2));
    assert_eq!(grid.text, "@@@\n@@@\n");
}

#[test]
fn every_row_has_the_column_count() {
    let mut pixels = Vec::new();
    for i in 0..(7 * 5) {
        let v = (i * 7 % 256) as u8;
        pixels.extend_from_slice(&[v, v, v, 255]);
    }
    let img = Raster::new(7, 5, pixels).unwrap();
    let conv = AsciiConverter::new(AsciiConfig::for_request(ColorTheme::Dark, CharacterSet::Detailed, true));
    let grid = conv.convert_to_ascii(&img).unwrap();
    let rows: Vec<&str> = grid.text.split_terminator('\n').collect();
    assert_eq!(rows.len(), grid.rows as usize);
    for row in rows {
        assert_eq!(row.chars().count(), grid.columns as usize);
    }
}

#[test]
fn resized_grid_has_target_size() {
    let conv = AsciiConverter::new(config(10, false, SIMPLE_CHARS, false, HALF));
    let grid = conv.convert_to_ascii(&solid(40, 30, [0, 0, 0, 255])).unwrap();
    assert_eq!((grid.columns, grid.rows), (10, 4));
    assert_eq!(grid.text, "          \n".repeat(4));
}

#[test]
fn resize_image_gives_requested_sides() {
    let conv = AsciiConverter::new(config(5, false, SIMPLE_CHARS, false, ONE));
    let small = conv.resize_image(&solid(20, 8, [10, 20, 30, 255])).unwrap();
    assert_eq!((small.width, small.height), (5, 2));
    assert_eq!(small.pixels.len(), 5 * 2 * 4);
}

#[test]
fn configuration_errors() {
    let img = solid(2, 2, [0, 0, 0, 255]);
    let empty = AsciiConverter::new(config(2, false, "", false, ONE));
    assert!(matches!(empty.convert_to_ascii(&img), Err(ConvertError::Configuration)));
    let zero_width = AsciiConverter::new(config(0, false, SIMPLE_CHARS, false, ONE));
    assert!(matches!(zero_width.convert_to_ascii(&img), Err(ConvertError::Configuration)));
    let zero_aspect = AsciiConverter::new(config(2, false, SIMPLE_CHARS, false, Ratio { numerator: 0, denominator: 1 }));
    assert!(matches!(zero_aspect.convert_to_ascii(&img), Err(ConvertError::Configuration)));
    let full = AsciiConverter::new(config(0, true, SIMPLE_CHARS, false, ONE));
    assert!(full.convert_to_ascii(&img).is_ok());
}

#[test]
fn decode_failure_on_empty_buffer() {
    let conv = AsciiConverter::new(config(2, false, SIMPLE_CHARS, false, ONE));
    assert!(matches!(conv.load_image_from_memory(&[]), Err(ConvertError::Decode)));
}

#[test]
fn decode_failure_on_garbage() {
    let conv = AsciiConverter::new(config(2, false, SIMPLE_CHARS, false, ONE));
    assert!(matches!(conv.load_image_from_memory(b"not an image"), Err(ConvertError::Decode)));
    let mut truncated = png_bytes(4, 4, [1, 2, 3, 255]);
    truncated.truncate(20);
    assert!(matches!(conv.load_image_from_memory(&truncated), Err(ConvertError::Decode)));
}

#[test]
fn decode_png() {
    let conv = AsciiConverter::new(config(2, true, SIMPLE_CHARS, false, ONE));
    let img = conv.load_image_from_memory(&png_bytes(4, 2, [255, 255, 255, 255])).unwrap();
    assert_eq!((img.width, img.height), (4, 2));
    assert!(img.is_valid());
    let grid = conv.convert_to_ascii(&img).unwrap();
    assert_eq!(grid.text, "@@@@\n@@@@\n");
}

#[test]
fn pixel_to_ascii_picks_palette_characters() {
    let conv = AsciiConverter::new(config(2, false, SIMPLE_CHARS, false, ONE));
    assert_eq!(conv.pixel_to_ascii(0), ' ');
    assert_eq!(conv.pixel_to_ascii(255), '@');
    assert_eq!(conv.pixel_to_ascii(128), '+');
}

#[test]
fn accept_decoded_keeps_well_formed_rasters() {
    let img = accept_decoded(Raster { width: 1, height: 2, pixels: vec![1, 2, 3, 4, 5, 6, 7, 8] }).unwrap();
    assert_eq!((img.width, img.height), (1, 2));
    assert_eq!(img.pixels, vec![1, 2, 3, 4, 5, 6, 7, 8]);
}

#[test]
fn accept_decoded_refuses_degenerate_rasters() {
    let zero = Raster { width: 0, height: 3, pixels: vec![] };
    assert!(matches!(accept_decoded(zero), Err(ConvertError::Decode)));
    let short = Raster { width: 2, height: 1, pixels: vec![0; 7] };
    assert!(matches!(accept_decoded(short), Err(ConvertError::Decode)));
}

#[test]
fn grid_from_raster_is_pixel_for_pixel() {
    let img = Raster::new(3, 1, vec![0, 0, 0, 255, 128, 128, 128, 255, 255, 255, 255, 255]).unwrap();
    let conv = AsciiConverter::new(config(99, false, SIMPLE_CHARS, false, HALF));
    let grid = conv.grid_from_raster(&img);
    assert_eq!((grid.columns, grid.rows), (3, 1));
    assert_eq!(grid.text, " +@\n");
}

#[test]
fn decode_failure_on_known_signature_with_bad_body() {
    let conv = AsciiConverter::new(config(2, false, SIMPLE_CHARS, false, ONE));
    assert!(matches!(conv.load_image_from_memory(b"BM garbage"), Err(ConvertError::Decode)));
    assert!(matches!(conv.load_image_from_memory(&[0x89]), Err(ConvertError::Decode)));
}
