use scene_core::byte_swap;
use scene_core::byte_swap_and_premultiply;
use scene_core::image::{normalize, ImageFormat, SourceFormat};
use scene_core::is_gif;
use scene_core::pixel::is_png;
use scene_core::SceneError;

#[test]
fn swap_exchanges_bytes_zero_and_two() {
    let mut data: Vec<u8> = vec![1, 2, 3, 4, 10, 20, 30, 40];
    byte_swap(&mut data);
    assert_eq!(data, vec![3, 2, 1, 4, 30, 20, 10, 40]);
}

#[test]
fn swap_twice_restores_original() {
    let original: Vec<u8> = vec![9, 8, 7, 6, 5, 4, 3, 2, 1, 0, 255, 128];
    let mut data = original.clone();
    byte_swap(&mut data);
    byte_swap(&mut data);
    assert_eq!(data, original);
}

#[test]
fn premultiply_formula_exact() {
    // channel * alpha / 255, truncating: 10*128/255 = 5, 20*128/255 = 10,
    // 30*128/255 = 15; stored swapped as B,G,R,A.
    let mut data: Vec<u8> = vec![10, 20, 30, 128];
    byte_swap_and_premultiply(&mut data);
    assert_eq!(data, vec![15, 10, 5, 128]);
}

#[test]
fn premultiply_opaque_pixel_matches_swap_only() {
    let pixel: Vec<u8> = vec![11, 22, 33, 255];
    let mut premultiplied = pixel.clone();
    byte_swap_and_premultiply(&mut premultiplied);
    let mut swapped = pixel.clone();
    byte_swap(&mut swapped);
    assert_eq!(premultiplied, swapped);
}

#[test]
fn premultiply_transparent_pixel_zeroes_colour() {
    let mut data: Vec<u8> = vec![200, 100, 50, 0];
    byte_swap_and_premultiply(&mut data);
    assert_eq!(data, vec![0, 0, 0, 0]);
}

#[test]
fn normalize_opaque_path_swaps_only() {
    let r = normalize(SourceFormat::OpaqueRgba, 1, 1, vec![1, 2, 3, 200]).unwrap();
    assert_eq!(r.bytes, vec![3, 2, 1, 200]);
    assert_eq!(r.width, 1);
    assert_eq!(r.height, 1);
    assert_eq!(r.format, ImageFormat::Rgba8);
}

#[test]
fn normalize_rgb_path_keeps_rgb_tag() {
    let r = normalize(SourceFormat::OpaqueRgb, 2, 1, vec![1, 2, 3, 4, 5, 6, 7, 8]).unwrap();
    assert_eq!(r.format, ImageFormat::Rgb8);
    assert_eq!(r.bytes, vec![3, 2, 1, 4, 7, 6, 5, 8]);
}

#[test]
fn normalize_straight_alpha_path_premultiplies() {
    let r = normalize(SourceFormat::StraightRgba, 1, 1, vec![10, 20, 30, 128]).unwrap();
    assert_eq!(r.bytes, vec![15, 10, 5, 128]);
    assert_eq!(r.format, ImageFormat::Rgba8);
}

#[test]
fn normalize_ragged_buffer_fails_malformed_on_both_paths() {
    let swap_only = normalize(SourceFormat::OpaqueRgba, 1, 1, vec![1, 2, 3, 4, 5, 6]);
    assert_eq!(swap_only.unwrap_err(), SceneError::MalformedImageBuffer);
    let premultiplying = normalize(SourceFormat::StraightRgba, 1, 1, vec![1, 2, 3, 4, 5, 6]);
    assert_eq!(premultiplying.unwrap_err(), SceneError::MalformedImageBuffer);
}

#[test]
fn normalize_unsupported_formats_rejected() {
    let alpha_only = normalize(SourceFormat::AlphaOnly, 1, 1, vec![1, 2, 3, 4]);
    assert_eq!(alpha_only.unwrap_err(), SceneError::UnsupportedPixelFormat);
    let lum_alpha = normalize(SourceFormat::LuminanceAlpha, 1, 1, vec![1, 2, 3, 4]);
    assert_eq!(lum_alpha.unwrap_err(), SceneError::UnsupportedPixelFormat);
    let hdr = normalize(SourceFormat::HighDynamicRange, 1, 1, vec![1, 2, 3, 4]);
    assert_eq!(hdr.unwrap_err(), SceneError::UnsupportedPixelFormat);
}

#[test]
fn gif_signature_detection() {
    assert!(is_gif(b"GIF87a rest"));
    assert!(is_gif(b"GIF89a rest"));
    assert!(!is_gif(b"GIF88a rest"));
    assert!(!is_gif(b"GIF8"));
    assert!(!is_gif(b"PNG niente"));
}

#[test]
fn png_signature_detection() {
    assert!(is_png(&[137, 80, 78, 71, 13, 10, 26, 10, 0, 0]));
    assert!(!is_png(&[137, 80, 78, 71, 13, 10, 26]));
    assert!(!is_png(b"GIF89a??"));
}
