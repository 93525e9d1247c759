use scene_core::image::{load_from_memory, ImageFormat, ImageResource};
use scene_core::samples::{build_blend_scene, build_sample_scene};
use scene_core::scene::SceneApi;
use scene_core::stacking::MixBlendMode;

fn encode_png_rgba(width: u32, height: u32, pixels: &[u8]) -> Vec<u8> {
    let mut out: Vec<u8> = Vec::new();
    {
        let mut encoder = png::Encoder::new(&mut out, width, height);
        encoder.set_color(png::ColorType::Rgba);
        encoder.set_depth(png::BitDepth::Eight);
        let mut writer = encoder.write_header().unwrap();
        writer.write_image_data(pixels).unwrap();
    }
    out
}

// A 1x1 GIF89a with a two-entry palette whose first colour is pure red.
fn tiny_red_gif() -> Vec<u8> {
    vec![
        0x47, 0x49, 0x46, 0x38, 0x39, 0x61, // GIF89a
        0x01, 0x00, 0x01, 0x00, // 1 x 1
        0x80, 0x00, 0x00, // global colour table, 2 entries
        0xFF, 0x00, 0x00, // colour 0: red
        0x00, 0x00, 0x00, // colour 1: black
        0x2C, 0x00, 0x00, 0x00, 0x00, 0x01, 0x00, 0x01, 0x00, 0x00, // image descriptor
        0x02, 0x02, 0x44, 0x01, 0x00, // LZW data: single pixel of colour 0
        0x3B, // trailer
    ]
}

#[test]
fn empty_buffer_loads_nothing() {
    assert!(load_from_memory(&[]).is_none());
}

#[test]
fn garbage_buffer_loads_nothing() {
    assert!(load_from_memory(&[1, 2, 3, 4, 5, 6, 7, 8, 9, 10]).is_none());
}

#[test]
fn png_decodes_premultiplied_and_swapped() {
    // Straight-alpha source pixel (10, 20, 30, 128) premultiplies to
    // (5, 10, 15, 128) and is stored B,G,R,A.
    let bytes = encode_png_rgba(1, 1, &[10, 20, 30, 128]);
    let img = load_from_memory(&bytes).unwrap();
    assert_eq!(img.width, 1);
    assert_eq!(img.height, 1);
    assert_eq!(img.format, ImageFormat::Rgba8);
    assert_eq!(img.bytes, vec![15, 10, 5, 128]);
}

#[test]
fn png_two_pixels_keep_order() {
    let bytes = encode_png_rgba(2, 1, &[255, 0, 0, 255, 0, 0, 255, 255]);
    let img = load_from_memory(&bytes).unwrap();
    assert_eq!(img.bytes, vec![0, 0, 255, 255, 255, 0, 0, 255]);
}

#[test]
fn gif_decodes_premultiplied_and_swapped() {
    let bytes = tiny_red_gif();
    let img = load_from_memory(&bytes).unwrap();
    assert_eq!(img.width, 1);
    assert_eq!(img.height, 1);
    assert_eq!(img.format, ImageFormat::Rgba8);
    // Opaque red (255,0,0,255) stays red under premultiplication and is
    // stored B,G,R,A: decode handing its input through unchanged would fail
    // both the length and the channel order checked here.
    assert_eq!(img.bytes, vec![0, 0, 255, 255]);
}

#[test]
fn sample_scene_paints_main_list_then_child() {
    let mut api = SceneApi::new();
    let image = ImageResource {
        bytes: vec![0, 0, 255, 255],
        width: 1,
        height: 1,
        format: ImageFormat::Rgba8,
    };
    let root = build_sample_scene(&mut api, 800, 600, vec![1, 2, 3], image);
    assert_eq!(root.paint_order(), vec![0, 1]);
    assert_eq!(api.get_display_list(0).unwrap().items.len(), 8);
    assert_eq!(api.get_display_list(1).unwrap().items.len(), 1);
    assert_eq!(root.children.len(), 1);
}

#[test]
fn blend_scene_has_three_difference_children() {
    let mut api = SceneApi::new();
    let root = build_blend_scene(&mut api, 800, 600);
    assert_eq!(root.paint_order(), vec![0, 1, 2]);
    assert_eq!(root.blend_mode, MixBlendMode::Normal);
    assert_eq!(root.children.len(), 3);
    for child in &root.children {
        assert_eq!(child.blend_mode, MixBlendMode::Difference);
    }
    let prims = api.paint_primitives(&root);
    assert_eq!(prims.len(), 3);
}

#[test]
fn indexed_png_expands_to_rgb() {
    // A 4x1 paletted PNG whose only colour is red expands to 8-bit RGB
    // (12 bytes); the fixed 4-byte-stride swap then crosses pixel
    // boundaries, exactly as the plain swap pass defines it.
    let mut out: Vec<u8> = Vec::new();
    {
        let mut encoder = png::Encoder::new(&mut out, 4, 1);
        encoder.set_color(png::ColorType::Indexed);
        encoder.set_depth(png::BitDepth::Eight);
        encoder.set_palette(vec![255u8, 0, 0]);
        let mut writer = encoder.write_header().unwrap();
        writer.write_image_data(&[0, 0, 0, 0]).unwrap();
    }
    let img = load_from_memory(&out).unwrap();
    assert_eq!(img.format, ImageFormat::Rgb8);
    assert_eq!(img.width, 4);
    assert_eq!(img.height, 1);
    assert_eq!(img.bytes, vec![0, 0, 255, 255, 255, 0, 0, 0, 0, 255, 0, 0]);
}
