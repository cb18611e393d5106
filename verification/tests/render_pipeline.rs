use resvg_jni::errors::RenderError;
use resvg_jni::options::RenderOptions;
use resvg_jni::registry::Registry;
use resvg_jni::render::{encode_canvas, render, RenderType};

const MINIMAL_SVG: &str = "<svg xmlns=\"http://www.w3.org/2000/svg\" width=\"10\" height=\"10\"/>";

const RED_SQUARE_SVG: &str = "<svg xmlns=\"http://www.w3.org/2000/svg\" width=\"8\" height=\"8\">\
<rect x=\"0\" y=\"0\" width=\"8\" height=\"8\" fill=\"#ff0000\"/></svg>";

fn opts() -> RenderOptions {
    RenderOptions::new(String::new())
}

#[test]
fn png_output_decodes_to_the_scaled_size() {
    let o = opts();
    let png = render(MINIMAL_SVG, &o, 1.0f32.to_bits(), RenderType::Png).unwrap();
    let img = image::load_from_memory(&png).unwrap();
    assert_eq!(img.width(), 10);
    assert_eq!(img.height(), 10);

    let png2 = render(MINIMAL_SVG, &o, 2.0f32.to_bits(), RenderType::Png).unwrap();
    let img2 = image::load_from_memory(&png2).unwrap();
    assert_eq!(img2.width(), 20);
    assert_eq!(img2.height(), 20);

    let png_half = render(MINIMAL_SVG, &o, 0.5f32.to_bits(), RenderType::Png).unwrap();
    let img_half = image::load_from_memory(&png_half).unwrap();
    assert_eq!(img_half.width(), 5);
    assert_eq!(img_half.height(), 5);
}

#[test]
fn non_positive_and_nan_scales_render_as_scale_one() {
    let o = opts();
    let at_one = render(RED_SQUARE_SVG, &o, 1.0f32.to_bits(), RenderType::Png).unwrap();
    for bits in [
        0.0f32.to_bits(),
        (-0.0f32).to_bits(),
        (-1.0f32).to_bits(),
        (-123.5f32).to_bits(),
        f32::NAN.to_bits(),
        f32::NEG_INFINITY.to_bits(),
    ] {
        let out = render(RED_SQUARE_SVG, &o, bits, RenderType::Png).unwrap();
        assert_eq!(out, at_one);
    }
}

#[test]
fn jpeg_output_has_exactly_three_components() {
    let o = opts();
    let jpg = render(RED_SQUARE_SVG, &o, 1.0f32.to_bits(), RenderType::Jpeg).unwrap();
    assert_eq!(&jpg[0..2], &[0xFF, 0xD8]);
    let img = image::load_from_memory(&jpg).unwrap();
    assert_eq!(img.color().channel_count(), 3);
    assert!(!img.color().has_alpha());
    let rgb = img.to_rgb8();
    let p = rgb.get_pixel(4, 4);
    assert!(p[0] > 200 && p[1] < 60 && p[2] < 60);
}

#[test]
fn malformed_xml_raises_parse_error_and_no_bytes() {
    let o = opts();
    let r = render("<svg width=\"10\"", &o, 1.0f32.to_bits(), RenderType::Png);
    assert!(matches!(r, Err(RenderError::Parse(_))));
}

#[test]
fn well_formed_non_svg_root_is_rejected_by_the_parser() {
    let o = opts();
    let r = render("<html></html>", &o, 1.0f32.to_bits(), RenderType::Png);
    assert!(matches!(r, Err(RenderError::Parse(_))));
}

#[test]
fn unresolvable_document_raises_build_error() {
    let o = opts();
    let r = render(
        "<svg xmlns=\"http://www.w3.org/2000/svg\" width=\"0\" height=\"0\"/>",
        &o,
        1.0f32.to_bits(),
        RenderType::Png,
    );
    assert!(matches!(r, Err(RenderError::Build(_))));
}

#[test]
fn vanishing_scale_raises_size_error() {
    let o = opts();
    let r = render(MINIMAL_SVG, &o, 1.0e-9f32.to_bits(), RenderType::Png);
    assert!(matches!(r, Err(RenderError::Size)));
}

#[test]
fn oversized_scale_raises_allocation_error() {
    let o = opts();
    let r = render(MINIMAL_SVG, &o, 1.0e30f32.to_bits(), RenderType::Png);
    assert!(matches!(r, Err(RenderError::Allocation)));
}

#[test]
fn repeated_renders_of_one_configuration_are_byte_identical() {
    let mut reg = Registry::new();
    let h = reg.create(String::new());
    reg.set_shape_rendering(h, 2).unwrap();
    let bits = 1.5f32.to_bits();
    let first = reg.render(h, RED_SQUARE_SVG, bits, RenderType::Png).unwrap();
    let second = reg.render(h, RED_SQUARE_SVG, bits, RenderType::Png).unwrap();
    assert_eq!(first, second);
    let jpg1 = reg.render(h, RED_SQUARE_SVG, bits, RenderType::Jpeg).unwrap();
    let jpg2 = reg.render(h, RED_SQUARE_SVG, bits, RenderType::Jpeg).unwrap();
    assert_eq!(jpg1, jpg2);
    reg.destroy(h).unwrap();
}

#[test]
fn registry_renders_through_a_live_handle() {
    let mut reg = Registry::new();
    let h = reg.create(String::new());
    let png = reg.render(h, MINIMAL_SVG, 3.0f32.to_bits(), RenderType::Png).unwrap();
    let img = image::load_from_memory(&png).unwrap();
    assert_eq!((img.width(), img.height()), (30, 30));
    let red = reg.render(h, RED_SQUARE_SVG, 1.0f32.to_bits(), RenderType::Png).unwrap();
    let rgba = image::load_from_memory(&red).unwrap().to_rgba8();
    assert_eq!(rgba.get_pixel(4, 4), &image::Rgba([255u8, 0, 0, 255]));
    reg.destroy(h).unwrap();
}

#[test]
fn encode_canvas_produces_the_chosen_container() {
    let data: Vec<u8> = vec![0u8; 4 * 3 * 2];
    let png = encode_canvas(data.clone(), 3, 2, RenderType::Png).unwrap();
    assert_eq!(&png[0..4], &[0x89, b'P', b'N', b'G']);
    assert_ne!(png, data);
    let img = image::load_from_memory(&png).unwrap();
    assert_eq!((img.width(), img.height()), (3, 2));

    let jpg = encode_canvas(data.clone(), 3, 2, RenderType::Jpeg).unwrap();
    assert_eq!(&jpg[0..2], &[0xFF, 0xD8]);
    assert_ne!(jpg, data);
}

#[test]
fn encode_jpg_encodes_a_whole_canvas() {
    let map = resvg::tiny_skia::Pixmap::new(4, 4).unwrap();
    let jpg = resvg_jni::render::encode_jpg(map).unwrap();
    assert_eq!(&jpg[0..2], &[0xFF, 0xD8]);
    let img = image::load_from_memory(&jpg).unwrap();
    assert_eq!((img.width(), img.height()), (4, 4));
}
