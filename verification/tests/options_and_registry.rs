use resvg_jni::errors::RenderError;
use resvg_jni::modes::{ImageMode, ShapeMode, TextMode};
use resvg_jni::options::RenderOptions;
use resvg_jni::registry::Registry;
use resvg_jni::render::RenderType;

#[test]
fn fresh_options_have_defaults_and_empty_catalog() {
    let o = RenderOptions::new(String::from("/tmp/resources"));
    assert_eq!(o.resources_dir, "/tmp/resources");
    assert_eq!(o.font_count(), 0);
    assert_eq!(o.shape_rendering, ShapeMode::GeometricPrecision);
    assert_eq!(o.text_rendering, TextMode::OptimizeLegibility);
    assert_eq!(o.image_rendering, ImageMode::OptimizeQuality);
}

#[test]
fn setters_accept_codes_in_the_closed_set() {
    let mut o = RenderOptions::new(String::new());
    o.set_shape_rendering(0);
    assert_eq!(o.shape_rendering, ShapeMode::OptimizeSpeed);
    o.set_shape_rendering(1);
    assert_eq!(o.shape_rendering, ShapeMode::CrispEdges);
    o.set_text_rendering(0);
    assert_eq!(o.text_rendering, TextMode::OptimizeSpeed);
    o.set_text_rendering(2);
    assert_eq!(o.text_rendering, TextMode::GeometricPrecision);
    o.set_image_rendering(1);
    assert_eq!(o.image_rendering, ImageMode::OptimizeSpeed);
    o.set_image_rendering(0);
    assert_eq!(o.image_rendering, ImageMode::OptimizeQuality);
}

#[test]
fn out_of_range_code_keeps_previous_value_and_raises_nothing() {
    let mut o = RenderOptions::new(String::new());
    o.set_shape_rendering(1);
    o.set_shape_rendering(99);
    assert_eq!(o.shape_rendering, ShapeMode::CrispEdges);
    o.set_shape_rendering(-1);
    assert_eq!(o.shape_rendering, ShapeMode::CrispEdges);
    o.set_text_rendering(99);
    assert_eq!(o.text_rendering, TextMode::OptimizeLegibility);
    o.set_image_rendering(2);
    assert_eq!(o.image_rendering, ImageMode::OptimizeQuality);
}

#[test]
fn loading_a_missing_font_file_changes_nothing_and_raises_nothing() {
    let mut o = RenderOptions::new(String::new());
    assert!(!o.try_load_font("/no/such/directory/missing-font.ttf"));
    assert_eq!(o.font_count(), 0);
    o.load_fonts_dir("/no/such/directory/at/all");
    assert_eq!(o.font_count(), 0);
}

#[test]
fn registry_reports_a_missing_font_file_and_keeps_the_catalog() {
    let mut reg = Registry::new();
    let h = reg.create(String::new());
    assert!(matches!(reg.load_font(h, "/no/such/font.ttf"), Ok(false)));
    assert!(matches!(reg.font_count(h), Ok(0)));
    reg.destroy(h).unwrap();
}

#[test]
fn snapshot_of_a_live_handle_matches_and_of_a_destroyed_handle_fails() {
    let mut reg = Registry::new();
    let h = reg.create(String::from("dir"));
    reg.set_shape_rendering(h, 0).unwrap();
    let snap = reg.snapshot(h).unwrap();
    assert_eq!(snap.resources_dir, "dir");
    assert_eq!(snap.shape_rendering, ShapeMode::OptimizeSpeed);
    assert_eq!(snap.font_count(), 0);
    reg.destroy(h).unwrap();
    assert!(matches!(reg.snapshot(h), Err(RenderError::InvalidHandle)));
}

#[test]
fn system_font_load_is_best_effort() {
    let mut o = RenderOptions::new(String::new());
    o.load_system_fonts();
}

#[test]
fn snapshot_copies_configuration() {
    let mut o = RenderOptions::new(String::from("dir"));
    o.set_shape_rendering(0);
    let snap = o.get_options();
    assert_eq!(snap.resources_dir, "dir");
    assert_eq!(snap.shape_rendering, ShapeMode::OptimizeSpeed);
    assert_eq!(snap.font_count(), o.font_count());
}

#[test]
fn create_then_destroy_once_succeeds() {
    let mut reg = Registry::new();
    let h = reg.create(String::new());
    assert!(matches!(reg.font_count(h), Ok(0)));
    assert!(reg.destroy(h).is_ok());
}

#[test]
fn operations_on_a_destroyed_handle_raise_invalid_handle() {
    let mut reg = Registry::new();
    let h = reg.create(String::from("dir"));
    reg.destroy(h).unwrap();
    assert!(matches!(reg.destroy(h), Err(RenderError::InvalidHandle)));
    assert!(matches!(reg.set_shape_rendering(h, 1), Err(RenderError::InvalidHandle)));
    assert!(matches!(reg.set_text_rendering(h, 1), Err(RenderError::InvalidHandle)));
    assert!(matches!(reg.set_image_rendering(h, 1), Err(RenderError::InvalidHandle)));
    assert!(matches!(reg.load_font(h, "x.ttf"), Err(RenderError::InvalidHandle)));
    assert!(matches!(reg.load_fonts_dir(h, "fonts"), Err(RenderError::InvalidHandle)));
    assert!(matches!(reg.load_system_fonts(h), Err(RenderError::InvalidHandle)));
    assert!(matches!(reg.font_count(h), Err(RenderError::InvalidHandle)));
    assert!(matches!(
        reg.render(h, "<svg/>", 1.0f32.to_bits(), RenderType::Png),
        Err(RenderError::InvalidHandle)
    ));
}

#[test]
fn a_never_issued_handle_is_invalid() {
    let mut reg = Registry::new();
    let h = reg.create(String::new());
    assert!(matches!(reg.set_shape_rendering(h + 7, 1), Err(RenderError::InvalidHandle)));
    assert!(matches!(reg.destroy(h + 7), Err(RenderError::InvalidHandle)));
    assert!(reg.destroy(h).is_ok());
}

#[test]
fn destroying_one_handle_leaves_others_alive() {
    let mut reg = Registry::new();
    let a = reg.create(String::from("a"));
    let b = reg.create(String::from("b"));
    reg.destroy(a).unwrap();
    assert!(matches!(reg.font_count(b), Ok(0)));
    assert!(reg.set_shape_rendering(b, 2).is_ok());
    assert!(reg.destroy(b).is_ok());
}
