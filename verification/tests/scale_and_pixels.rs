use resvg_jni::pixels::rgba8_to_rgb8;
use resvg_jni::scale::{normalize_scale_bits, ONE_BITS};

#[test]
fn one_bits_is_the_pattern_of_one() {
    assert_eq!(ONE_BITS, 1.0f32.to_bits());
}

#[test]
fn nan_scale_normalizes_to_one() {
    assert_eq!(normalize_scale_bits(f32::NAN.to_bits()), ONE_BITS);
    assert_eq!(normalize_scale_bits((-f32::NAN).to_bits()), ONE_BITS);
}

#[test]
fn zero_scale_normalizes_to_one() {
    assert_eq!(normalize_scale_bits(0.0f32.to_bits()), ONE_BITS);
    assert_eq!(normalize_scale_bits((-0.0f32).to_bits()), ONE_BITS);
}

#[test]
fn negative_scale_normalizes_to_one() {
    assert_eq!(normalize_scale_bits((-3.5f32).to_bits()), ONE_BITS);
    assert_eq!(normalize_scale_bits(f32::NEG_INFINITY.to_bits()), ONE_BITS);
    assert_eq!(normalize_scale_bits((-1.0e-20f32).to_bits()), ONE_BITS);
}

#[test]
fn positive_scale_is_kept() {
    assert_eq!(normalize_scale_bits(2.5f32.to_bits()), 2.5f32.to_bits());
    assert_eq!(normalize_scale_bits(1.0f32.to_bits()), ONE_BITS);
    assert_eq!(normalize_scale_bits(0.25f32.to_bits()), 0.25f32.to_bits());
}

#[test]
fn alpha_is_dropped_pixel_for_pixel() {
    let data: Vec<u8> = vec![1, 2, 3, 4, 5, 6, 7, 8, 9, 10, 11, 12];
    let rgb = rgba8_to_rgb8(&data);
    assert_eq!(rgb, vec![1, 2, 3, 5, 6, 7, 9, 10, 11]);
}

#[test]
fn empty_buffer_gives_empty_output() {
    let data: Vec<u8> = Vec::new();
    assert_eq!(rgba8_to_rgb8(&data), Vec::<u8>::new());
}

#[test]
fn trailing_partial_pixel_is_ignored() {
    let data: Vec<u8> = vec![9, 8, 7, 6, 5];
    assert_eq!(rgba8_to_rgb8(&data), vec![9, 8, 7]);
}
