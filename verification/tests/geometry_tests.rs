use prompt_studio::geometry::{compute_crop_rect, CropRect, TransformError};

fn rect(iw: u64, ih: u64, ow: u64, oh: u64) -> CropRect {
    compute_crop_rect(iw, ih, ow, oh).expect("expected a crop rectangle")
}

fn assert_law(c: &CropRect, iw: u64, ih: u64, ow: u64, oh: u64) {
    assert_eq!(c.den, 2 * ow * oh);
    assert!(c.x_num + c.w_num <= iw * c.den);
    assert!(c.y_num + c.h_num <= ih * c.den);
    // centered along both axes (the uncropped one is spanned fully)
    assert_eq!(2 * c.x_num + c.w_num, iw * c.den);
    assert_eq!(2 * c.y_num + c.h_num, ih * c.den);
    // exact target ratio
    assert_eq!(c.w_num * oh, c.h_num * ow);
    // and within floating-point tolerance as real numbers
    let ratio = c.w_num as f64 / c.h_num as f64;
    assert!((ratio - ow as f64 / oh as f64).abs() < 1e-9);
}

#[test]
fn wide_source_keeps_full_height_and_centers_horizontally() {
    // 4000x2000 is wider than 16:9, so the height is kept in full and
    // the width is cropped to 2000 * 16/9 = 3555.5..., centered.
    let c = rect(4000, 2000, 1600, 900);
    assert_law(&c, 4000, 2000, 1600, 900);
    assert_eq!(c.y_num, 0);
    assert_eq!(c.h_num, 2000 * c.den);
    assert_eq!(c.w_num as f64 / c.den as f64, 32000.0 / 9.0);
    let x = c.x_num as f64 / c.den as f64;
    assert!((x - (4000.0 - 32000.0 / 9.0) / 2.0).abs() < 1e-9);
}

#[test]
fn tall_source_keeps_full_width_and_centers_vertically() {
    // 1000x1000 is taller than 16:9: full width, height cropped to
    // 1000 / (16/9) = 562.5, centered: y = (1000 - 562.5) / 2.
    let c = rect(1000, 1000, 1600, 900);
    assert_law(&c, 1000, 1000, 1600, 900);
    assert_eq!(c.x_num, 0);
    assert_eq!(c.w_num, 1000 * c.den);
    assert_eq!(c.h_num as f64 / c.den as f64, 562.5);
    assert_eq!(c.y_num as f64 / c.den as f64, 218.75);
}

#[test]
fn exact_ratio_source_is_kept_whole() {
    let c = rect(1600, 900, 1600, 900);
    assert_law(&c, 1600, 900, 1600, 900);
    assert_eq!(c.x_num, 0);
    assert_eq!(c.y_num, 0);
    assert_eq!(c.w_num, 1600 * c.den);
    assert_eq!(c.h_num, 900 * c.den);
}

#[test]
fn law_holds_across_many_shapes() {
    for (iw, ih) in [
        (2, 2),
        (2, 10000),
        (10000, 2),
        (3, 5),
        (640, 480),
        (1920, 1080),
        (4000, 2000),
        (999, 1001),
    ] {
        let c = rect(iw, ih, 1600, 900);
        assert_law(&c, iw, ih, 1600, 900);
    }
}

#[test]
fn degenerate_sources_fail_decoding() {
    assert_eq!(compute_crop_rect(1, 500, 1600, 900), Err(TransformError::DecodeError));
    assert_eq!(compute_crop_rect(500, 1, 1600, 900), Err(TransformError::DecodeError));
    assert_eq!(compute_crop_rect(0, 0, 1600, 900), Err(TransformError::DecodeError));
}
