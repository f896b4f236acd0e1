//! Curve-family properties on concrete values: the three fixed points of
//! every family, hand-computed outputs of the easing formulas, and the
//! diagnostic scan of the custom table.

use ds4linux::curve::Curve;
use ds4linux::curve::cubic;
use ds4linux::curve::custom;
use ds4linux::curve::in_out_quad;
use ds4linux::curve::in_quad;
use ds4linux::curve::linear;
use ds4linux::curve::out_quad;
use ds4linux::curve::shape;

const FAMILIES: [Curve; 5] = [
    Curve::Linear,
    Curve::InQuad,
    Curve::OutQuad,
    Curve::Cubic,
    Curve::InOutQuad,
];

#[test]
fn fixed_points_even_max() {
    for f in FAMILIES {
        assert_eq!(shape(f, 0, 100), 0, "{f:?} at 0");
        assert_eq!(shape(f, 100, 100), 100, "{f:?} at max");
        assert_eq!(shape(f, 50, 100), 50, "{f:?} at midpoint");
    }
}

#[test]
fn fixed_points_full_range() {
    for f in FAMILIES {
        assert_eq!(shape(f, 0, 255), 0, "{f:?} at 0");
        assert_eq!(shape(f, 255, 255), 255, "{f:?} at max");
    }
    // The floored midpoint sample keeps the floored midpoint output for all
    // families but the quadratic ease-out, whose floor lands one below on an
    // odd range.
    assert_eq!(shape(Curve::Linear, 127, 255), 127);
    assert_eq!(shape(Curve::InQuad, 127, 255), 127);
    assert_eq!(shape(Curve::Cubic, 127, 255), 127);
    assert_eq!(shape(Curve::InOutQuad, 127, 255), 127);
    assert_eq!(shape(Curve::OutQuad, 127, 255), 126);
}

#[test]
fn fixed_points_custom_table() {
    assert_eq!(shape(Curve::Custom, 0, 255), 0);
    assert_eq!(shape(Curve::Custom, 255, 255), 255);
    assert_eq!(shape(Curve::Custom, 127, 255), 127);
}

#[test]
fn linear_is_identity() {
    for x in 0..=255u8 {
        assert_eq!(linear(x, 255), x);
    }
}

#[test]
fn in_quad_known_values() {
    assert_eq!(in_quad(75, 100), 62);
    assert_eq!(in_quad(25, 100), 37);
    assert_eq!(in_quad(0, 255), 0);
    assert_eq!(in_quad(255, 255), 255);
    assert_eq!(in_quad(50, 100), 50);
}

#[test]
fn out_quad_known_values() {
    assert_eq!(out_quad(75, 100), 87);
    assert_eq!(out_quad(25, 100), 12);
    assert_eq!(out_quad(0, 255), 0);
    assert_eq!(out_quad(255, 255), 255);
    assert_eq!(out_quad(50, 100), 50);
}

#[test]
fn cubic_known_values() {
    assert_eq!(cubic(75, 100), 56);
    assert_eq!(cubic(25, 100), 43);
    assert_eq!(cubic(0, 255), 0);
    assert_eq!(cubic(255, 255), 255);
    assert_eq!(cubic(50, 100), 50);
}

#[test]
fn in_out_quad_known_values() {
    assert_eq!(in_out_quad(10, 100), 4);
    assert_eq!(in_out_quad(30, 100), 34);
    assert_eq!(in_out_quad(60, 100), 54);
    assert_eq!(in_out_quad(75, 100), 75);
    assert_eq!(in_out_quad(0, 100), 0);
    assert_eq!(in_out_quad(50, 100), 50);
    assert_eq!(in_out_quad(100, 100), 100);
}

#[test]
fn custom_table_sample_values() {
    assert_eq!(custom(0, 255), 0);
    assert_eq!(custom(1, 255), 1);
    assert_eq!(custom(6, 255), 7);
    assert_eq!(custom(20, 255), 22);
    assert_eq!(custom(127, 255), 127);
    assert_eq!(custom(128, 255), 128);
    assert_eq!(custom(255, 255), 255);
}

/// Diagnostic scan: the custom table is monotonically non-decreasing over
/// the whole 8-bit domain. A regression that reorders the table shows up as
/// a counted violation here.
#[test]
fn custom_table_is_monotonic() {
    let mut violations: usize = 0;
    for x in 0..255u8 {
        if custom(x + 1, 255) < custom(x, 255) {
            violations += 1;
        }
    }
    assert_eq!(violations, 0);
}

#[test]
fn shaped_output_stays_in_range() {
    for f in FAMILIES {
        for x in 0..=255u8 {
            assert!(shape(f, x, 255) <= 255);
        }
        for x in 0..=100u8 {
            assert!(shape(f, x, 100) <= 100);
        }
    }
}
