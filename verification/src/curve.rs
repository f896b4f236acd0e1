//! Response curves: pure integer maps from a raw axis sample in `0..=max` to
//! a shaped output in the same range. Every family is built around the axis
//! midpoint `max / 2` (the stick's rest position) and mirrors its easing on
//! both sides of it. The mathematical value of each curve is a rational with
//! denominator `2 * max` (or `2 * max * max` for the cubic); the functions
//! here return its floor, which is also what a truncating cast of the real
//! value would emit.

use vstd::prelude::*;
use vstd::arithmetic::div_mod::lemma_div_of0;
use vstd::arithmetic::div_mod::lemma_fundamental_div_mod_converse_div;
use crate::curve_table::custom_table_at;
use crate::curve_table::custom_seg0;
use crate::curve_table::custom_seg1;
use crate::curve_table::custom_seg2;
use crate::curve_table::custom_seg3;

verus! {

/// The closed set of curve families. Selection is a per-axis configuration
/// choice; the diff and emit stages never depend on which family an axis
/// uses.
#[derive(Debug, Clone, Copy, PartialEq, Eq, Structural)]
pub enum Curve {
    Linear,
    InQuad,
    OutQuad,
    Cubic,
    InOutQuad,
    Custom,
}

/// Quadratic ease-in around the midpoint: the distance from the midpoint is
/// normalized by the half-range, squared, and rescaled; below the midpoint
/// the mirrored complement is used. Value: floor of the exact rational.
pub open spec fn in_quad_spec(x: int, max: int) -> int
    recommends
        0 <= x <= max,
        1 <= max,
{
    let d = 2 * x - max;
    if d > 0 {
        (d * d + max * max) / (2 * max)
    } else {
        (max * max - d * d) / (2 * max)
    }
}

/// Quadratic ease-out around the midpoint: the complement `1 - (1 - n)^2` of
/// the ease-in above the midpoint, and the plain square below it.
pub open spec fn out_quad_spec(x: int, max: int) -> int
    recommends
        0 <= x <= max,
        1 <= max,
{
    let d = 2 * x - max;
    if d > 0 {
        (d * (2 * max - d) + max * max) / (2 * max)
    } else {
        (4 * x * x) / (2 * max)
    }
}

/// Cubic ease-in around the midpoint. The mirrored construction produces the
/// same polynomial on both sides of the midpoint, so a single formula covers
/// the whole range.
pub open spec fn cubic_spec(x: int, max: int) -> int
    recommends
        0 <= x <= max,
        1 <= max,
{
    let d = 2 * x - max;
    (d * d * d + max * max * max) / (2 * max * max)
}

/// Quadratic ease-in-out around the midpoint: inside the middle half of the
/// range (distance from the midpoint strictly below a quarter range) the
/// ease-in formula is used, outside it the ease-out formula, each mirrored
/// below the midpoint.
pub open spec fn in_out_quad_spec(x: int, max: int) -> int
    recommends
        0 <= x <= max,
        1 <= max,
{
    let d = 2 * x - max;
    let ad = if d < 0 {
        -d
    } else {
        d
    };
    if 2 * ad < max {
        if d > 0 {
            (2 * d * d + max * max) / (2 * max)
        } else {
            (8 * x * max - 8 * x * x - max * max) / (2 * max)
        }
    } else {
        if d > 0 {
            (4 * d * max - 2 * d * d) / (2 * max)
        } else {
            (8 * x * x) / (2 * max)
        }
    }
}

/// The shaped output of one curve family for a raw sample. The table-driven
/// family ignores `max`: it is defined for the 8-bit domain only.
pub open spec fn shape_spec(c: Curve, x: int, max: int) -> int
    recommends
        0 <= x <= max,
        1 <= max,
{
    match c {
        Curve::Linear => x,
        Curve::InQuad => in_quad_spec(x, max),
        Curve::OutQuad => out_quad_spec(x, max),
        Curve::Cubic => cubic_spec(x, max),
        Curve::InOutQuad => in_out_quad_spec(x, max),
        Curve::Custom => custom_table_at(x),
    }
}

/// Identity curve: the raw sample passes through unchanged.
pub fn linear(x: u8, _max: u8) -> (r: u8)
    ensures
        r == x,
{
    x
}

/// Quadratic ease-in value of `x` going outwards from the middle of the
/// `0..=max` range.
pub fn in_quad(x: u8, max: u8) -> (r: u8)
    requires
        1 <= max,
        x <= max,
    ensures
        r as int == in_quad_spec(x as int, max as int),
        r <= max,
{
    let xi: u32 = x as u32;
    let m: u32 = max as u32;
    let num: u32 = if 2 * xi > m {
        let d: u32 = 2 * xi - m;
        assert(d * d <= m * m && m * m <= 65025 && d * d + m * m <= m * (2 * m))
            by (nonlinear_arith)
            requires
                d <= m <= 255,
        ;
        d * d + m * m
    } else {
        let e: u32 = m - 2 * xi;
        assert(e * e <= m * m && m * m <= 65025 && m * m - e * e <= m * (2 * m))
            by (nonlinear_arith)
            requires
                e <= m <= 255,
                1 <= m,
        ;
        assert((2 * (x as int) - (max as int)) * (2 * (x as int) - (max as int)) == e * e)
            by (nonlinear_arith)
            requires
                e == max - 2 * (x as int),
        ;
        m * m - e * e
    };
    let den: u32 = 2 * m;
    let q: u32 = num / den;
    proof {
        lemma_quotient_at_most(num as int, m as int);
    }
    q as u8
}

/// Quadratic ease-out value of `x` going outwards from the middle of the
/// `0..=max` range.
pub fn out_quad(x: u8, max: u8) -> (r: u8)
    requires
        1 <= max,
        x <= max,
    ensures
        r as int == out_quad_spec(x as int, max as int),
        r <= max,
{
    let xi: u32 = x as u32;
    let m: u32 = max as u32;
    let num: u32 = if 2 * xi > m {
        let d: u32 = 2 * xi - m;
        assert(d * (2 * m - d) <= m * m && m * m <= 65025 && d * (2 * m - d) + m * m <= m * (2
            * m)) by (nonlinear_arith)
            requires
                0 <= d <= m <= 255,
        ;
        d * (2 * m - d) + m * m
    } else {
        assert(4 * xi * xi <= m * (2 * m) && m * (2 * m) <= 130050) by (nonlinear_arith)
            requires
                2 * xi <= m <= 255,
        ;
        4 * xi * xi
    };
    let den: u32 = 2 * m;
    let q: u32 = num / den;
    proof {
        lemma_quotient_at_most(num as int, m as int);
    }
    q as u8
}

/// Cubic ease-in value of `x` going outwards from the middle of the
/// `0..=max` range.
pub fn cubic(x: u8, max: u8) -> (r: u8)
    requires
        1 <= max,
        x <= max,
    ensures
        r as int == cubic_spec(x as int, max as int),
        r <= max,
{
    let xi: i64 = x as i64;
    let m: i64 = max as i64;
    let d: i64 = 2 * xi - m;
    assert(0 <= d * d <= 65025 && -16581375 <= d * d * d <= 16581375 && 0 < m * m <= 65025 && 0 < m
        * m * m <= 16581375 && 0 < 2 * m * m <= 130050) by (nonlinear_arith)
        requires
            -255 <= d <= 255,
            1 <= m <= 255,
    ;
    proof {
        lemma_cube_num_bounds(d as int, m as int);
    }
    let num: i64 = d * d * d + m * m * m;
    let den: i64 = 2 * m * m;
    assert(den >= 2) by (nonlinear_arith)
        requires
            den == 2 * m * m,
            m >= 1,
    ;
    let q: u64 = (num as u64) / (den as u64);
    proof {
        lemma_quotient_at_most_general(num as int, m as int, den as int);
    }
    q as u8
}

/// Quadratic ease-in-out value of `x`: ease-in inside the middle half of the
/// `0..=max` range, ease-out outside it, mirrored around the midpoint.
pub fn in_out_quad(x: u8, max: u8) -> (r: u8)
    requires
        1 <= max,
        x <= max,
    ensures
        r as int == in_out_quad_spec(x as int, max as int),
        r <= max,
{
    let xi: i64 = x as i64;
    let m: i64 = max as i64;
    let d: i64 = 2 * xi - m;
    let ad: i64 = if d < 0 {
        -d
    } else {
        d
    };
    let num: i64 = if 2 * ad < m {
        if d > 0 {
            assert(0 <= 2 * d * d <= 130050 && 0 < m * m <= 65025 && 2 * d * d + m * m <= m * (2
                * m)) by (nonlinear_arith)
                requires
                    0 < 2 * d <= m <= 255,
            ;
            2 * d * d + m * m
        } else {
            assert(0 <= 8 * xi * m <= 520200 && 0 <= 8 * xi * xi <= 520200 && 0 < m * m <= 65025
                && 0 <= 8 * xi * m - 8 * xi * xi - m * m <= m * (2 * m)) by (nonlinear_arith)
                requires
                    m < 4 * xi,
                    2 * xi <= m <= 255,
                    1 <= m,
            ;
            8 * xi * m - 8 * xi * xi - m * m
        }
    } else {
        if d > 0 {
            assert(0 <= 4 * d * m <= 260100 && 0 <= 2 * d * d <= 130050 && 0 <= 4 * d * m - 2 * d
                * d <= m * (2 * m)) by (nonlinear_arith)
                requires
                    0 < d <= m <= 255,
            ;
            4 * d * m - 2 * d * d
        } else {
            assert(0 <= 8 * xi * xi <= m * (2 * m) && m * (2 * m) <= 130050) by (nonlinear_arith)
                requires
                    0 <= 2 * xi <= m <= 255,
            ;
            8 * xi * xi
        }
    };
    let den: i64 = 2 * m;
    let q: u64 = (num as u64) / (den as u64);
    proof {
        lemma_quotient_at_most(num as int, m as int);
    }
    q as u8
}

/// Table-driven curve: a lookup of the precomputed shaped output for the raw
/// sample. Defined for the 8-bit domain only; `max` is ignored.
pub fn custom(x: u8, _max: u8) -> (r: u8)
    ensures
        r as int == custom_table_at(x as int),
{
    if x < 64 {
        custom_seg0(x)
    } else if x < 128 {
        custom_seg1(x)
    } else if x < 192 {
        custom_seg2(x)
    } else {
        custom_seg3(x)
    }
}

/// Shapes one raw sample through the chosen curve family.
pub fn shape(c: Curve, x: u8, max: u8) -> (r: u8)
    requires
        1 <= max,
        x <= max,
    ensures
        r as int == shape_spec(c, x as int, max as int),
        !(c is Custom) ==> r <= max,
{
    match c {
        Curve::Linear => linear(x, max),
        Curve::InQuad => in_quad(x, max),
        Curve::OutQuad => out_quad(x, max),
        Curve::Cubic => cubic(x, max),
        Curve::InOutQuad => in_out_quad(x, max),
        Curve::Custom => custom(x, max),
    }
}

/// A numerator at most `m * (2 * m)` divided by `2 * m` is at most `m`.
proof fn lemma_quotient_at_most(num: int, m: int)
    requires
        1 <= m,
        0 <= num <= m * (2 * m),
    ensures
        0 <= num / (2 * m) <= m,
{
    lemma_quotient_at_most_general(num, m, 2 * m);
}

/// A nonnegative numerator at most `m * den` divided by `den` is at most `m`.
proof fn lemma_quotient_at_most_general(num: int, m: int, den: int)
    requires
        1 <= m,
        2 <= den,
        0 <= num <= m * den,
    ensures
        0 <= num / den <= m,
{
    assert(num / den >= 0) by (nonlinear_arith)
        requires
            num >= 0,
            den >= 2,
    ;
    assert(num / den <= m) by (nonlinear_arith)
        requires
            num <= m * den,
            den >= 2,
            m >= 1,
    ;
}

/// The cubic numerator `d^3 + m^3` stays within `0 ..= 2 * m^3` whenever
/// `|d| <= m`.
proof fn lemma_cube_num_bounds(d: int, m: int)
    requires
        -m <= d <= m,
        1 <= m,
    ensures
        0 <= d * d * d + m * m * m <= m * (2 * m * m),
{
    if d >= 0 {
        assert(d * d * d <= m * m * m) by (nonlinear_arith)
            requires
                0 <= d <= m,
        ;
        assert(d * d * d >= 0) by (nonlinear_arith)
            requires
                d >= 0,
        ;
    } else {
        let e = -d;
        assert(e * e * e <= m * m * m) by (nonlinear_arith)
            requires
                0 <= e <= m,
        ;
        assert(d * d * d == -(e * e * e)) by (nonlinear_arith)
            requires
                d == -e,
        ;
    }
    assert(m * m * m + m * m * m == m * (2 * m * m)) by (nonlinear_arith);
}

/// Every curve family fixes both endpoints of its range: the lowest raw
/// sample maps to the lowest output and the highest to the highest. The
/// table-driven family is defined for the 8-bit domain only.
pub proof fn lemma_shape_endpoints(c: Curve, max: u8)
    requires
        1 <= max,
        c is Custom ==> max == 255,
    ensures
        shape_spec(c, 0, max as int) == 0,
        shape_spec(c, max as int, max as int) == max as int,
{
    let m = max as int;
    assert(2 * m >= 2);
    assert(m * m >= 1) by (nonlinear_arith)
        requires
            m >= 1,
    ;
    match c {
        Curve::Linear => {},
        Curve::InQuad => {
            assert(m * m - (2 * 0 - m) * (2 * 0 - m) == 0) by (nonlinear_arith);
            lemma_div_of0(2 * m);
            assert((2 * m - m) * (2 * m - m) + m * m == m * (2 * m)) by (nonlinear_arith);
            lemma_fundamental_div_mod_converse_div(
                (2 * m - m) * (2 * m - m) + m * m,
                2 * m,
                m,
                0,
            );
        },
        Curve::OutQuad => {
            assert(4 * 0 * 0 == 0) by (nonlinear_arith);
            lemma_div_of0(2 * m);
            assert((2 * m - m) * (2 * m - (2 * m - m)) + m * m == m * (2 * m)) by (nonlinear_arith);
            lemma_fundamental_div_mod_converse_div(
                (2 * m - m) * (2 * m - (2 * m - m)) + m * m,
                2 * m,
                m,
                0,
            );
        },
        Curve::Cubic => {
            assert((2 * 0 - m) * (2 * 0 - m) * (2 * 0 - m) + m * m * m == 0) by (nonlinear_arith);
            assert(2 * m * m >= 2) by (nonlinear_arith)
                requires
                    m >= 1,
            ;
            lemma_div_of0(2 * m * m);
            assert((2 * m - m) * (2 * m - m) * (2 * m - m) + m * m * m == m * (2 * m * m))
                by (nonlinear_arith);
            lemma_fundamental_div_mod_converse_div(
                (2 * m - m) * (2 * m - m) * (2 * m - m) + m * m * m,
                2 * m * m,
                m,
                0,
            );
        },
        Curve::InOutQuad => {
            assert(8 * 0 * 0 == 0) by (nonlinear_arith);
            lemma_div_of0(2 * m);
            assert(4 * (2 * m - m) * m - 2 * (2 * m - m) * (2 * m - m) == m * (2 * m))
                by (nonlinear_arith);
            lemma_fundamental_div_mod_converse_div(
                4 * (2 * m - m) * m - 2 * (2 * m - m) * (2 * m - m),
                2 * m,
                m,
                0,
            );
        },
        Curve::Custom => {
            reveal(crate::curve_table::custom_table_seg0);
            reveal(crate::curve_table::custom_table_seg3);
            assert(custom_table_at(0) == 0);
            assert(custom_table_at(255) == 255);
        },
    }
}

/// Every curve family fixes the midpoint of its range, with two exceptions
/// in the floored-integer domain: the table-driven family is defined for the
/// 8-bit domain only, and the quadratic ease-out keeps the midpoint only for
/// an even `max` (for an odd `max` the floored midpoint sample lands one
/// below the floored midpoint output).
pub proof fn lemma_shape_midpoint(c: Curve, max: u8)
    requires
        1 <= max,
        c is Custom ==> max == 255,
        c is OutQuad ==> max % 2 == 0,
    ensures
        shape_spec(c, max as int / 2, max as int) == max as int / 2,
{
    let m = max as int;
    let h = m / 2;
    assert(m == 2 * h || m == 2 * h + 1);
    match c {
        Curve::Linear => {},
        Curve::InQuad => {
            if m == 2 * h {
                assert(m * m - (2 * h - m) * (2 * h - m) == h * (2 * m) + 0) by (nonlinear_arith)
                    requires
                        m == 2 * h,
                ;
                lemma_fundamental_div_mod_converse_div(
                    m * m - (2 * h - m) * (2 * h - m),
                    2 * m,
                    h,
                    0,
                );
            } else {
                assert(m * m - (2 * h - m) * (2 * h - m) == h * (2 * m) + 2 * h)
                    by (nonlinear_arith)
                    requires
                        m == 2 * h + 1,
                ;
                lemma_fundamental_div_mod_converse_div(
                    m * m - (2 * h - m) * (2 * h - m),
                    2 * m,
                    h,
                    2 * h,
                );
            }
        },
        Curve::OutQuad => {
            assert(m == 2 * h);
            assert(4 * h * h == h * (2 * m) + 0) by (nonlinear_arith)
                requires
                    m == 2 * h,
            ;
            lemma_fundamental_div_mod_converse_div(4 * h * h, 2 * m, h, 0);
        },
        Curve::Cubic => {
            if m == 2 * h {
                assert((2 * h - m) * (2 * h - m) * (2 * h - m) + m * m * m == h * (2 * m * m) + 0)
                    by (nonlinear_arith)
                    requires
                        m == 2 * h,
                ;
                assert(2 * m * m >= 2) by (nonlinear_arith)
                    requires
                        m >= 1,
                ;
                lemma_fundamental_div_mod_converse_div(
                    (2 * h - m) * (2 * h - m) * (2 * h - m) + m * m * m,
                    2 * m * m,
                    h,
                    0,
                );
            } else {
                assert((2 * h - m) * (2 * h - m) * (2 * h - m) + m * m * m == h * (2 * m * m) + (m
                    * m - 1)) by (nonlinear_arith)
                    requires
                        m == 2 * h + 1,
                ;
                assert(0 <= m * m - 1 < 2 * m * m) by (nonlinear_arith)
                    requires
                        m >= 1,
                ;
                lemma_fundamental_div_mod_converse_div(
                    (2 * h - m) * (2 * h - m) * (2 * h - m) + m * m * m,
                    2 * m * m,
                    h,
                    m * m - 1,
                );
            }
        },
        Curve::InOutQuad => {
            if m == 2 * h {
                assert(8 * h * m - 8 * h * h - m * m == h * (2 * m) + 0) by (nonlinear_arith)
                    requires
                        m == 2 * h,
                ;
                lemma_fundamental_div_mod_converse_div(8 * h * m - 8 * h * h - m * m, 2 * m, h, 0);
            } else if m == 1 {
                assert(h == 0);
                assert(8 * 0 * 0 == 0) by (nonlinear_arith);
                lemma_div_of0(2 * m);
            } else {
                assert(m == 2 * h + 1 && h >= 1);
                assert(8 * h * m - 8 * h * h - m * m == h * (2 * m) + (2 * h - 1))
                    by (nonlinear_arith)
                    requires
                        m == 2 * h + 1,
                ;
                lemma_fundamental_div_mod_converse_div(
                    8 * h * m - 8 * h * h - m * m,
                    2 * m,
                    h,
                    2 * h - 1,
                );
            }
        },
        Curve::Custom => {
            reveal(crate::curve_table::custom_table_seg1);
            assert(custom_table_at(127) == 127);
        },
    }
}

} // verus!
