//! Evaluation of the curve defined by the four control points.
//!
//! The parameter `t` is the exact ratio `num / den`. A sample is returned
//! exactly as well: its coordinates are the numerators of fractions whose
//! common denominator is `den³`.

use vstd::prelude::*;
use crate::geometry::Point;

verus! {

/// A point of the curve, `(x / scale, y / scale)`.
#[derive(Clone, Copy, Debug, PartialEq, Eq, Structural)]
pub struct CurveSample {
    pub x: i128,
    pub y: i128,
    pub scale: u64,
}

/// `d · lerp(a, b, n / d)`: linear interpolation from `a` to `b`, scaled by
/// the parameter's denominator.
pub open spec fn lerp_scaled(a: int, b: int, n: int, d: int) -> int {
    (d - n) * a + n * b
}

/// `d³` times one coordinate of the curve at `t = n / d`, for the control
/// coordinates `c0 .. c3`. The cascade interpolates through the points in
/// the order 0, 1, 3, 2, and blends the second level toward the third
/// first-level point.
pub open spec fn curve_coord(c0: int, c1: int, c2: int, c3: int, n: int, d: int) -> int {
    let m1 = lerp_scaled(c0, c1, n, d);
    let m2 = lerp_scaled(c1, c3, n, d);
    let m3 = lerp_scaled(c3, c2, n, d);
    lerp_scaled(lerp_scaled(m1, m2, n, d), d * m3, n, d)
}

/// The exact sample of the curve at `t = n / d`.
pub open spec fn curve_at(points: Seq<Point>, n: int, d: int) -> CurveSample {
    CurveSample {
        x: curve_coord(
            points[0].x as int, points[1].x as int, points[2].x as int, points[3].x as int, n, d,
        ) as i128,
        y: curve_coord(
            points[0].y as int, points[1].y as int, points[2].y as int, points[3].y as int, n, d,
        ) as i128,
        scale: (d * d * d) as u64,
    }
}

proof fn lemma_mul_abs_le(x: int, y: int, mx: int, my: int) by (nonlinear_arith)
    requires
        -mx <= x <= mx,
        -my <= y <= my,
    ensures
        -(mx * my) <= x * y <= mx * my,
{
}

/// Interpolation grows magnitudes by at most a factor `2^18` when the
/// parameter has a 16-bit denominator and numerator.
proof fn lemma_lerp_bound(a: int, b: int, n: int, d: int, bound: int)
    requires
        -bound <= a <= bound,
        -bound <= b <= bound,
        -0x8000 <= n <= 0x7fff,
        1 <= d <= 0xffff,
    ensures
        -(0x40000 * bound) <= lerp_scaled(a, b, n, d) <= 0x40000 * bound,
{
    lemma_mul_abs_le(d - n, a, 0x20000, bound);
    lemma_mul_abs_le(n, b, 0x20000, bound);
}

/// `(d - n) · a + n · b` computed without overflow.
fn lerp_exec(a: i128, b: i128, n: i16, d: u16) -> (r: i128)
    requires
        -0x1_0000_0000_0000_0000_0000_0000 <= a <= 0x1_0000_0000_0000_0000_0000_0000,
        -0x1_0000_0000_0000_0000_0000_0000 <= b <= 0x1_0000_0000_0000_0000_0000_0000,
        d >= 1,
    ensures
        r == lerp_scaled(a as int, b as int, n as int, d as int),
{
    proof {
        lemma_mul_abs_le(d - n, a as int, 0x20000, 0x1_0000_0000_0000_0000_0000_0000);
        lemma_mul_abs_le(n as int, b as int, 0x20000, 0x1_0000_0000_0000_0000_0000_0000);
    }
    let r = d as i128 - n as i128;
    r * a + (n as i128) * b
}

/// One coordinate of the curve at `t = n / d`, scaled by `d³`.
fn coord_exec(c0: i32, c1: i32, c2: i32, c3: i32, n: i16, d: u16) -> (r: i128)
    requires
        d >= 1,
    ensures
        r == curve_coord(c0 as int, c1 as int, c2 as int, c3 as int, n as int, d as int),
{
    let ghost b0: int = 0x8000_0000;
    proof {
        lemma_lerp_bound(c0 as int, c1 as int, n as int, d as int, b0);
        lemma_lerp_bound(c1 as int, c3 as int, n as int, d as int, b0);
        lemma_lerp_bound(c3 as int, c2 as int, n as int, d as int, b0);
    }
    let m1 = lerp_exec(c0 as i128, c1 as i128, n, d);
    let m2 = lerp_exec(c1 as i128, c3 as i128, n, d);
    let m3 = lerp_exec(c3 as i128, c2 as i128, n, d);
    proof {
        lemma_lerp_bound(m1 as int, m2 as int, n as int, d as int, 0x40000 * b0);
        lemma_mul_abs_le(d as int, m3 as int, 0x10000, 0x40000 * b0);
    }
    let q = lerp_exec(m1, m2, n, d);
    let s = d as i128 * m3;
    lerp_exec(q, s, n, d)
}

/// The exact point of the curve at `t = num / den`. The parameter is not
/// restricted to `[0, 1]`.
pub fn evaluate(points: &[Point; 4], num: i16, den: u16) -> (r: CurveSample)
    requires
        den >= 1,
    ensures
        r == curve_at(points@, num as int, den as int),
        r.scale == den * den * den,
{
    proof {
        assert(0 <= den * den <= 0xffff * 0xffff) by (nonlinear_arith)
            requires
                1 <= den <= 0xffff,
        ;
        assert(0 <= den * den * den <= 0xffff * 0xffff * 0xffff) by (nonlinear_arith)
            requires
                1 <= den <= 0xffff,
        ;
    }
    let x = coord_exec(points[0].x, points[1].x, points[2].x, points[3].x, num, den);
    let y = coord_exec(points[0].y, points[1].y, points[2].y, points[3].y, num, den);
    let d = den as u64;
    CurveSample { x, y, scale: d * d * d }
}

/// The weight of each control coordinate in `curve_coord`, as a cubic
/// polynomial in `n` and `d` (with `r = d - n`): `r³` for point 0, `2r²n`
/// for point 1, `n²d` for point 2 and `rn² + rnd` for point 3.
pub open spec fn weights(n: int, d: int) -> (int, int, int, int) {
    let r = d - n;
    (r * r * r, 2 * (r * r * n), n * n * d, r * n * n + r * n * d)
}

/// Each coordinate of the curve is the sum of the control coordinates
/// weighted by fixed polynomials in the parameter: `d³ · B(t)` is a cubic
/// polynomial in `n` and `d`, so the curve has no discontinuity in `t`.
pub proof fn lemma_curve_is_cubic(c0: int, c1: int, c2: int, c3: int, n: int, d: int)
    ensures
        curve_coord(c0, c1, c2, c3, n, d) == weights(n, d).0 * c0 + weights(n, d).1 * c1
            + weights(n, d).2 * c2 + weights(n, d).3 * c3,
{
    let r = d - n;
    let m1 = r * c0 + n * c1;
    let m2 = r * c1 + n * c3;
    let m3 = r * c3 + n * c2;
    assert(r * (r * m1 + n * m2) == (r * r) * m1 + (r * n) * m2) by (nonlinear_arith);
    assert((r * r) * m1 == (r * r * r) * c0 + (r * r * n) * c1) by (nonlinear_arith)
        requires
            m1 == r * c0 + n * c1,
    ;
    assert((r * n) * m2 == (r * r * n) * c1 + (r * n * n) * c3) by (nonlinear_arith)
        requires
            m2 == r * c1 + n * c3,
    ;
    assert(n * (d * m3) == (n * d) * (r * c3) + (n * d) * (n * c2)) by (nonlinear_arith)
        requires
            m3 == r * c3 + n * c2,
    ;
    assert((n * d) * (r * c3) == (r * n * d) * c3) by (nonlinear_arith);
    assert((n * d) * (n * c2) == (n * n * d) * c2) by (nonlinear_arith);
    assert((r * r * n) * c1 + (r * r * n) * c1 == (2 * (r * r * n)) * c1) by (nonlinear_arith);
    assert((r * n * n) * c3 + (r * n * d) * c3 == (r * n * n + r * n * d) * c3)
        by (nonlinear_arith);
}

/// The weights sum to `d³`: every sample is an affine combination of the
/// control points.
pub proof fn lemma_weights_sum(n: int, d: int)
    ensures
        weights(n, d).0 + weights(n, d).1 + weights(n, d).2 + weights(n, d).3 == d * d * d,
{
    let r = d - n;
    assert(r * r * r + 2 * (r * r * n) + n * n * d + (r * n * n + r * n * d) == d * d * d)
        by (nonlinear_arith)
        requires
            r == d - n,
    ;
}

/// Shifting every control coordinate by `a` and scaling it by `v` shifts
/// the result by `d³ · a` and scales the rest by `v`.
pub proof fn lemma_curve_affine(
    f0: int,
    f1: int,
    f2: int,
    f3: int,
    a: int,
    v: int,
    n: int,
    d: int,
)
    ensures
        curve_coord(a + f0 * v, a + f1 * v, a + f2 * v, a + f3 * v, n, d) == d * d * d * a
            + curve_coord(f0, f1, f2, f3, n, d) * v,
{
    lemma_curve_is_cubic(a + f0 * v, a + f1 * v, a + f2 * v, a + f3 * v, n, d);
    lemma_curve_is_cubic(f0, f1, f2, f3, n, d);
    lemma_weights_sum(n, d);
    let w = weights(n, d);
    assert(w.0 * (a + f0 * v) == w.0 * a + (w.0 * f0) * v) by (nonlinear_arith);
    assert(w.1 * (a + f1 * v) == w.1 * a + (w.1 * f1) * v) by (nonlinear_arith);
    assert(w.2 * (a + f2 * v) == w.2 * a + (w.2 * f2) * v) by (nonlinear_arith);
    assert(w.3 * (a + f3 * v) == w.3 * a + (w.3 * f3) * v) by (nonlinear_arith);
    assert(w.0 * a + w.1 * a + w.2 * a + w.3 * a == (w.0 + w.1 + w.2 + w.3) * a)
        by (nonlinear_arith);
    assert((w.0 * f0) * v + (w.1 * f1) * v + (w.2 * f2) * v + (w.3 * f3) * v == (w.0 * f0 + w.1
        * f1 + w.2 * f2 + w.3 * f3) * v) by (nonlinear_arith);
}

/// The curve starts at control point 0 (`t = 0`) and ends at control
/// point 2 (`t = 1`).
pub proof fn lemma_curve_endpoints(c0: int, c1: int, c2: int, c3: int, d: int)
    ensures
        curve_coord(c0, c1, c2, c3, 0, d) == d * d * d * c0,
        curve_coord(c0, c1, c2, c3, d, d) == d * d * d * c2,
{
    lemma_curve_is_cubic(c0, c1, c2, c3, 0, d);
    lemma_curve_is_cubic(c0, c1, c2, c3, d, d);
    let w = weights(0, d);
    let v = weights(d, d);
    assert(w.0 == d * d * d);
    assert(w.1 == 0 && w.2 == 0 && w.3 == 0) by (nonlinear_arith)
        requires
            w == weights(0, d),
    ;
    assert(v.0 == 0 && v.1 == 0 && v.3 == 0) by (nonlinear_arith)
        requires
            v == weights(d, d),
    ;
    assert(v.2 == d * d * d) by (nonlinear_arith)
        requires
            v == weights(d, d),
    ;
    assert(w.1 * c1 == 0 && w.2 * c2 == 0 && w.3 * c3 == 0) by (nonlinear_arith)
        requires
            w.1 == 0 && w.2 == 0 && w.3 == 0,
    ;
    assert(v.0 * c0 == 0 && v.1 * c1 == 0 && v.3 * c3 == 0) by (nonlinear_arith)
        requires
            v.0 == 0 && v.1 == 0 && v.3 == 0,
    ;
}

} // verus!
