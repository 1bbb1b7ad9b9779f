//! Fixed-point coordinates and the integer arithmetic that the camera and
//! the shape policy are built on.
//!
//! World coordinates count millionths of a world unit, window coordinates
//! count thousandths of a pixel, and a zoom factor counts millionths of a
//! pixel per world unit.
use vstd::prelude::*;

verus! {

/// Sub-units in one world unit.
pub const WORLD_SCALE: i64 = 1_000_000;

/// Sub-units in one window pixel.
pub const WINDOW_SCALE: i64 = 1_000;

/// Sub-units in one pixel per world unit, the unit of a zoom factor.
pub const ZOOM_SCALE: u64 = 1_000_000;

/// `WORLD_SCALE * ZOOM_SCALE / WINDOW_SCALE`: a zoom factor times a world
/// distance, divided by this, is a window distance.
pub const MAP_SCALE: i128 = 1_000_000_000;

/// Largest magnitude accepted for a window coordinate (a million pixels
/// times a thousand).
pub const WINDOW_LIMIT: i64 = 1_000_000_000_000;

/// Largest magnitude accepted for a world coordinate that is mapped to the
/// window.
pub const WORLD_LIMIT: i64 = 4_000_000_000_000_000_000;

/// A point or a vector, in world or in window sub-units.
#[derive(Clone, Copy, PartialEq, Eq, Structural, Debug)]
pub struct Point {
    pub x: i64,
    pub y: i64,
}

impl Point {
    pub fn new(x: i64, y: i64) -> (r: Point)
        ensures
            r.x == x,
            r.y == y,
    {
        Point { x, y }
    }

    pub open spec fn in_window_range(self) -> bool {
        -WINDOW_LIMIT <= self.x <= WINDOW_LIMIT && -WINDOW_LIMIT <= self.y <= WINDOW_LIMIT
    }

    pub open spec fn in_world_range(self) -> bool {
        -WORLD_LIMIT <= self.x <= WORLD_LIMIT && -WORLD_LIMIT <= self.y <= WORLD_LIMIT
    }
}

/// `n / d` rounded to the nearest integer, halves rounded up.
pub open spec fn div_round(n: int, d: int) -> int {
    (2 * n + d) / (2 * d)
}

/// Bound on the operands of `floor_div` and `round_div`.
pub const DIV_LIMIT: i128 = 1_000_000_000_000_000_000_000_000_000_000;

pub proof fn lemma_floor_div_bounds(x: int, m: int)
    requires
        m > 0,
    ensures
        m * (x / m) <= x < m * (x / m) + m,
{
    assert(m * (x / m) <= x < m * (x / m) + m) by (nonlinear_arith)
        requires
            m > 0,
    {
        vstd::arithmetic::div_mod::lemma_fundamental_div_mod(x, m);
    }
}

pub proof fn lemma_floor_div_unique(x: int, m: int, q: int)
    requires
        m > 0,
        m * q <= x < m * q + m,
    ensures
        x / m == q,
{
    lemma_floor_div_bounds(x, m);
    let f = x / m;
    if f < q {
        assert(m * f + m <= m * q) by (nonlinear_arith)
            requires
                m > 0,
                f < q,
        ;
    } else if f > q {
        assert(m * q + m <= m * f) by (nonlinear_arith)
            requires
                m > 0,
                f > q,
        ;
    }
}

/// `n` divided by a positive `d`, rounded towards negative infinity.
pub fn floor_div(n: i128, d: i128) -> (q: i128)
    requires
        d > 0,
        -DIV_LIMIT <= n <= DIV_LIMIT,
    ensures
        q == n / d,
{
    if n >= 0 {
        n / d
    } else {
        let m: i128 = -n - 1;
        let t: i128 = m / d;
        proof {
            lemma_floor_div_bounds(m as int, d as int);
            assert(d * (-t - 1) <= n < d * (-t - 1) + d) by (nonlinear_arith)
                requires
                    d > 0,
                    n == -m - 1,
                    d * t <= m < d * t + d,
            ;
            lemma_floor_div_unique(n as int, d as int, -t - 1);
        }
        -t - 1
    }
}

/// `n` divided by a positive `d`, rounded to the nearest integer.
pub fn round_div(n: i128, d: i128) -> (q: i128)
    requires
        0 < d <= DIV_LIMIT / 4,
        -DIV_LIMIT / 4 <= n <= DIV_LIMIT / 4,
    ensures
        q == div_round(n as int, d as int),
{
    floor_div(2 * n + d, 2 * d)
}

/// A bound on a rounded quotient: `|div_round(n, d)| <= |n| / d + 1`.
pub proof fn lemma_div_round_bound(n: int, d: int, b: int)
    requires
        d > 0,
        b >= 0,
        -b * d <= n <= b * d,
    ensures
        -b - 1 <= div_round(n, d) <= b + 1,
{
    let q = div_round(n, d);
    lemma_floor_div_bounds(2 * n + d, 2 * d);
    assert(-b - 1 <= q <= b + 1) by (nonlinear_arith)
        requires
            d > 0,
            b >= 0,
            -b * d <= n <= b * d,
            (2 * d) * q <= 2 * n + d < (2 * d) * q + 2 * d,
    ;
}

} // verus!
