//! How sketched shapes are sized: the clamp on radii and half-extents, and
//! the distance from a sketch's anchor to the pointer.
use crate::geometry::Point;
use vstd::prelude::*;

verus! {

/// Smallest radius or half-extent of a sketched shape: a tenth of a world unit.
pub const MIN_EXTENT: i64 = 100_000;

/// Largest radius or half-extent of a sketched shape: ten world units.
pub const MAX_EXTENT: i64 = 10_000_000;

/// `x` brought into `[MIN_EXTENT, MAX_EXTENT]`.
pub open spec fn clamp_extent_spec(x: int) -> int {
    if x < MIN_EXTENT {
        MIN_EXTENT as int
    } else if x > MAX_EXTENT {
        MAX_EXTENT as int
    } else {
        x
    }
}

/// `x` with its magnitude brought into `[MIN_EXTENT, MAX_EXTENT]` and its
/// sign kept; zero counts as positive.
pub open spec fn clamp_signed_extent_spec(x: int) -> int {
    if x < 0 {
        -clamp_extent_spec(-x)
    } else {
        clamp_extent_spec(x)
    }
}

pub open spec fn is_floor_sqrt(r: int, s: int) -> bool {
    0 <= r && r * r <= s < (r + 1) * (r + 1)
}

/// The integer square root of `s`, rounded down.
pub open spec fn floor_sqrt(s: int) -> int {
    choose|r: int| #[trigger] is_floor_sqrt(r, s)
}

/// Squared Euclidean distance between two points.
pub open spec fn dist_sq(a: Point, b: Point) -> int {
    (b.x - a.x) * (b.x - a.x) + (b.y - a.y) * (b.y - a.y)
}

/// Radius of a ball sketched from `anchor` to `current`: their distance,
/// rounded down to a sub-unit, clamped.
pub open spec fn ball_radius_spec(anchor: Point, current: Point) -> int {
    clamp_extent_spec(floor_sqrt(dist_sq(anchor, current)))
}

proof fn lemma_floor_sqrt_exists(s: int)
    requires
        s >= 0,
    ensures
        exists|r: int| #[trigger] is_floor_sqrt(r, s),
    decreases s,
{
    if s == 0 {
        assert(is_floor_sqrt(0, 0));
    } else {
        lemma_floor_sqrt_exists(s - 1);
        let r = choose|r: int| #[trigger] is_floor_sqrt(r, s - 1);
        if (r + 1) * (r + 1) <= s {
            assert(s < (r + 2) * (r + 2)) by (nonlinear_arith)
                requires
                    r >= 0,
                    s - 1 < (r + 1) * (r + 1),
            ;
            assert(is_floor_sqrt(r + 1, s));
        } else {
            assert(is_floor_sqrt(r, s));
        }
    }
}

proof fn lemma_floor_sqrt_unique(r: int, t: int, s: int)
    requires
        is_floor_sqrt(r, s),
        is_floor_sqrt(t, s),
    ensures
        r == t,
{
    if r < t {
        assert((r + 1) * (r + 1) <= t * t) by (nonlinear_arith)
            requires
                0 <= r < t,
        ;
    } else if t < r {
        assert((t + 1) * (t + 1) <= r * r) by (nonlinear_arith)
            requires
                0 <= t < r,
        ;
    }
}

/// `floor_sqrt` is the one root that rounds down.
pub proof fn lemma_floor_sqrt(r: int, s: int)
    requires
        is_floor_sqrt(r, s),
    ensures
        floor_sqrt(s) == r,
{
    assert(exists|t: int| #[trigger] is_floor_sqrt(t, s));
    lemma_floor_sqrt_unique(floor_sqrt(s), r, s);
}

/// The root rounded down is at least `m` when `s` is at least `m * m`.
proof fn lemma_floor_sqrt_at_least(s: int, m: int)
    requires
        m >= 0,
        s >= m * m,
    ensures
        floor_sqrt(s) >= m,
{
    lemma_floor_sqrt_exists(s);
    let r = floor_sqrt(s);
    if r < m {
        assert((r + 1) * (r + 1) <= m * m) by (nonlinear_arith)
            requires
                0 <= r < m,
        ;
    }
}

/// Brings a radius into `[MIN_EXTENT, MAX_EXTENT]`.
pub fn clamp_extent(x: i64) -> (r: i64)
    ensures
        r == clamp_extent_spec(x as int),
{
    if x < MIN_EXTENT {
        MIN_EXTENT
    } else if x > MAX_EXTENT {
        MAX_EXTENT
    } else {
        x
    }
}

/// Brings the magnitude of a signed half-extent into `[MIN_EXTENT,
/// MAX_EXTENT]`, keeping its sign.
pub fn clamp_signed_extent(x: i64) -> (r: i64)
    ensures
        r == clamp_signed_extent_spec(x as int),
{
    if x < -MAX_EXTENT {
        -MAX_EXTENT
    } else if x < 0 {
        -clamp_extent(-x)
    } else {
        clamp_extent(x)
    }
}

/// The integer square root of `s`, rounded down.
pub fn isqrt(s: u64) -> (r: u64)
    requires
        s < 0x4000_0000_0000_0000,
    ensures
        is_floor_sqrt(r as int, s as int),
        r < 0x8000_0000,
{
    let mut lo: u64 = 0;
    let mut hi: u64 = 0x8000_0000;
    assert(hi * hi == 0x4000_0000_0000_0000) by (nonlinear_arith)
        requires
            hi == 0x8000_0000,
    ;
    while hi - lo > 1
        invariant
            lo < hi <= 0x8000_0000,
            lo * lo <= s < hi * hi,
        decreases hi - lo,
    {
        let mid = lo + (hi - lo) / 2;
        assert(mid * mid <= 0x4000_0000_0000_0000) by (nonlinear_arith)
            requires
                mid <= 0x8000_0000,
        ;
        if mid * mid <= s {
            lo = mid;
        } else {
            hi = mid;
        }
    }
    assert(hi == lo + 1);
    lo
}

/// Radius of a ball sketched from `anchor` to `current`: their distance
/// rounded down, clamped into `[MIN_EXTENT, MAX_EXTENT]`.
pub fn ball_radius(anchor: Point, current: Point) -> (r: i64)
    requires
        anchor.in_world_range(),
        current.in_world_range(),
    ensures
        r == ball_radius_spec(anchor, current),
        MIN_EXTENT <= r <= MAX_EXTENT,
{
    let dx: i128 = current.x as i128 - anchor.x as i128;
    let dy: i128 = current.y as i128 - anchor.y as i128;
    let ghost s = dist_sq(anchor, current);
    proof {
        assert(dx * dx >= 0 && dy * dy >= 0) by (nonlinear_arith);
    }
    if dx <= -(MAX_EXTENT as i128) || dx >= MAX_EXTENT as i128 || dy <= -(MAX_EXTENT as i128)
        || dy >= MAX_EXTENT as i128 {
        proof {
            assert(s >= MAX_EXTENT * MAX_EXTENT) by (nonlinear_arith)
                requires
                    s == dx * dx + dy * dy,
                    dx <= -MAX_EXTENT || dx >= MAX_EXTENT || dy <= -MAX_EXTENT || dy >= MAX_EXTENT,
            ;
            lemma_floor_sqrt_at_least(s, MAX_EXTENT as int);
        }
        MAX_EXTENT
    } else {
        proof {
            assert(s < 2 * MAX_EXTENT * MAX_EXTENT) by (nonlinear_arith)
                requires
                    s == dx * dx + dy * dy,
                    -MAX_EXTENT < dx < MAX_EXTENT,
                    -MAX_EXTENT < dy < MAX_EXTENT,
            ;
        }
        let sq: i128 = dx * dx + dy * dy;
        let root = isqrt(sq as u64);
        proof {
            lemma_floor_sqrt(root as int, s);
        }
        clamp_extent(root as i64)
    }
}

/// Half-extents of a box sketched from `anchor` to `current`: the magnitude
/// of each axis' difference, clamped.
pub fn cuboid_half_extents(anchor: Point, current: Point) -> (r: (i64, i64))
    requires
        anchor.in_world_range(),
        current.in_world_range(),
    ensures
        r.0 == clamp_extent_spec(abs_spec(current.x - anchor.x)),
        r.1 == clamp_extent_spec(abs_spec(current.y - anchor.y)),
{
    (clamp_magnitude(current.x as i128 - anchor.x as i128), clamp_magnitude(
        current.y as i128 - anchor.y as i128,
    ))
}

/// Signed half-extents of the preview of a box sketched from `anchor` to
/// `current`: each axis' difference clamped in magnitude, its sign kept.
pub fn cuboid_preview_extents(anchor: Point, current: Point) -> (r: (i64, i64))
    requires
        anchor.in_world_range(),
        current.in_world_range(),
    ensures
        r.0 == clamp_signed_extent_spec(current.x - anchor.x),
        r.1 == clamp_signed_extent_spec(current.y - anchor.y),
{
    (clamp_signed_difference(current.x as i128 - anchor.x as i128), clamp_signed_difference(
        current.y as i128 - anchor.y as i128,
    ))
}

pub open spec fn abs_spec(x: int) -> int {
    if x < 0 {
        -x
    } else {
        x
    }
}

fn clamp_magnitude(d: i128) -> (r: i64)
    ensures
        r == clamp_extent_spec(abs_spec(d as int)),
{
    let m: i128 = if d < 0 {
        if d < -(MAX_EXTENT as i128) {
            MAX_EXTENT as i128 + 1
        } else {
            -d
        }
    } else if d > MAX_EXTENT as i128 {
        MAX_EXTENT as i128 + 1
    } else {
        d
    };
    clamp_extent(m as i64)
}

fn clamp_signed_difference(d: i128) -> (r: i64)
    ensures
        r == clamp_signed_extent_spec(d as int),
{
    if d < -(MAX_EXTENT as i128) {
        -MAX_EXTENT
    } else if d > MAX_EXTENT as i128 {
        MAX_EXTENT
    } else {
        clamp_signed_extent(d as i64)
    }
}

/// Clamping twice is clamping once, for radii.
pub proof fn lemma_clamp_extent_idempotent(x: int)
    ensures
        clamp_extent_spec(clamp_extent_spec(x)) == clamp_extent_spec(x),
{
}

/// Clamping twice is clamping once, for signed half-extents.
pub proof fn lemma_clamp_signed_extent_idempotent(x: int)
    ensures
        clamp_signed_extent_spec(clamp_signed_extent_spec(x)) == clamp_signed_extent_spec(x),
{
}

} // verus!
