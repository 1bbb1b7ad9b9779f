//! The scene a session starts with: a pyramid of boxes standing on the
//! ground.
use crate::geometry::Point;
use crate::object::Cuboid;
use vstd::prelude::*;

verus! {

/// Boxes in the pyramid's bottom row; each row above holds one fewer.
pub const PYRAMID_BASE: i64 = 35;

/// Half the nominal size of a pyramid box, in world sub-units.
pub const BRICK_RADIUS: i64 = 500_000;

/// What each box's half-extents fall short of `BRICK_RADIUS`, and the gap
/// below the bottom row.
pub const BRICK_MARGIN: i64 = 40_000;

/// Distance between neighbouring boxes of a row, and between rows.
pub const BRICK_SHIFT: i64 = 1_250_000;

/// How far the pyramid is moved left to stand around the origin: half the
/// bottom row's length.
pub const PYRAMID_OFFSET: i64 = 21_875_000;

/// The box in row `i` (counted from the bottom) at position `j` (from `i`
/// to `PYRAMID_BASE - 1`).
pub open spec fn brick(i: int, j: int) -> Cuboid {
    Cuboid {
        center: Point {
            x: (i * (BRICK_SHIFT / 2) + (j - i) * BRICK_SHIFT - PYRAMID_OFFSET) as i64,
            y: (-i * BRICK_SHIFT - BRICK_MARGIN - BRICK_RADIUS) as i64,
        },
        width: (BRICK_RADIUS - BRICK_MARGIN) as i64,
        height: (BRICK_RADIUS - BRICK_MARGIN) as i64,
    }
}

/// Row `i` of the pyramid, left to right.
pub open spec fn pyramid_row(i: int) -> Seq<Cuboid> {
    Seq::new((PYRAMID_BASE - i) as nat, |k: int| brick(i, i + k))
}

/// The bottom `n` rows of the pyramid, bottom row first.
pub open spec fn pyramid_rows(n: nat) -> Seq<Cuboid>
    decreases n,
{
    if n == 0 {
        seq![]
    } else {
        pyramid_rows((n - 1) as nat) + pyramid_row(n - 1)
    }
}

fn make_brick(i: i64, j: i64) -> (r: Cuboid)
    requires
        0 <= i <= j < PYRAMID_BASE,
    ensures
        r == brick(i as int, j as int),
{
    Cuboid {
        center: Point {
            x: i * (BRICK_SHIFT / 2) + (j - i) * BRICK_SHIFT - PYRAMID_OFFSET,
            y: -i * BRICK_SHIFT - BRICK_MARGIN - BRICK_RADIUS,
        },
        width: BRICK_RADIUS - BRICK_MARGIN,
        height: BRICK_RADIUS - BRICK_MARGIN,
    }
}

/// The boxes of the pyramid, row by row from the bottom, each row left to
/// right.
pub fn pyramid() -> (r: Vec<Cuboid>)
    ensures
        r@ == pyramid_rows(PYRAMID_BASE as nat),
{
    let mut r: Vec<Cuboid> = Vec::new();
    let mut i: i64 = 0;
    while i < PYRAMID_BASE
        invariant
            0 <= i <= PYRAMID_BASE,
            r@ == pyramid_rows(i as nat),
        decreases PYRAMID_BASE - i,
    {
        let mut j: i64 = i;
        while j < PYRAMID_BASE
            invariant
                0 <= i <= j <= PYRAMID_BASE,
                i < PYRAMID_BASE,
                r@ == pyramid_rows(i as nat) + pyramid_row(i as int).take(j - i),
            decreases PYRAMID_BASE - j,
        {
            r.push(make_brick(i, j));
            proof {
                assert(pyramid_row(i as int).take(j + 1 - i) =~= pyramid_row(i as int).take(j - i).push(
                    brick(i as int, j as int),
                ));
                assert(pyramid_rows(i as nat) + pyramid_row(i as int).take(j + 1 - i) =~= (pyramid_rows(
                    i as nat,
                ) + pyramid_row(i as int).take(j - i)).push(brick(i as int, j as int)));
            }
            j = j + 1;
        }
        proof {
            assert(pyramid_row(i as int).take(j - i) =~= pyramid_row(i as int));
        }
        i = i + 1;
    }
    r
}

} // verus!
