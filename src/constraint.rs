//! The constraints that the physics world reports, and the coloured lines
//! that show them.
use crate::camera::{Camera, CameraView};
use crate::draw::window_point;
use crate::geometry::{div_round, floor_div, round_div, Point, WORLD_SCALE};
use vstd::prelude::*;

verus! {

/// Largest magnitude of a coordinate or a depth in a constraint record.
pub const RECORD_LIMIT: i64 = 1_000_000_000_000_000;

/// Width of a constraint line, in pixels.
pub const LINE_WIDTH: i64 = 3;

/// One constraint of the physics world, in world sub-units. A contact's
/// normal has length `WORLD_SCALE`, one world unit.
#[derive(Clone, Copy, PartialEq, Eq, Structural, Debug)]
pub enum ConstraintRecord {
    PointContact { a: Point, b: Point, normal: Point, depth: i64 },
    BallSocket { a: Point, b: Point },
    Fixed { a: Point, b: Point },
}

#[derive(Clone, Copy, PartialEq, Eq, Structural, Debug)]
pub enum LineColor {
    Green,
    Blue,
    Red,
}

/// A line between two window points.
#[derive(Clone, Copy, PartialEq, Eq, Structural, Debug)]
pub struct Line {
    pub from: Point,
    pub to: Point,
    pub color: LineColor,
}

pub open spec fn in_record_range(p: Point) -> bool {
    -RECORD_LIMIT <= p.x <= RECORD_LIMIT && -RECORD_LIMIT <= p.y <= RECORD_LIMIT
}

impl ConstraintRecord {
    pub open spec fn wf(self) -> bool {
        match self {
            ConstraintRecord::PointContact { a, b, normal, depth } => {
                &&& in_record_range(a)
                &&& in_record_range(b)
                &&& -WORLD_SCALE <= normal.x <= WORLD_SCALE
                &&& -WORLD_SCALE <= normal.y <= WORLD_SCALE
                &&& -RECORD_LIMIT <= depth <= RECORD_LIMIT
            },
            ConstraintRecord::BallSocket { a, b } => in_record_range(a) && in_record_range(b),
            ConstraintRecord::Fixed { a, b } => in_record_range(a) && in_record_range(b),
        }
    }
}

/// Midpoint of two world points, rounded down.
pub open spec fn midpoint(a: Point, b: Point) -> Point {
    Point { x: ((a.x + b.x) / 2) as i64, y: ((a.y + b.y) / 2) as i64 }
}

/// `p` moved along `normal` by `len` world sub-units.
pub open spec fn along(p: Point, normal: Point, len: int) -> Point {
    Point {
        x: (p.x + div_round(normal.x * len, WORLD_SCALE as int)) as i64,
        y: (p.y + div_round(normal.y * len, WORLD_SCALE as int)) as i64,
    }
}

pub open spec fn line_spec(c: CameraView, a: Point, b: Point, color: LineColor) -> Line {
    Line { from: window_point(c, a), to: window_point(c, b), color }
}

/// The lines that show one constraint: a contact is green, from one contact
/// point to the other, and from their midpoint along the normal by the
/// depth and by one world unit; a ball socket is a blue line and a fixed
/// joint a red one between their anchors.
pub open spec fn record_lines(c: CameraView, r: ConstraintRecord) -> Seq<Line> {
    match r {
        ConstraintRecord::PointContact { a, b, normal, depth } => {
            let m = midpoint(a, b);
            seq![
                line_spec(c, a, b, LineColor::Green),
                line_spec(c, m, along(m, normal, depth as int), LineColor::Green),
                line_spec(c, m, along(m, normal, WORLD_SCALE as int), LineColor::Green),
            ]
        },
        ConstraintRecord::BallSocket { a, b } => seq![line_spec(c, a, b, LineColor::Blue)],
        ConstraintRecord::Fixed { a, b } => seq![line_spec(c, a, b, LineColor::Red)],
    }
}

/// The lines of all of `rs`, in order.
pub open spec fn lines_spec(c: CameraView, rs: Seq<ConstraintRecord>) -> Seq<Line>
    decreases rs.len(),
{
    if rs.len() == 0 {
        seq![]
    } else {
        lines_spec(c, rs.drop_last()) + record_lines(c, rs.last())
    }
}

fn line(camera: &Camera, a: Point, b: Point, color: LineColor) -> (r: Line)
    requires
        camera@.wf(),
        a.in_world_range(),
        b.in_world_range(),
    ensures
        r == line_spec(camera@, a, b, color),
{
    Line { from: camera.from_local(a), to: camera.from_local(b), color }
}

fn midpoint_of(a: Point, b: Point) -> (r: Point)
    requires
        in_record_range(a),
        in_record_range(b),
    ensures
        r == midpoint(a, b),
        in_record_range(r),
{
    let x = floor_div(a.x as i128 + b.x as i128, 2);
    let y = floor_div(a.y as i128 + b.y as i128, 2);
    Point { x: x as i64, y: y as i64 }
}

fn along_normal(p: Point, normal: Point, len: i64) -> (r: Point)
    requires
        in_record_range(p),
        -WORLD_SCALE <= normal.x <= WORLD_SCALE,
        -WORLD_SCALE <= normal.y <= WORLD_SCALE,
        -RECORD_LIMIT <= len <= RECORD_LIMIT,
    ensures
        r == along(p, normal, len as int),
        r.in_world_range(),
{
    proof {
        assert(-1_000_000_000_000_000_000_000 <= normal.x * len <= 1_000_000_000_000_000_000_000 && -1_000_000_000_000_000_000_000 <= normal.y * len <= 1_000_000_000_000_000_000_000) by (nonlinear_arith)
            requires
                -WORLD_SCALE <= normal.x <= WORLD_SCALE,
                -WORLD_SCALE <= normal.y <= WORLD_SCALE,
                -RECORD_LIMIT <= len <= RECORD_LIMIT,
        ;
    }
    let dx = round_div(normal.x as i128 * len as i128, WORLD_SCALE as i128);
    let dy = round_div(normal.y as i128 * len as i128, WORLD_SCALE as i128);
    proof {
        crate::geometry::lemma_div_round_bound(normal.x * len, WORLD_SCALE as int, RECORD_LIMIT as int);
        crate::geometry::lemma_div_round_bound(normal.y * len, WORLD_SCALE as int, RECORD_LIMIT as int);
    }
    Point { x: (p.x as i128 + dx) as i64, y: (p.y as i128 + dy) as i64 }
}

fn push_record_lines(camera: &Camera, rec: ConstraintRecord, out: &mut Vec<Line>)
    requires
        camera@.wf(),
        rec.wf(),
    ensures
        final(out)@ == old(out)@ + record_lines(camera@, rec),
{
    match rec {
        ConstraintRecord::PointContact { a, b, normal, depth } => {
            let m = midpoint_of(a, b);
            out.push(line(camera, a, b, LineColor::Green));
            out.push(line(camera, m, along_normal(m, normal, depth), LineColor::Green));
            out.push(line(camera, m, along_normal(m, normal, WORLD_SCALE), LineColor::Green));
        },
        ConstraintRecord::BallSocket { a, b } => {
            out.push(line(camera, a, b, LineColor::Blue));
        },
        ConstraintRecord::Fixed { a, b } => {
            out.push(line(camera, a, b, LineColor::Red));
        },
    }
    proof {
        assert(final(out)@ =~= old(out)@ + record_lines(camera@, rec));
    }
}

/// The lines that show `records`, through `camera`, in order.
pub fn constraint_lines(camera: &Camera, records: &Vec<ConstraintRecord>) -> (r: Vec<Line>)
    requires
        camera@.wf(),
        forall|i: int| 0 <= i < records@.len() ==> (#[trigger] records@[i]).wf(),
    ensures
        r@ == lines_spec(camera@, records@),
{
    let mut r: Vec<Line> = Vec::new();
    let mut i: usize = 0;
    while i < records.len()
        invariant
            camera@.wf(),
            forall|k: int| 0 <= k < records@.len() ==> (#[trigger] records@[k]).wf(),
            0 <= i <= records@.len(),
            r@ == lines_spec(camera@, records@.take(i as int)),
        decreases records@.len() - i,
    {
        push_record_lines(camera, records[i], &mut r);
        proof {
            assert(records@.take(i + 1).drop_last() =~= records@.take(i as int));
        }
        i = i + 1;
    }
    proof {
        assert(records@.take(i as int) =~= records@);
    }
    r
}

} // verus!
