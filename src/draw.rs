//! What the renderer draws, in window sub-units: body outlines, sketch
//! previews and the lines that show constraints.
use crate::camera::{Camera, CameraView};
use crate::game::{Action, Anchor, Game, GameView, ShapeKind};
use crate::geometry::{div_round, lemma_div_round_bound, round_div, Point, MAP_SCALE};
use crate::object::{Ball, Cuboid};
use crate::shape::{
    ball_radius, ball_radius_spec, clamp_signed_extent_spec, cuboid_preview_extents,
};
use vstd::prelude::*;

verus! {

/// Radius of the outer ring of the ball-socket marker, in window sub-units.
pub const SOCKET_OUTER_RADIUS: i64 = 5_000;

/// Radius of the inner ring of the ball-socket marker, in window sub-units.
pub const SOCKET_INNER_RADIUS: i64 = 3_000;

/// Largest magnitude of a length that is scaled to the window.
pub const LENGTH_LIMIT: i64 = 1_000_000_000_000_000;

/// A shape to draw, centred on a window point, with its dimensions in window
/// sub-units. A rectangle's half-extents may be negative: the preview of a
/// box keeps the direction in which it was dragged.
#[derive(Clone, Copy, PartialEq, Eq, Structural, Debug)]
pub enum Outline {
    Circle { center: Point, radius: i64 },
    Rect { center: Point, half_width: i64, half_height: i64 },
}

/// A world length seen through a camera with zoom factor `zoom`.
pub open spec fn window_length(zoom: int, len: int) -> int {
    div_round(zoom * len, MAP_SCALE as int)
}

/// The window point at which a world point appears.
pub open spec fn window_point(c: CameraView, w: Point) -> Point {
    Point { x: c.window_x(w.x as int) as i64, y: c.window_y(w.y as int) as i64 }
}

/// The preview of a ball sketch anchored at `a` with the pointer over `p`.
pub open spec fn temp_ball_spec(c: CameraView, a: Anchor, p: Point) -> Outline {
    Outline::Circle {
        center: a.window,
        radius: window_length(c.zoom, ball_radius_spec(a.world, p)) as i64,
    }
}

/// The preview of a box sketch anchored at `a` with the pointer over `p`.
pub open spec fn temp_cuboid_spec(c: CameraView, a: Anchor, p: Point) -> Outline {
    Outline::Rect {
        center: a.window,
        half_width: window_length(c.zoom, clamp_signed_extent_spec(p.x - a.world.x)) as i64,
        half_height: window_length(c.zoom, clamp_signed_extent_spec(p.y - a.world.y)) as i64,
    }
}

/// The ball-socket marker: two rings around the pointer.
pub open spec fn socket_marker_spec(mouse: Point) -> Seq<Outline> {
    seq![
        Outline::Circle { center: mouse, radius: SOCKET_OUTER_RADIUS },
        Outline::Circle { center: mouse, radius: SOCKET_INNER_RADIUS },
    ]
}

/// What the sketch in progress shows: a ball or box from its anchor once
/// it has one, the marker at the pointer for a ball socket, nothing else.
pub open spec fn preview_spec(g: GameView) -> Seq<Outline> {
    match g.action {
        Action::Sketching { kind: ShapeKind::BallSocket, .. } => socket_marker_spec(g.mouse),
        Action::Sketching { kind: ShapeKind::Ball, anchor: Some(a) } => seq![
            temp_ball_spec(g.camera, a, g.pointer_world()),
        ],
        Action::Sketching { kind: ShapeKind::Cuboid, anchor: Some(a) } => seq![
            temp_cuboid_spec(g.camera, a, g.pointer_world()),
        ],
        _ => seq![],
    }
}

/// Scales a world length by the camera's zoom.
pub fn scale_length(camera: &Camera, len: i64) -> (r: i64)
    requires
        camera@.wf(),
        -LENGTH_LIMIT <= len <= LENGTH_LIMIT,
    ensures
        r == window_length(camera@.zoom, len as int),
{
    let z = camera.zoom();
    assert(-1_000_000_000_000_000_000_000_000 <= z * len <= 1_000_000_000_000_000_000_000_000) by (nonlinear_arith)
        requires
            0 <= z < 1_000_000_000,
            -LENGTH_LIMIT <= len <= LENGTH_LIMIT,
    ;
    let n: i128 = z as i128 * len as i128;
    let q = round_div(n, MAP_SCALE);
    proof {
        lemma_div_round_bound(n as int, MAP_SCALE as int, 1_000_000_000_000_000);
    }
    q as i64
}

pub struct Draw {}

impl Draw {
    pub fn new() -> (r: Draw) {
        Draw {}
    }

    /// The marker shown at the pointer while the ball-socket tool is picked.
    pub fn render_temp_ball_in_socket(&self, mouse_position: Point) -> (r: Vec<Outline>)
        ensures
            r@ == socket_marker_spec(mouse_position),
    {
        let mut r: Vec<Outline> = Vec::new();
        r.push(Outline::Circle { center: mouse_position, radius: SOCKET_OUTER_RADIUS });
        r.push(Outline::Circle { center: mouse_position, radius: SOCKET_INNER_RADIUS });
        proof {
            assert(r@ =~= socket_marker_spec(mouse_position));
        }
        r
    }

    /// The preview of a ball sketched from `first_click` to the world point
    /// `mouse_position`: the clamped radius, scaled by the zoom, around the
    /// first click's window point.
    pub fn render_temp_ball(&self, first_click: Anchor, mouse_position: Point, camera: &Camera) -> (r:
        Outline)
        requires
            camera@.wf(),
            first_click.world.in_world_range(),
            mouse_position.in_world_range(),
        ensures
            r == temp_ball_spec(camera@, first_click, mouse_position),
    {
        let radius = ball_radius(first_click.world, mouse_position);
        Outline::Circle { center: first_click.window, radius: scale_length(camera, radius) }
    }

    /// The preview of a box sketched from `first_click` to the world point
    /// `mouse_position`: signed, clamped half-extents, scaled by the zoom,
    /// around the first click's window point.
    pub fn render_temp_cuboid(
        &self,
        first_click: Anchor,
        mouse_position: Point,
        camera: &Camera,
    ) -> (r: Outline)
        requires
            camera@.wf(),
            first_click.world.in_world_range(),
            mouse_position.in_world_range(),
        ensures
            r == temp_cuboid_spec(camera@, first_click, mouse_position),
    {
        let (w, h) = cuboid_preview_extents(first_click.world, mouse_position);
        Outline::Rect {
            center: first_click.window,
            half_width: scale_length(camera, w),
            half_height: scale_length(camera, h),
        }
    }

    /// What the session's sketch in progress shows.
    pub fn render_preview(&self, game: &Game) -> (r: Vec<Outline>)
        requires
            game@.wf(),
        ensures
            r@ == preview_spec(game@),
    {
        let mut r: Vec<Outline> = Vec::new();
        match game.action() {
            Action::Sketching { kind: ShapeKind::BallSocket, .. } => {
                return self.render_temp_ball_in_socket(game.mouse_position());
            },
            Action::Sketching { kind: ShapeKind::Ball, anchor: Some(a) } => {
                r.push(self.render_temp_ball(a, game.pointer_world(), game.camera()));
            },
            Action::Sketching { kind: ShapeKind::Cuboid, anchor: Some(a) } => {
                r.push(self.render_temp_cuboid(a, game.pointer_world(), game.camera()));
            },
            _ => {},
        }
        proof {
            assert(r@ =~= preview_spec(game@));
        }
        r
    }

    /// The outline of a ball: its centre mapped to the window, its radius
    /// scaled by the zoom.
    pub fn render_ball(&self, ball: &Ball, camera: &Camera) -> (r: Outline)
        requires
            camera@.wf(),
            ball.center.in_world_range(),
            -LENGTH_LIMIT <= ball.radius <= LENGTH_LIMIT,
        ensures
            r == (Outline::Circle {
                center: window_point(camera@, ball.center),
                radius: window_length(camera@.zoom, ball.radius as int) as i64,
            }),
    {
        Outline::Circle { center: camera.from_local(ball.center), radius: scale_length(camera, ball.radius) }
    }

    /// The outline of a box: its centre mapped to the window, its
    /// half-extents scaled by the zoom.
    pub fn render_cuboid(&self, cuboid: &Cuboid, camera: &Camera) -> (r: Outline)
        requires
            camera@.wf(),
            cuboid.center.in_world_range(),
            -LENGTH_LIMIT <= cuboid.width <= LENGTH_LIMIT,
            -LENGTH_LIMIT <= cuboid.height <= LENGTH_LIMIT,
        ensures
            r == (Outline::Rect {
                center: window_point(camera@, cuboid.center),
                half_width: window_length(camera@.zoom, cuboid.width as int) as i64,
                half_height: window_length(camera@.zoom, cuboid.height as int) as i64,
            }),
    {
        Outline::Rect {
            center: camera.from_local(cuboid.center),
            half_width: scale_length(camera, cuboid.width),
            half_height: scale_length(camera, cuboid.height),
        }
    }
}

} // verus!
