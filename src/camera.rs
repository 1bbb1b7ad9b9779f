//! The mapping between window coordinates and world coordinates.
use crate::geometry::{
    div_round, lemma_div_round_bound, lemma_floor_div_bounds, lemma_floor_div_unique, round_div,
    Point, MAP_SCALE, WINDOW_LIMIT, WORLD_LIMIT,
};
use vstd::prelude::*;

verus! {

/// Smallest zoom factor a camera holds (a thousandth of a pixel per world unit).
pub const MIN_CAMERA_ZOOM: u64 = 1_000;

/// Every zoom factor a camera holds is below this (a thousand pixels per world unit).
pub const ZOOM_CEILING: u64 = 1_000_000_000;

/// Largest magnitude of either coordinate of the camera's pan offset.
pub const PAN_LIMIT: i64 = 1_000_000_000_000_000;

/// Zoom factor of a new camera: thirty pixels per world unit.
pub const INITIAL_ZOOM: u64 = 30_000_000;

/// World coordinate that a window coordinate maps to, along one axis.
pub open spec fn world_axis(pan: int, zoom: int, half: int, p: int) -> int {
    pan + div_round((p - half) * MAP_SCALE, zoom)
}

/// Window coordinate that a world coordinate maps to, along one axis.
pub open spec fn window_axis(pan: int, zoom: int, half: int, w: int) -> int {
    half + div_round(zoom * (w - pan), MAP_SCALE as int)
}

/// What a camera is: its pan offset in world sub-units, its zoom factor, and
/// the viewport's size in pixels.
pub struct CameraView {
    pub pan_x: int,
    pub pan_y: int,
    pub zoom: int,
    pub width: int,
    pub height: int,
}

impl CameraView {
    pub open spec fn wf(self) -> bool {
        &&& MIN_CAMERA_ZOOM <= self.zoom < ZOOM_CEILING
        &&& -PAN_LIMIT <= self.pan_x <= PAN_LIMIT
        &&& -PAN_LIMIT <= self.pan_y <= PAN_LIMIT
        &&& 0 <= self.width <= u32::MAX
        &&& 0 <= self.height <= u32::MAX
    }

    /// The viewport's centre, in window sub-units.
    pub open spec fn half_width(self) -> int {
        self.width * 500
    }

    pub open spec fn half_height(self) -> int {
        self.height * 500
    }

    pub open spec fn world_x(self, p: int) -> int {
        world_axis(self.pan_x, self.zoom, self.half_width(), p)
    }

    pub open spec fn world_y(self, p: int) -> int {
        world_axis(self.pan_y, self.zoom, self.half_height(), p)
    }

    pub open spec fn window_x(self, w: int) -> int {
        window_axis(self.pan_x, self.zoom, self.half_width(), w)
    }

    pub open spec fn window_y(self, w: int) -> int {
        window_axis(self.pan_y, self.zoom, self.half_height(), w)
    }
}

/// Pan offset, zoom and viewport size; maps window points to world points
/// and back.
pub struct Camera {
    position: Point,
    zoom: u64,
    width: u32,
    height: u32,
}

impl View for Camera {
    type V = CameraView;

    closed spec fn view(&self) -> CameraView {
        CameraView {
            pan_x: self.position.x as int,
            pan_y: self.position.y as int,
            zoom: self.zoom as int,
            width: self.width as int,
            height: self.height as int,
        }
    }
}

impl Camera {
    /// A camera with no pan and the initial zoom over a viewport of the given size.
    pub fn new(width: u32, height: u32) -> (r: Camera)
        ensures
            r@.wf(),
            r@.pan_x == 0,
            r@.pan_y == 0,
            r@.zoom == INITIAL_ZOOM,
            r@.width == width,
            r@.height == height,
    {
        Camera { position: Point { x: 0, y: 0 }, zoom: INITIAL_ZOOM, width, height }
    }

    /// The pan offset, in world sub-units.
    pub fn position(&self) -> (r: Point)
        ensures
            r.x == self@.pan_x,
            r.y == self@.pan_y,
    {
        self.position
    }

    pub fn zoom(&self) -> (r: u64)
        ensures
            r == self@.zoom,
    {
        self.zoom
    }

    pub fn set_zoom(&mut self, zoom: u64)
        requires
            MIN_CAMERA_ZOOM <= zoom < ZOOM_CEILING,
            old(self)@.wf(),
        ensures
            final(self)@ == (CameraView { zoom: zoom as int, ..old(self)@ }),
    {
        self.zoom = zoom;
    }

    pub fn set_size(&mut self, width: u32, height: u32)
        ensures
            final(self)@ == (CameraView { width: width as int, height: height as int, ..old(self)@ }),
    {
        self.width = width;
        self.height = height;
    }

    /// Moves the pan offset by `delta`, in world sub-units.
    pub fn trans(&mut self, delta: Point)
        requires
            -PAN_LIMIT <= old(self)@.pan_x + delta.x <= PAN_LIMIT,
            -PAN_LIMIT <= old(self)@.pan_y + delta.y <= PAN_LIMIT,
        ensures
            final(self)@ == (CameraView {
                pan_x: old(self)@.pan_x + delta.x,
                pan_y: old(self)@.pan_y + delta.y,
                ..old(self)@
            }),
    {
        self.position = Point { x: self.position.x + delta.x, y: self.position.y + delta.y };
    }

    /// The world point under the window point `p`.
    pub fn to_local(&self, p: Point) -> (r: Point)
        requires
            self@.wf(),
            p.in_window_range(),
        ensures
            r.x == self@.world_x(p.x as int),
            r.y == self@.world_y(p.y as int),
            r.in_world_range(),
    {
        let x = Self::world_coordinate(self.position.x, self.zoom, self.width, p.x);
        let y = Self::world_coordinate(self.position.y, self.zoom, self.height, p.y);
        Point { x, y }
    }

    /// The window point at which the world point `w` appears.
    pub fn from_local(&self, w: Point) -> (r: Point)
        requires
            self@.wf(),
            w.in_world_range(),
        ensures
            r.x == self@.window_x(w.x as int),
            r.y == self@.window_y(w.y as int),
    {
        let x = Self::window_coordinate(self.position.x, self.zoom, self.width, w.x);
        let y = Self::window_coordinate(self.position.y, self.zoom, self.height, w.y);
        Point { x, y }
    }

    fn world_coordinate(pan: i64, zoom: u64, size: u32, p: i64) -> (r: i64)
        requires
            MIN_CAMERA_ZOOM <= zoom < ZOOM_CEILING,
            -PAN_LIMIT <= pan <= PAN_LIMIT,
            -WINDOW_LIMIT <= p <= WINDOW_LIMIT,
        ensures
            r == world_axis(pan as int, zoom as int, size * 500, p as int),
            -WORLD_LIMIT <= r <= WORLD_LIMIT,
    {
        let d: i128 = p as i128 - (size as i128) * 500;
        let q = round_div(d * MAP_SCALE, zoom as i128);
        proof {
            let b: int = 3_200_000_000_000_000_000;
            assert(-b * zoom <= d * MAP_SCALE <= b * zoom) by (nonlinear_arith)
                requires
                    MIN_CAMERA_ZOOM <= zoom,
                    b == 3_200_000_000_000_000_000,
                    -3_200_000_000_000 <= d <= 3_200_000_000_000,
            ;
            lemma_div_round_bound(d * MAP_SCALE, zoom as int, b);
        }
        (pan as i128 + q) as i64
    }

    fn window_coordinate(pan: i64, zoom: u64, size: u32, w: i64) -> (r: i64)
        requires
            MIN_CAMERA_ZOOM <= zoom < ZOOM_CEILING,
            -PAN_LIMIT <= pan <= PAN_LIMIT,
            -WORLD_LIMIT <= w <= WORLD_LIMIT,
        ensures
            r == window_axis(pan as int, zoom as int, size * 500, w as int),
    {
        let e: i128 = w as i128 - pan as i128;
        assert(-5_000_000_000_000_000_000_000_000_000 <= zoom * e <= 5_000_000_000_000_000_000_000_000_000)
            by (nonlinear_arith)
            requires
                0 <= zoom < ZOOM_CEILING,
                -5_000_000_000_000_000_000 <= e <= 5_000_000_000_000_000_000,
        ;
        let q = round_div(zoom as i128 * e, MAP_SCALE);
        proof {
            lemma_div_round_bound(zoom * e, MAP_SCALE as int, 5_000_000_000_000_000_000);
        }
        ((size as i128) * 500 + q) as i64
    }
}

/// Mapping a window coordinate into the world and back gives it again.
pub proof fn lemma_axis_round_trip(pan: int, zoom: int, half: int, p: int)
    requires
        0 < zoom < MAP_SCALE,
    ensures
        window_axis(pan, zoom, half, world_axis(pan, zoom, half, p)) == p,
{
    let d = p - half;
    let q = div_round(d * MAP_SCALE, zoom);
    lemma_floor_div_bounds(2 * (d * MAP_SCALE) + zoom, 2 * zoom);
    let w = pan + q;
    assert(w - pan == q);
    let x = 2 * (zoom * q) + MAP_SCALE;
    assert(2 * MAP_SCALE * d <= x < 2 * MAP_SCALE * d + 2 * MAP_SCALE) by (nonlinear_arith)
        requires
            0 < zoom < MAP_SCALE,
            (2 * zoom) * q <= 2 * (d * MAP_SCALE) + zoom < (2 * zoom) * q + 2 * zoom,
            x == 2 * (zoom * q) + MAP_SCALE,
    ;
    lemma_floor_div_unique(x, 2 * MAP_SCALE as int, d);
}

/// Round trip: for every well-formed camera, mapping a window point within
/// range into the world and mapping the result back to the window gives the
/// same window point, exactly.
pub proof fn lemma_round_trip(c: CameraView, p: Point)
    requires
        c.wf(),
        p.in_window_range(),
    ensures
        c.window_x(c.world_x(p.x as int)) == p.x,
        c.window_y(c.world_y(p.y as int)) == p.y,
{
    lemma_axis_round_trip(c.pan_x, c.zoom, c.half_width(), p.x as int);
    lemma_axis_round_trip(c.pan_y, c.zoom, c.half_height(), p.y as int);
}

} // verus!
