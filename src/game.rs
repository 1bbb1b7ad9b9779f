//! The interaction state machine: it turns pointer, key, scroll, resize and
//! update events into a new state and into the commands that the physics
//! world has to carry out.
use crate::camera::{Camera, CameraView, PAN_LIMIT};
use crate::geometry::Point;
use crate::shape::{
    abs_spec, ball_radius, ball_radius_spec, clamp_extent_spec, cuboid_half_extents, dist_sq,
};
use vstd::prelude::*;

verus! {

/// Smallest zoom factor that zooming out reaches: twelve pixels per world unit.
pub const MIN_ZOOM: u64 = 12_000_000;

/// Largest zoom factor that zooming in reaches: seventy-five pixels per world unit.
pub const MAX_ZOOM: u64 = 75_000_000;

/// How far the camera pans per microsecond while a direction is held, in
/// world sub-units: a hundred world units per second.
pub const CAMERA_SPEED: i64 = 100;

/// Width of the window a session starts with, in pixels.
pub const INITIAL_WIDTH: u32 = 800;

/// Height of the window a session starts with, in pixels.
pub const INITIAL_HEIGHT: u32 = 600;

/// Handle of a body in the physics world: a slot and the generation of
/// whatever occupies it, so that a handle to a removed body is told apart.
#[derive(Clone, Copy, PartialEq, Eq, Structural, Debug)]
pub struct BodyId {
    pub index: u64,
    pub generation: u64,
}

/// The kinds of shape that can be sketched.
#[derive(Clone, Copy, PartialEq, Eq, Structural, Debug)]
pub enum ShapeKind {
    Ball,
    Cuboid,
    BallSocket,
}

/// The first click of a sketch, in window and in world coordinates.
#[derive(Clone, Copy, PartialEq, Eq, Structural, Debug)]
pub struct Anchor {
    pub window: Point,
    pub world: Point,
}

/// What the pointer is doing: nothing, dragging a body, or sketching a
/// shape. A sketch without an anchor waits for its first click; one with an
/// anchor waits for the release that commits it.
#[derive(Clone, Copy, PartialEq, Eq, Structural, Debug)]
pub enum Action {
    Idle,
    Dragging { body: BodyId },
    Sketching { kind: ShapeKind, anchor: Option<Anchor> },
}

#[derive(Clone, Copy, PartialEq, Eq, Structural, Debug)]
pub enum MouseButton {
    Left,
    Right,
    Middle,
    Other,
}

/// The keys the session reacts to: arrows pan, `D1`, `D2` and `D4` pick the
/// ball, box and ball-socket tools, `Space` pauses, `W` and `S` zoom.
#[derive(Clone, Copy, PartialEq, Eq, Structural, Debug)]
pub enum Key {
    Up,
    Down,
    Left,
    Right,
    D1,
    D2,
    D4,
    Space,
    W,
    S,
    Other,
}

/// Work for the physics world, in world sub-units.
#[derive(Clone, Copy, PartialEq, Eq, Structural, Debug)]
pub enum Command {
    /// Pin the point of `body` under `target` to `target` with the drag joint.
    AttachDragJoint { body: BodyId, target: Point },
    /// Move the free end of the drag joint to `target`.
    MoveDragJoint { target: Point },
    /// Remove the drag joint.
    ReleaseDragJoint,
    /// Add a dynamic ball of the default material.
    AddBall { center: Point, radius: i64 },
    /// Add a dynamic box of the default material.
    AddCuboid { center: Point, half_width: i64, half_height: i64 },
    /// Advance the simulation by one fixed time step and refresh the
    /// constraints that are drawn.
    Step,
}

/// What a session is.
pub struct GameView {
    pub camera: CameraView,
    pub paused: bool,
    pub action: Action,
    pub mouse: Point,
    pub move_up: bool,
    pub move_down: bool,
    pub move_left: bool,
    pub move_right: bool,
}

impl GameView {
    pub open spec fn wf(self) -> bool {
        &&& self.camera.wf()
        &&& self.mouse.in_window_range()
        &&& match self.action {
            Action::Sketching { anchor: Some(a), .. } => a.world.in_world_range(),
            _ => true,
        }
    }

    /// The world point under the pointer, through the current camera.
    pub open spec fn pointer_world(self) -> Point {
        Point {
            x: self.camera.world_x(self.mouse.x as int) as i64,
            y: self.camera.world_y(self.mouse.y as int) as i64,
        }
    }

    pub open spec fn with_action(self, action: Action) -> GameView {
        GameView { action, ..self }
    }

    pub open spec fn with_zoom(self, zoom: int) -> GameView {
        GameView { camera: CameraView { zoom, ..self.camera }, ..self }
    }
}

/// The zoom factor after one step in: four thirds, at most `MAX_ZOOM`.
pub open spec fn zoom_in_spec(z: int) -> int {
    if z * 4 / 3 > MAX_ZOOM {
        MAX_ZOOM as int
    } else {
        z * 4 / 3
    }
}

/// The zoom factor after one step out: three quarters, at least `MIN_ZOOM`.
pub open spec fn zoom_out_spec(z: int) -> int {
    if z * 3 / 4 < MIN_ZOOM {
        MIN_ZOOM as int
    } else {
        z * 3 / 4
    }
}

/// `1` towards `pos`, `-1` towards `neg`, `0` for both or neither.
pub open spec fn axis_direction(neg: bool, pos: bool) -> int {
    (if pos { 1int } else { 0int }) - (if neg { 1int } else { 0int })
}

/// A pan coordinate kept within `[-PAN_LIMIT, PAN_LIMIT]`.
pub open spec fn clamp_pan(x: int) -> int {
    if x < -PAN_LIMIT {
        -PAN_LIMIT as int
    } else if x > PAN_LIMIT {
        PAN_LIMIT as int
    } else {
        x
    }
}

/// A release at `p` of a sketch of `kind` anchored at `a`.
pub open spec fn sketch_release(g: GameView, kind: ShapeKind, a: Anchor, p: Point) -> (
    GameView,
    Seq<Command>,
) {
    match kind {
        ShapeKind::Ball => if dist_sq(a.world, p) > 0 {
            (
                g.with_action(Action::Idle),
                seq![
                    Command::AddBall {
                        center: a.world,
                        radius: ball_radius_spec(a.world, p) as i64,
                    },
                ],
            )
        } else {
            (g, seq![])
        },
        ShapeKind::Cuboid => if p != a.world {
            (
                g.with_action(Action::Idle),
                seq![
                    Command::AddCuboid {
                        center: a.world,
                        half_width: clamp_extent_spec(abs_spec(p.x - a.world.x)) as i64,
                        half_height: clamp_extent_spec(abs_spec(p.y - a.world.y)) as i64,
                    },
                ],
            )
        } else {
            (g, seq![])
        },
        ShapeKind::BallSocket => (g, seq![]),
    }
}

/// State and commands after a mouse button goes down (`pressed`) or up,
/// with `hit` the movable body under the pointer, if any.
pub open spec fn button_step(
    g: GameView,
    button: MouseButton,
    pressed: bool,
    hit: Option<BodyId>,
) -> (GameView, Seq<Command>) {
    let p = g.pointer_world();
    match button {
        MouseButton::Left => match g.action {
            Action::Idle => if pressed {
                match hit {
                    Some(b) => (
                        g.with_action(Action::Dragging { body: b }),
                        seq![Command::AttachDragJoint { body: b, target: p }],
                    ),
                    None => (g, seq![]),
                }
            } else {
                (g, seq![])
            },
            Action::Dragging { .. } => if pressed {
                match hit {
                    Some(b) => (
                        g.with_action(Action::Dragging { body: b }),
                        seq![
                            Command::ReleaseDragJoint,
                            Command::AttachDragJoint { body: b, target: p },
                        ],
                    ),
                    None => (g.with_action(Action::Idle), seq![Command::ReleaseDragJoint]),
                }
            } else {
                (g.with_action(Action::Idle), seq![Command::ReleaseDragJoint])
            },
            Action::Sketching { kind, anchor } => match kind {
                ShapeKind::BallSocket => (g, seq![]),
                _ => match anchor {
                    None => if pressed {
                        (
                            g.with_action(
                                Action::Sketching {
                                    kind,
                                    anchor: Some(Anchor { window: g.mouse, world: p }),
                                },
                            ),
                            seq![],
                        )
                    } else {
                        (g, seq![])
                    },
                    Some(a) => if pressed {
                        (g, seq![])
                    } else {
                        sketch_release(g, kind, a, p)
                    },
                },
            },
        },
        _ => (g, seq![]),
    }
}

/// State and commands after the pointer moves to `p`.
pub open spec fn move_step(g: GameView, p: Point) -> (GameView, Seq<Command>) {
    let moved = GameView { mouse: p, ..g };
    match g.action {
        Action::Dragging { .. } => (
            moved,
            seq![Command::MoveDragJoint { target: moved.pointer_world() }],
        ),
        _ => (moved, seq![]),
    }
}

/// State and commands after a tool is picked: any sketch is dropped, any
/// drag is ended.
pub open spec fn select_step(g: GameView, kind: ShapeKind) -> (GameView, Seq<Command>) {
    let next = g.with_action(Action::Sketching { kind, anchor: None });
    match g.action {
        Action::Dragging { .. } => (next, seq![Command::ReleaseDragJoint]),
        _ => (next, seq![]),
    }
}

/// State and commands after `key` goes down (`pressed`) or up.
pub open spec fn key_step(g: GameView, key: Key, pressed: bool) -> (GameView, Seq<Command>) {
    match key {
        Key::Up => (GameView { move_up: pressed, ..g }, seq![]),
        Key::Down => (GameView { move_down: pressed, ..g }, seq![]),
        Key::Left => (GameView { move_left: pressed, ..g }, seq![]),
        Key::Right => (GameView { move_right: pressed, ..g }, seq![]),
        Key::D1 => if pressed { select_step(g, ShapeKind::Ball) } else { (g, seq![]) },
        Key::D2 => if pressed { select_step(g, ShapeKind::Cuboid) } else { (g, seq![]) },
        Key::D4 => if pressed { select_step(g, ShapeKind::BallSocket) } else { (g, seq![]) },
        Key::Space => if pressed { (GameView { paused: !g.paused, ..g }, seq![]) } else { (g, seq![]) },
        Key::W => if pressed { (g.with_zoom(zoom_in_spec(g.camera.zoom)), seq![]) } else { (g, seq![]) },
        Key::S => if pressed { (g.with_zoom(zoom_out_spec(g.camera.zoom)), seq![]) } else { (g, seq![]) },
        Key::Other => (g, seq![]),
    }
}

/// State after a scroll: down (`dy < 0`) zooms out, anything else zooms in.
pub open spec fn scroll_step(g: GameView, dy: int) -> GameView {
    if dy < 0 {
        g.with_zoom(zoom_out_spec(g.camera.zoom))
    } else {
        g.with_zoom(zoom_in_spec(g.camera.zoom))
    }
}

/// State and commands after `dt` microseconds: the simulation steps unless
/// paused, and the camera pans along the held directions either way.
pub open spec fn update_step(g: GameView, dt: int) -> (GameView, Seq<Command>) {
    let dx = axis_direction(g.move_left, g.move_right) * CAMERA_SPEED * dt;
    let dy = axis_direction(g.move_up, g.move_down) * CAMERA_SPEED * dt;
    let camera = CameraView {
        pan_x: clamp_pan(g.camera.pan_x + dx),
        pan_y: clamp_pan(g.camera.pan_y + dy),
        ..g.camera
    };
    (GameView { camera, ..g }, if g.paused { seq![] } else { seq![Command::Step] })
}

/// One session: camera, pause flag, pointer, held pan keys, and what the
/// pointer is doing.
pub struct Game {
    camera: Camera,
    paused: bool,
    action: Action,
    mouse_position: Point,
    move_camera_up: bool,
    move_camera_down: bool,
    move_camera_left: bool,
    move_camera_right: bool,
}

impl View for Game {
    type V = GameView;

    closed spec fn view(&self) -> GameView {
        GameView {
            camera: self.camera@,
            paused: self.paused,
            action: self.action,
            mouse: self.mouse_position,
            move_up: self.move_camera_up,
            move_down: self.move_camera_down,
            move_left: self.move_camera_left,
            move_right: self.move_camera_right,
        }
    }
}


/// A command list of one command.
fn one(c: Command) -> (r: Vec<Command>)
    ensures
        r@ == seq![c],
{
    let mut r: Vec<Command> = Vec::new();
    r.push(c);
    proof {
        assert(r@ =~= seq![c]);
    }
    r
}

impl Game {
    /// A session over an 800 by 600 window: paused, idle, camera at the
    /// origin with the initial zoom.
    pub fn new() -> (r: Game)
        ensures
            r@.wf(),
            r@.camera.pan_x == 0,
            r@.camera.pan_y == 0,
            r@.camera.zoom == crate::camera::INITIAL_ZOOM,
            r@.camera.width == INITIAL_WIDTH,
            r@.camera.height == INITIAL_HEIGHT,
            r@.paused,
            r@.action == Action::Idle,
            r@.mouse == (Point { x: 0, y: 0 }),
            !r@.move_up && !r@.move_down && !r@.move_left && !r@.move_right,
    {
        Game {
            camera: Camera::new(INITIAL_WIDTH, INITIAL_HEIGHT),
            paused: true,
            action: Action::Idle,
            mouse_position: Point { x: 0, y: 0 },
            move_camera_up: false,
            move_camera_down: false,
            move_camera_left: false,
            move_camera_right: false,
        }
    }

    pub fn camera(&self) -> (r: &Camera)
        ensures
            r@ == self@.camera,
    {
        &self.camera
    }

    pub fn action(&self) -> (r: Action)
        ensures
            r == self@.action,
    {
        self.action
    }

    pub fn is_paused(&self) -> (r: bool)
        ensures
            r == self@.paused,
    {
        self.paused
    }

    /// The pointer's position in the window.
    pub fn mouse_position(&self) -> (r: Point)
        ensures
            r == self@.mouse,
    {
        self.mouse_position
    }

    /// The world point under the pointer, through the current camera.
    pub fn pointer_world(&self) -> (r: Point)
        requires
            self@.wf(),
        ensures
            r == self@.pointer_world(),
            r.in_world_range(),
    {
        self.camera.to_local(self.mouse_position)
    }

    /// One zoom step in: four thirds, at most `MAX_ZOOM`.
    pub fn zoom_in(&mut self)
        requires
            old(self)@.wf(),
        ensures
            final(self)@ == old(self)@.with_zoom(zoom_in_spec(old(self)@.camera.zoom)),
            final(self)@.wf(),
    {
        let z = self.camera.zoom();
        let zoom = z / 3 * 4 + z % 3 * 4 / 3;
        assert(zoom == z * 4 / 3);
        let zoom = if zoom > MAX_ZOOM { MAX_ZOOM } else { zoom };
        self.camera.set_zoom(zoom);
    }

    /// One zoom step out: three quarters, at least `MIN_ZOOM`.
    pub fn zoom_out(&mut self)
        requires
            old(self)@.wf(),
        ensures
            final(self)@ == old(self)@.with_zoom(zoom_out_spec(old(self)@.camera.zoom)),
            final(self)@.wf(),
    {
        let z = self.camera.zoom();
        let zoom = z / 4 * 3 + z % 4 * 3 / 4;
        assert(zoom == z * 3 / 4);
        let zoom = if zoom < MIN_ZOOM { MIN_ZOOM } else { zoom };
        self.camera.set_zoom(zoom);
    }

    /// Pans the camera along the held directions for `dt` microseconds.
    fn trans_camera(&mut self, dt: u64)
        requires
            old(self)@.wf(),
        ensures
            final(self)@ == update_step(old(self)@, dt as int).0,
            final(self)@.wf(),
    {
        let step: i128 = CAMERA_SPEED as i128 * dt as i128;
        let dir_x: i128 = if self.move_camera_right { 1 } else { 0 } - if self.move_camera_left { 1 } else { 0 };
        let dir_y: i128 = if self.move_camera_down { 1 } else { 0 } - if self.move_camera_up { 1 } else { 0 };
        proof {
            let ax = axis_direction(self.move_camera_left, self.move_camera_right);
            let ay = axis_direction(self.move_camera_up, self.move_camera_down);
            assert(dir_x * step == ax * CAMERA_SPEED * dt) by (nonlinear_arith)
                requires
                    dir_x == ax,
                    step == CAMERA_SPEED * dt,
            ;
            assert(dir_y * step == ay * CAMERA_SPEED * dt) by (nonlinear_arith)
                requires
                    dir_y == ay,
                    step == CAMERA_SPEED * dt,
            ;
        }
        let pan = self.camera.position();
        let x = Self::clamp_pan(pan.x as i128 + dir_x * step);
        let y = Self::clamp_pan(pan.y as i128 + dir_y * step);
        self.camera.trans(Point { x: x - pan.x, y: y - pan.y });
        proof {
            assert(self@.camera == update_step(old(self)@, dt as int).0.camera);
        }
    }

    fn clamp_pan(x: i128) -> (r: i64)
        ensures
            r == clamp_pan(x as int),
    {
        if x < -(PAN_LIMIT as i128) {
            -PAN_LIMIT
        } else if x > PAN_LIMIT as i128 {
            PAN_LIMIT
        } else {
            x as i64
        }
    }

    /// Steps the simulation unless paused, then pans the camera; `dt` is the
    /// wall-clock time since the last update, in microseconds.
    pub fn update(&mut self, dt: u64) -> (r: Vec<Command>)
        requires
            old(self)@.wf(),
        ensures
            final(self)@ == update_step(old(self)@, dt as int).0,
            r@ == update_step(old(self)@, dt as int).1,
            final(self)@.wf(),
    {
        let r = if self.paused {
            Vec::new()
        } else {
            one(Command::Step)
        };
        self.trans_camera(dt);
        proof {
            assert(r@ =~= update_step(old(self)@, dt as int).1);
        }
        r
    }

    pub fn handle_mouse_move(&mut self, x: i64, y: i64) -> (r: Vec<Command>)
        requires
            old(self)@.wf(),
            (Point { x, y }).in_window_range(),
        ensures
            final(self)@ == move_step(old(self)@, Point { x, y }).0,
            r@ == move_step(old(self)@, Point { x, y }).1,
            final(self)@.wf(),
    {
        self.mouse_position = Point { x, y };
        match self.action {
            Action::Dragging { .. } => one(Command::MoveDragJoint { target: self.pointer_world() }),
            _ => {
                let r: Vec<Command> = Vec::new();
                proof {
                    assert(r@ =~= seq![]);
                }
                r
            },
        }
    }

    /// Reacts to a mouse button going down (`pressed`) or up; `hit` is the
    /// movable body under the pointer, if any.
    pub fn handle_mouse_button(&mut self, button: MouseButton, pressed: bool, hit: Option<BodyId>) -> (r: Vec<
        Command,
    >)
        requires
            old(self)@.wf(),
        ensures
            final(self)@ == button_step(old(self)@, button, pressed, hit).0,
            r@ == button_step(old(self)@, button, pressed, hit).1,
            final(self)@.wf(),
    {
        let mut r: Vec<Command> = Vec::new();
        match button {
            MouseButton::Left => {},
            _ => {
                proof {
                    assert(r@ =~= seq![]);
                }
                return r;
            },
        }
        let p = self.pointer_world();
        match self.action {
            Action::Idle => {
                if pressed {
                    if let Some(b) = hit {
                        self.action = Action::Dragging { body: b };
                        r.push(Command::AttachDragJoint { body: b, target: p });
                    }
                }
            },
            Action::Dragging { .. } => {
                r.push(Command::ReleaseDragJoint);
                self.action = Action::Idle;
                if pressed {
                    if let Some(b) = hit {
                        self.action = Action::Dragging { body: b };
                        r.push(Command::AttachDragJoint { body: b, target: p });
                    }
                }
            },
            Action::Sketching { kind, anchor } => {
                match kind {
                    ShapeKind::BallSocket => {},
                    _ => match anchor {
                        None => {
                            if pressed {
                                self.action = Action::Sketching {
                                    kind,
                                    anchor: Some(Anchor { window: self.mouse_position, world: p }),
                                };
                            }
                        },
                        Some(a) => {
                            if !pressed {
                                self.release_sketch(kind, a, p, &mut r);
                            }
                        },
                    },
                }
            },
        }
        proof {
            assert(r@ =~= button_step(old(self)@, button, pressed, hit).1);
        }
        r
    }

    /// Commits a sketch of `kind` anchored at `a` on a release at `p`, when
    /// the pointer has moved off the anchor.
    fn release_sketch(&mut self, kind: ShapeKind, a: Anchor, p: Point, r: &mut Vec<Command>)
        requires
            old(r)@ == Seq::<Command>::empty(),
            a.world.in_world_range(),
            p.in_world_range(),
        ensures
            final(self)@ == sketch_release(old(self)@, kind, a, p).0,
            final(r)@ == sketch_release(old(self)@, kind, a, p).1,
    {
        match kind {
            ShapeKind::Ball => {
                let dx: i128 = p.x as i128 - a.world.x as i128;
                let dy: i128 = p.y as i128 - a.world.y as i128;
                if dx != 0 || dy != 0 {
                    proof {
                        assert(dist_sq(a.world, p) > 0) by (nonlinear_arith)
                            requires
                                dist_sq(a.world, p) == dx * dx + dy * dy,
                                dx != 0 || dy != 0,
                        ;
                    }
                    let radius = ball_radius(a.world, p);
                    self.action = Action::Idle;
                    r.push(Command::AddBall { center: a.world, radius });
                } else {
                    assert(dist_sq(a.world, p) == 0);
                }
            },
            ShapeKind::Cuboid => {
                if p.x != a.world.x || p.y != a.world.y {
                    let (w, h) = cuboid_half_extents(a.world, p);
                    self.action = Action::Idle;
                    r.push(Command::AddCuboid { center: a.world, half_width: w, half_height: h });
                }
            },
            ShapeKind::BallSocket => {},
        }
        proof {
            assert(final(r)@ =~= sketch_release(old(self)@, kind, a, p).1);
        }
    }

    /// Picks the sketch tool of `kind`: any sketch in progress is dropped and
    /// any drag is ended.
    fn select(&mut self, kind: ShapeKind) -> (r: Vec<Command>)
        requires
            old(self)@.wf(),
        ensures
            final(self)@ == select_step(old(self)@, kind).0,
            r@ == select_step(old(self)@, kind).1,
            final(self)@.wf(),
    {
        let r = match self.action {
            Action::Dragging { .. } => one(Command::ReleaseDragJoint),
            _ => Vec::new(),
        };
        self.action = Action::Sketching { kind, anchor: None };
        proof {
            assert(r@ =~= select_step(old(self)@, kind).1);
        }
        r
    }

    pub fn handle_key(&mut self, key: Key, pressed: bool) -> (r: Vec<Command>)
        requires
            old(self)@.wf(),
        ensures
            final(self)@ == key_step(old(self)@, key, pressed).0,
            r@ == key_step(old(self)@, key, pressed).1,
            final(self)@.wf(),
    {
        let r: Vec<Command> = Vec::new();
        match key {
            Key::Up => self.move_camera_up = pressed,
            Key::Down => self.move_camera_down = pressed,
            Key::Left => self.move_camera_left = pressed,
            Key::Right => self.move_camera_right = pressed,
            Key::D1 => if pressed {
                return self.select(ShapeKind::Ball);
            },
            Key::D2 => if pressed {
                return self.select(ShapeKind::Cuboid);
            },
            Key::D4 => if pressed {
                return self.select(ShapeKind::BallSocket);
            },
            Key::Space => if pressed {
                self.paused = !self.paused;
            },
            Key::W => if pressed {
                self.zoom_in();
            },
            Key::S => if pressed {
                self.zoom_out();
            },
            Key::Other => {},
        }
        proof {
            assert(r@ =~= key_step(old(self)@, key, pressed).1);
        }
        r
    }

    /// Zooms out on a scroll down (`dy < 0`), in otherwise.
    pub fn handle_mouse_scroll(&mut self, _dx: i64, dy: i64)
        requires
            old(self)@.wf(),
        ensures
            final(self)@ == scroll_step(old(self)@, dy as int),
            final(self)@.wf(),
    {
        if dy < 0 {
            self.zoom_out();
        } else {
            self.zoom_in();
        }
    }

    /// The window now measures `width` by `height` pixels.
    pub fn handle_resize(&mut self, width: u32, height: u32)
        requires
            old(self)@.wf(),
        ensures
            final(self)@ == (GameView {
                camera: CameraView { width: width as int, height: height as int, ..old(self)@.camera },
                ..old(self)@
            }),
            final(self)@.wf(),
    {
        self.camera.set_size(width, height);
    }
}

} // verus!
