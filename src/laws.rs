//! What holds of the session over several events.
use crate::camera::PAN_LIMIT;
use crate::game::{
    button_step, clamp_pan, key_step, move_step, scroll_step, update_step, Action, BodyId,
    Command, GameView, Key, MouseButton, ShapeKind, MAX_ZOOM, MIN_ZOOM, zoom_in_spec,
    zoom_out_spec,
};
use crate::geometry::Point;
use vstd::prelude::*;

verus! {

/// Drag joints that a command list attaches, less those that it removes.
pub open spec fn joint_balance(cs: Seq<Command>) -> int
    decreases cs.len(),
{
    if cs.len() == 0 {
        0
    } else {
        joint_balance(cs.drop_last()) + match cs.last() {
            Command::AttachDragJoint { .. } => 1int,
            Command::ReleaseDragJoint => -1int,
            _ => 0int,
        }
    }
}

/// `1` while a body is dragged, `0` otherwise.
pub open spec fn drag_count(a: Action) -> int {
    match a {
        Action::Dragging { .. } => 1,
        _ => 0,
    }
}

/// No command of `cs` adds a ball.
pub open spec fn adds_no_ball(cs: Seq<Command>) -> bool {
    forall|i: int| 0 <= i < cs.len() ==> !(#[trigger] cs[i] is AddBall)
}

proof fn lemma_joint_balance_append(a: Seq<Command>, b: Seq<Command>)
    ensures
        joint_balance(a + b) == joint_balance(a) + joint_balance(b),
    decreases b.len(),
{
    if b.len() == 0 {
        assert(a + b =~= a);
    } else {
        lemma_joint_balance_append(a, b.drop_last());
        assert((a + b).drop_last() =~= a + b.drop_last());
    }
}

proof fn lemma_joint_balance_small(cs: Seq<Command>)
    ensures
        cs.len() == 0 ==> joint_balance(cs) == 0,
        cs.len() == 1 ==> joint_balance(cs) == joint_balance(Seq::<Command>::empty()) + match cs[0] {
            Command::AttachDragJoint { .. } => 1int,
            Command::ReleaseDragJoint => -1int,
            _ => 0int,
        },
        cs.len() == 2 ==> joint_balance(cs) == joint_balance(seq![cs[0]]) + match cs[1] {
            Command::AttachDragJoint { .. } => 1int,
            Command::ReleaseDragJoint => -1int,
            _ => 0int,
        },
{
    if cs.len() == 1 {
        assert(cs.drop_last() =~= Seq::<Command>::empty());
    }
    if cs.len() == 2 {
        assert(cs.drop_last() =~= seq![cs[0]]);
        assert(seq![cs[0]].drop_last() =~= Seq::<Command>::empty());
    }
}

/// The drag joint is accounted for: every mouse-button event attaches as
/// many drag joints, less those it removes, as it starts drags, less those
/// it ends. So a live drag joint exists exactly while a body is dragged.
pub proof fn lemma_button_joint_accounting(
    g: GameView,
    button: MouseButton,
    pressed: bool,
    hit: Option<BodyId>,
)
    ensures
        joint_balance(button_step(g, button, pressed, hit).1) == drag_count(
            button_step(g, button, pressed, hit).0.action,
        ) - drag_count(g.action),
{
    let cs = button_step(g, button, pressed, hit).1;
    lemma_joint_balance_small(cs);
    if cs.len() == 2 {
        lemma_joint_balance_small(seq![cs[0]]);
    }
}

/// The same accounting for key events: picking a tool while dragging
/// removes the drag joint.
pub proof fn lemma_key_joint_accounting(g: GameView, key: Key, pressed: bool)
    ensures
        joint_balance(key_step(g, key, pressed).1) == drag_count(key_step(g, key, pressed).0.action)
            - drag_count(g.action),
{
    lemma_joint_balance_small(key_step(g, key, pressed).1);
}

/// Drag lifecycle: from an idle session, pressing the primary button over a
/// movable body starts a drag of it; after any pointer move and the
/// release, no drag joint is left and no body is held. Pressing over empty
/// space changes nothing and attaches nothing.
pub proof fn lemma_drag_lifecycle(g: GameView, b: BodyId, to: Point, hit: Option<BodyId>)
    requires
        g.wf(),
        g.action == Action::Idle,
        to.in_window_range(),
    ensures
        button_step(g, MouseButton::Left, true, None) == (g, Seq::<Command>::empty()),
        ({
            let (g1, c1) = button_step(g, MouseButton::Left, true, Some(b));
            let (g2, c2) = move_step(g1, to);
            let (g3, c3) = button_step(g2, MouseButton::Left, false, hit);
            &&& g1.action == Action::Dragging { body: b }
            &&& g3.action == Action::Idle
            &&& joint_balance(c1 + c2 + c3) == 0
        }),
{
    let (g1, c1) = button_step(g, MouseButton::Left, true, Some(b));
    let (g2, c2) = move_step(g1, to);
    let (g3, c3) = button_step(g2, MouseButton::Left, false, hit);
    lemma_button_joint_accounting(g, MouseButton::Left, true, Some(b));
    lemma_button_joint_accounting(g2, MouseButton::Left, false, hit);
    lemma_joint_balance_small(c2);
    lemma_joint_balance_append(c1, c2);
    lemma_joint_balance_append(c1 + c2, c3);
}

/// Zoom factor after `n` steps in from `z`.
pub open spec fn zoom_in_times(z: int, n: nat) -> int
    decreases n,
{
    if n == 0 {
        z
    } else {
        zoom_in_spec(zoom_in_times(z, (n - 1) as nat))
    }
}

/// Zoom factor after `n` steps out from `z`.
pub open spec fn zoom_out_times(z: int, n: nat) -> int
    decreases n,
{
    if n == 0 {
        z
    } else {
        zoom_out_spec(zoom_out_times(z, (n - 1) as nat))
    }
}

/// Zoom bounds: any number of steps in from `MAX_ZOOM` stays at `MAX_ZOOM`,
/// any number of steps out from `MIN_ZOOM` stays at `MIN_ZOOM`, and a step
/// either way from within the bounds stays within them.
pub proof fn lemma_zoom_bounds(n: nat, z: int)
    ensures
        zoom_in_times(MAX_ZOOM as int, n) == MAX_ZOOM,
        zoom_out_times(MIN_ZOOM as int, n) == MIN_ZOOM,
        MIN_ZOOM <= z <= MAX_ZOOM ==> MIN_ZOOM <= zoom_in_spec(z) <= MAX_ZOOM,
        MIN_ZOOM <= z <= MAX_ZOOM ==> MIN_ZOOM <= zoom_out_spec(z) <= MAX_ZOOM,
    decreases n,
{
    if n > 0 {
        lemma_zoom_bounds((n - 1) as nat, z);
    }
}

/// Scrolling and the zoom keys zoom alike: a scroll up is the `W` key, a
/// scroll down the `S` key.
pub proof fn lemma_scroll_matches_keys(g: GameView, dy: int)
    ensures
        dy >= 0 ==> scroll_step(g, dy) == key_step(g, Key::W, true).0,
        dy < 0 ==> scroll_step(g, dy) == key_step(g, Key::S, true).0,
        key_step(g, Key::W, true).1 == Seq::<Command>::empty(),
        key_step(g, Key::S, true).1 == Seq::<Command>::empty(),
{
}

/// State and commands after one update per entry of `dts`, in order.
pub open spec fn updates(g: GameView, dts: Seq<nat>) -> (GameView, Seq<Command>)
    decreases dts.len(),
{
    if dts.len() == 0 {
        (g, seq![])
    } else {
        let (h, cs) = updates(g, dts.drop_last());
        let (k, ds) = update_step(h, dts.last() as int);
        (k, cs + ds)
    }
}

/// Pause: while paused, no number of updates asks the world to step, so no
/// body moves; the session stays paused and its pointer state is kept.
pub proof fn lemma_paused_updates(g: GameView, dts: Seq<nat>)
    requires
        g.paused,
    ensures
        updates(g, dts).1 == Seq::<Command>::empty(),
        updates(g, dts).0.paused,
        updates(g, dts).0.action == g.action,
        updates(g, dts).0.camera.zoom == g.camera.zoom,
    decreases dts.len(),
{
    if dts.len() > 0 {
        lemma_paused_updates(g, dts.drop_last());
        let (h, cs) = updates(g, dts.drop_last());
        assert(cs + update_step(h, dts.last() as int).1 =~= Seq::<Command>::empty());
    }
}

/// Pause does not stop panning: a paused update with the right arrow held
/// (and not the left) moves the camera right, until the pan limit.
pub proof fn lemma_paused_update_pans(g: GameView, dt: nat)
    requires
        g.wf(),
        g.paused,
        g.move_right,
        !g.move_left,
        dt > 0,
        g.camera.pan_x < PAN_LIMIT,
    ensures
        update_step(g, dt as int).1 == Seq::<Command>::empty(),
        update_step(g, dt as int).0.camera.pan_x == clamp_pan(g.camera.pan_x + 100 * dt),
        update_step(g, dt as int).0.camera.pan_x > g.camera.pan_x,
{
}

/// Switching tools abandons a sketch: once a ball sketch has its anchor,
/// picking the box tool drops it, and no press, move and release that
/// follow add a ball.
pub proof fn lemma_switch_abandons_sketch(
    g: GameView,
    to: Point,
    press_hit: Option<BodyId>,
    release_hit: Option<BodyId>,
)
    requires
        g.wf(),
        g.action is Sketching,
        g.action->kind == ShapeKind::Ball,
        g.action->anchor is Some,
        to.in_window_range(),
    ensures
        ({
            let (g1, c1) = key_step(g, Key::D2, true);
            let (g2, c2) = button_step(g1, MouseButton::Left, true, press_hit);
            let (g3, c3) = move_step(g2, to);
            let (g4, c4) = button_step(g3, MouseButton::Left, false, release_hit);
            &&& g1.action == (Action::Sketching { kind: ShapeKind::Cuboid, anchor: None })
            &&& c1 == Seq::<Command>::empty()
            &&& adds_no_ball(c1 + c2 + c3 + c4)
        }),
{
    let (g1, c1) = key_step(g, Key::D2, true);
    let (g2, c2) = button_step(g1, MouseButton::Left, true, press_hit);
    let (g3, c3) = move_step(g2, to);
    let (g4, c4) = button_step(g3, MouseButton::Left, false, release_hit);
    assert(c1 + c2 + c3 =~= Seq::<Command>::empty());
    let cs = c1 + c2 + c3 + c4;
    assert forall|i: int| 0 <= i < cs.len() implies !(#[trigger] cs[i] is AddBall) by {
        assert(cs[i] == c4[i]);
    }
}

} // verus!
