use physics_sandbox::game::{Action, Anchor, BodyId, Command, Game, Key, MouseButton, ShapeKind};
use physics_sandbox::geometry::Point;

fn body(index: u64) -> BodyId {
    BodyId { index, generation: 0 }
}

fn pt(x: i64, y: i64) -> Point {
    Point::new(x, y)
}

#[test]
fn new_session_is_paused_and_idle() {
    let g = Game::new();
    assert!(g.is_paused());
    assert_eq!(g.action(), Action::Idle);
    assert_eq!(g.camera().zoom(), 30_000_000);
    assert_eq!(g.camera().position(), pt(0, 0));
}

#[test]
fn pointer_maps_through_camera() {
    let mut g = Game::new();
    g.handle_mouse_move(400_000, 300_000);
    assert_eq!(g.pointer_world(), pt(0, 0));
    g.handle_mouse_move(550_000, 180_000);
    assert_eq!(g.pointer_world(), pt(5_000_000, -4_000_000));
}

#[test]
fn drag_lifecycle_leaves_no_joint() {
    let mut g = Game::new();
    g.handle_mouse_move(430_000, 300_000);
    let c = g.handle_mouse_button(MouseButton::Left, true, Some(body(7)));
    assert_eq!(c, vec![Command::AttachDragJoint { body: body(7), target: pt(1_000_000, 0) }]);
    assert_eq!(g.action(), Action::Dragging { body: body(7) });
    let c = g.handle_mouse_move(460_000, 330_000);
    assert_eq!(c, vec![Command::MoveDragJoint { target: pt(2_000_000, 1_000_000) }]);
    let c = g.handle_mouse_button(MouseButton::Left, false, None);
    assert_eq!(c, vec![Command::ReleaseDragJoint]);
    assert_eq!(g.action(), Action::Idle);
    let c = g.handle_mouse_move(400_000, 300_000);
    assert!(c.is_empty());
}

#[test]
fn press_on_empty_space_changes_nothing() {
    let mut g = Game::new();
    g.handle_mouse_move(430_000, 300_000);
    let c = g.handle_mouse_button(MouseButton::Left, true, None);
    assert!(c.is_empty());
    assert_eq!(g.action(), Action::Idle);
    let c = g.handle_mouse_button(MouseButton::Left, false, None);
    assert!(c.is_empty());
    assert_eq!(g.action(), Action::Idle);
}

#[test]
fn other_buttons_do_not_grab() {
    let mut g = Game::new();
    let c = g.handle_mouse_button(MouseButton::Right, true, Some(body(1)));
    assert!(c.is_empty());
    assert_eq!(g.action(), Action::Idle);
}

#[test]
fn second_press_while_dragging_replaces_joint() {
    let mut g = Game::new();
    g.handle_mouse_move(400_000, 300_000);
    g.handle_mouse_button(MouseButton::Left, true, Some(body(1)));
    let c = g.handle_mouse_button(MouseButton::Left, true, Some(body(2)));
    assert_eq!(
        c,
        vec![
            Command::ReleaseDragJoint,
            Command::AttachDragJoint { body: body(2), target: pt(0, 0) }
        ]
    );
    let c = g.handle_mouse_button(MouseButton::Left, true, None);
    assert_eq!(c, vec![Command::ReleaseDragJoint]);
    assert_eq!(g.action(), Action::Idle);
}

#[test]
fn picking_a_tool_while_dragging_releases_the_joint() {
    let mut g = Game::new();
    g.handle_mouse_button(MouseButton::Left, true, Some(body(3)));
    let c = g.handle_key(Key::D1, true);
    assert_eq!(c, vec![Command::ReleaseDragJoint]);
    assert_eq!(g.action(), Action::Sketching { kind: ShapeKind::Ball, anchor: None });
}

#[test]
fn ball_sketch_needs_a_drag_to_commit() {
    let mut g = Game::new();
    g.handle_key(Key::D1, true);
    g.handle_mouse_move(400_000, 300_000);
    let c = g.handle_mouse_button(MouseButton::Left, true, Some(body(1)));
    assert!(c.is_empty());
    let anchor = Anchor { window: pt(400_000, 300_000), world: pt(0, 0) };
    assert_eq!(g.action(), Action::Sketching { kind: ShapeKind::Ball, anchor: Some(anchor) });
    let c = g.handle_mouse_button(MouseButton::Left, false, None);
    assert!(c.is_empty());
    assert_eq!(g.action(), Action::Sketching { kind: ShapeKind::Ball, anchor: Some(anchor) });
    g.handle_mouse_move(550_000, 300_000);
    let c = g.handle_mouse_button(MouseButton::Left, false, None);
    assert_eq!(c, vec![Command::AddBall { center: pt(0, 0), radius: 5_000_000 }]);
    assert_eq!(g.action(), Action::Idle);
}

#[test]
fn ball_sketch_radius_is_clamped() {
    let mut g = Game::new();
    g.handle_key(Key::D1, true);
    g.handle_mouse_move(400_000, 300_000);
    g.handle_mouse_button(MouseButton::Left, true, None);
    g.handle_mouse_move(400_030, 300_000);
    let c = g.handle_mouse_button(MouseButton::Left, false, None);
    assert_eq!(c, vec![Command::AddBall { center: pt(0, 0), radius: 100_000 }]);

    g.handle_key(Key::D1, true);
    g.handle_mouse_button(MouseButton::Left, true, None);
    g.handle_mouse_move(1_000_030, 300_000);
    let c = g.handle_mouse_button(MouseButton::Left, false, None);
    assert_eq!(c, vec![Command::AddBall { center: pt(1_000, 0), radius: 10_000_000 }]);
}

#[test]
fn cuboid_sketch_commits_clamped_half_extents() {
    let mut g = Game::new();
    g.handle_key(Key::D2, true);
    g.handle_mouse_move(400_000, 300_000);
    g.handle_mouse_button(MouseButton::Left, true, None);
    g.handle_mouse_move(490_000, 180_000);
    let c = g.handle_mouse_button(MouseButton::Left, false, None);
    assert_eq!(
        c,
        vec![Command::AddCuboid { center: pt(0, 0), half_width: 3_000_000, half_height: 4_000_000 }]
    );
    assert_eq!(g.action(), Action::Idle);
}

#[test]
fn cuboid_sketch_without_motion_commits_nothing() {
    let mut g = Game::new();
    g.handle_key(Key::D2, true);
    g.handle_mouse_move(400_000, 300_000);
    g.handle_mouse_button(MouseButton::Left, true, None);
    let c = g.handle_mouse_button(MouseButton::Left, false, None);
    assert!(c.is_empty());
    g.handle_mouse_move(400_000, 303_000);
    let c = g.handle_mouse_button(MouseButton::Left, false, None);
    assert_eq!(
        c,
        vec![Command::AddCuboid { center: pt(0, 0), half_width: 100_000, half_height: 100_000 }]
    );
}

#[test]
fn ball_socket_tool_never_commits() {
    let mut g = Game::new();
    g.handle_key(Key::D4, true);
    let c = g.handle_mouse_button(MouseButton::Left, true, Some(body(1)));
    assert!(c.is_empty());
    g.handle_mouse_move(500_000, 300_000);
    let c = g.handle_mouse_button(MouseButton::Left, false, None);
    assert!(c.is_empty());
    assert_eq!(g.action(), Action::Sketching { kind: ShapeKind::BallSocket, anchor: None });
}

#[test]
fn switching_tools_abandons_ball_sketch() {
    let mut g = Game::new();
    g.handle_key(Key::D1, true);
    g.handle_mouse_move(400_000, 300_000);
    g.handle_mouse_button(MouseButton::Left, true, None);
    let c = g.handle_key(Key::D2, true);
    assert!(c.is_empty());
    assert_eq!(g.action(), Action::Sketching { kind: ShapeKind::Cuboid, anchor: None });
    g.handle_mouse_move(430_000, 300_000);
    g.handle_mouse_button(MouseButton::Left, true, None);
    g.handle_mouse_move(490_000, 360_000);
    let c = g.handle_mouse_button(MouseButton::Left, false, None);
    assert_eq!(
        c,
        vec![Command::AddCuboid {
            center: pt(1_000_000, 0),
            half_width: 2_000_000,
            half_height: 2_000_000
        }]
    );
    assert!(!c.iter().any(|x| matches!(x, Command::AddBall { .. })));
}

#[test]
fn zoom_in_stops_at_maximum() {
    let mut g = Game::new();
    let expected = [40_000_000u64, 53_333_333, 71_111_110, 75_000_000, 75_000_000, 75_000_000];
    for z in expected {
        g.handle_key(Key::W, true);
        assert_eq!(g.camera().zoom(), z);
    }
}

#[test]
fn zoom_out_stops_at_minimum() {
    let mut g = Game::new();
    let expected = [
        22_500_000u64,
        16_875_000,
        12_656_250,
        12_000_000,
        12_000_000,
        12_000_000,
    ];
    for z in expected {
        g.handle_key(Key::S, true);
        assert_eq!(g.camera().zoom(), z);
    }
}

#[test]
fn scroll_zooms_like_the_keys() {
    let mut a = Game::new();
    let mut b = Game::new();
    a.handle_mouse_scroll(0, 1);
    b.handle_key(Key::W, true);
    assert_eq!(a.camera().zoom(), b.camera().zoom());
    assert_eq!(a.camera().zoom(), 40_000_000);
    a.handle_mouse_scroll(0, -1);
    b.handle_key(Key::S, true);
    assert_eq!(a.camera().zoom(), b.camera().zoom());
    assert_eq!(a.camera().zoom(), 30_000_000);
    a.handle_mouse_scroll(0, 0);
    assert_eq!(a.camera().zoom(), 40_000_000);
}

#[test]
fn key_release_of_zoom_keys_does_nothing() {
    let mut g = Game::new();
    g.handle_key(Key::W, false);
    g.handle_key(Key::S, false);
    assert_eq!(g.camera().zoom(), 30_000_000);
}

#[test]
fn paused_update_pans_but_does_not_step() {
    let mut g = Game::new();
    g.handle_key(Key::Right, true);
    for _ in 0..5 {
        let c = g.update(16_667);
        assert!(c.is_empty());
    }
    assert_eq!(g.camera().position(), pt(8_333_500, 0));
}

#[test]
fn unpaused_update_steps() {
    let mut g = Game::new();
    g.handle_key(Key::Space, true);
    assert!(!g.is_paused());
    let c = g.update(1_000);
    assert_eq!(c, vec![Command::Step]);
    g.handle_key(Key::Space, false);
    assert!(!g.is_paused());
    g.handle_key(Key::Space, true);
    assert!(g.is_paused());
    assert!(g.update(1_000).is_empty());
}

#[test]
fn opposite_pan_keys_cancel() {
    let mut g = Game::new();
    g.handle_key(Key::Up, true);
    g.handle_key(Key::Down, true);
    g.handle_key(Key::Left, true);
    g.update(10_000);
    assert_eq!(g.camera().position(), pt(-1_000_000, 0));
    g.handle_key(Key::Left, false);
    g.handle_key(Key::Down, false);
    g.update(10_000);
    assert_eq!(g.camera().position(), pt(-1_000_000, -1_000_000));
}

#[test]
fn pan_stops_at_the_world_limit() {
    let mut g = Game::new();
    g.handle_key(Key::Left, true);
    g.update(u64::MAX);
    assert_eq!(g.camera().position(), pt(-1_000_000_000_000_000, 0));
}

#[test]
fn resize_moves_the_viewport_centre() {
    let mut g = Game::new();
    g.handle_resize(1000, 500);
    g.handle_mouse_move(500_000, 250_000);
    assert_eq!(g.pointer_world(), pt(0, 0));
    assert_eq!(g.camera().zoom(), 30_000_000);
}

#[test]
fn dragging_follows_the_pointer_after_zoom() {
    let mut g = Game::new();
    g.handle_mouse_move(400_000, 300_000);
    g.handle_mouse_button(MouseButton::Left, true, Some(body(4)));
    g.handle_key(Key::W, true);
    let c = g.handle_mouse_move(440_000, 300_000);
    assert_eq!(c, vec![Command::MoveDragJoint { target: pt(1_000_000, 0) }]);
}
