use physics_sandbox::camera::Camera;
use physics_sandbox::draw::{Draw, Outline};
use physics_sandbox::game::{Anchor, Game, Key, MouseButton};
use physics_sandbox::geometry::Point;
use physics_sandbox::object::{Ball, Cuboid};

fn pt(x: i64, y: i64) -> Point {
    Point::new(x, y)
}

#[test]
fn temp_ball_preview_scales_with_zoom() {
    let d = Draw::new();
    let c = Camera::new(800, 600);
    let a = Anchor { window: pt(400_000, 300_000), world: pt(0, 0) };
    assert_eq!(
        d.render_temp_ball(a, pt(5_000_000, 0), &c),
        Outline::Circle { center: pt(400_000, 300_000), radius: 150_000 }
    );
    assert_eq!(
        d.render_temp_ball(a, pt(0, 0), &c),
        Outline::Circle { center: pt(400_000, 300_000), radius: 3_000 }
    );
}

#[test]
fn temp_cuboid_preview_keeps_direction() {
    let d = Draw::new();
    let c = Camera::new(800, 600);
    let a = Anchor { window: pt(400_000, 300_000), world: pt(0, 0) };
    assert_eq!(
        d.render_temp_cuboid(a, pt(3_000_000, -4_000_000), &c),
        Outline::Rect { center: pt(400_000, 300_000), half_width: 90_000, half_height: -120_000 }
    );
    assert_eq!(
        d.render_temp_cuboid(a, pt(50_000, 0), &c),
        Outline::Rect { center: pt(400_000, 300_000), half_width: 3_000, half_height: 3_000 }
    );
}

#[test]
fn socket_marker_at_pointer() {
    let d = Draw::new();
    assert_eq!(
        d.render_temp_ball_in_socket(pt(10, 20)),
        vec![
            Outline::Circle { center: pt(10, 20), radius: 5_000 },
            Outline::Circle { center: pt(10, 20), radius: 3_000 },
        ]
    );
}

#[test]
fn preview_follows_session() {
    let d = Draw::new();
    let mut g = Game::new();
    assert!(d.render_preview(&g).is_empty());
    g.handle_key(Key::D1, true);
    assert!(d.render_preview(&g).is_empty());
    g.handle_mouse_move(400_000, 300_000);
    g.handle_mouse_button(MouseButton::Left, true, None);
    g.handle_mouse_move(550_000, 300_000);
    assert_eq!(
        d.render_preview(&g),
        vec![Outline::Circle { center: pt(400_000, 300_000), radius: 150_000 }]
    );
    g.handle_key(Key::W, true);
    assert_eq!(
        d.render_preview(&g),
        vec![Outline::Circle { center: pt(400_000, 300_000), radius: 150_000 }]
    );
    g.handle_key(Key::D4, true);
    assert_eq!(d.render_preview(&g).len(), 2);
}

#[test]
fn body_outlines_through_camera() {
    let d = Draw::new();
    let c = Camera::new(800, 600);
    assert_eq!(
        d.render_ball(&Ball::new(pt(1_000_000, -1_000_000), 500_000), &c),
        Outline::Circle { center: pt(430_000, 270_000), radius: 15_000 }
    );
    assert_eq!(
        d.render_cuboid(&Cuboid::new(pt(0, 0), 460_000, 1_000_000), &c),
        Outline::Rect { center: pt(400_000, 300_000), half_width: 13_800, half_height: 30_000 }
    );
}
