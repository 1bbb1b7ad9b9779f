use physics_sandbox::camera::Camera;
use physics_sandbox::constraint::{constraint_lines, ConstraintRecord, Line, LineColor};
use physics_sandbox::geometry::Point;
use physics_sandbox::scene::pyramid;
use physics_sandbox::shape::{
    ball_radius, clamp_extent, clamp_signed_extent, cuboid_half_extents, cuboid_preview_extents,
    isqrt,
};

fn pt(x: i64, y: i64) -> Point {
    Point::new(x, y)
}

#[test]
fn camera_maps_centre_to_origin() {
    let c = Camera::new(800, 600);
    assert_eq!(c.to_local(pt(400_000, 300_000)), pt(0, 0));
    assert_eq!(c.to_local(pt(550_000, 180_000)), pt(5_000_000, -4_000_000));
    assert_eq!(c.from_local(pt(5_000_000, -4_000_000)), pt(550_000, 180_000));
    assert_eq!(c.to_local(pt(400_001, 300_000)), pt(33, 0));
}

#[test]
fn camera_round_trip() {
    let mut c = Camera::new(801, 599);
    c.trans(pt(123_456_789, -987_654));
    for zoom in [12_000_000u64, 13_348_388, 53_333_333, 75_000_000, 1_000, 999_999_999] {
        c.set_zoom(zoom);
        for p in [
            pt(0, 0),
            pt(1, -1),
            pt(400_500, 299_500),
            pt(-1_000_000_000_000, 1_000_000_000_000),
            pt(123_457, 98_765),
        ] {
            assert_eq!(c.from_local(c.to_local(p)), p);
        }
    }
}

#[test]
fn camera_pan_and_resize() {
    let mut c = Camera::new(800, 600);
    c.trans(pt(1_000_000, 2_000_000));
    assert_eq!(c.position(), pt(1_000_000, 2_000_000));
    assert_eq!(c.to_local(pt(400_000, 300_000)), pt(1_000_000, 2_000_000));
    c.set_size(1000, 600);
    assert_eq!(c.to_local(pt(400_000, 300_000)), pt(-2_333_333, 2_000_000));
    assert_eq!(c.zoom(), 30_000_000);
}

#[test]
fn clamp_extent_values() {
    assert_eq!(clamp_extent(0), 100_000);
    assert_eq!(clamp_extent(-5), 100_000);
    assert_eq!(clamp_extent(5_000_000), 5_000_000);
    assert_eq!(clamp_extent(20_000_000), 10_000_000);
    assert_eq!(clamp_extent(i64::MIN), 100_000);
    assert_eq!(clamp_extent(i64::MAX), 10_000_000);
}

#[test]
fn clamp_is_idempotent() {
    for x in [i64::MIN, -20_000_000, -50_000, 0, 1, 99_999, 100_000, 7_000_000, 10_000_001, i64::MAX] {
        assert_eq!(clamp_extent(clamp_extent(x)), clamp_extent(x));
        assert_eq!(clamp_signed_extent(clamp_signed_extent(x)), clamp_signed_extent(x));
    }
}

#[test]
fn clamp_signed_extent_keeps_sign() {
    assert_eq!(clamp_signed_extent(-50_000), -100_000);
    assert_eq!(clamp_signed_extent(0), 100_000);
    assert_eq!(clamp_signed_extent(-3_000_000), -3_000_000);
    assert_eq!(clamp_signed_extent(-20_000_000), -10_000_000);
    assert_eq!(clamp_signed_extent(i64::MIN), -10_000_000);
    assert_eq!(clamp_signed_extent(20_000_000), 10_000_000);
}

#[test]
fn integer_square_root() {
    assert_eq!(isqrt(0), 0);
    assert_eq!(isqrt(24), 4);
    assert_eq!(isqrt(25), 5);
    assert_eq!(isqrt(26), 5);
    assert_eq!(isqrt(200_000_000_000_000), 14_142_135);
}

#[test]
fn ball_radius_values() {
    assert_eq!(ball_radius(pt(0, 0), pt(3_000_000, 4_000_000)), 5_000_000);
    assert_eq!(ball_radius(pt(1, 1), pt(1, 1)), 100_000);
    assert_eq!(ball_radius(pt(0, 0), pt(20_000_000, 0)), 10_000_000);
    assert_eq!(ball_radius(pt(0, 0), pt(7_000_000, 8_000_000)), 10_000_000);
    assert_eq!(ball_radius(pt(0, 0), pt(-300_000, 400_000)), 500_000);
}

#[test]
fn cuboid_extents_values() {
    assert_eq!(cuboid_half_extents(pt(0, 0), pt(-3_000_000, 50_000)), (3_000_000, 100_000));
    assert_eq!(cuboid_preview_extents(pt(0, 0), pt(-3_000_000, 50_000)), (-3_000_000, 100_000));
    assert_eq!(cuboid_preview_extents(pt(0, 0), pt(0, -40_000_000)), (100_000, -10_000_000));
}

#[test]
fn constraint_lines_by_kind() {
    let c = Camera::new(800, 600);
    let records = vec![
        ConstraintRecord::Fixed { a: pt(0, 0), b: pt(1_000_000, 0) },
        ConstraintRecord::BallSocket { a: pt(0, 1_000_000), b: pt(0, 0) },
        ConstraintRecord::PointContact {
            a: pt(0, 0),
            b: pt(2_000_000, 0),
            normal: pt(0, -1_000_000),
            depth: 500_000,
        },
    ];
    let lines = constraint_lines(&c, &records);
    assert_eq!(
        lines,
        vec![
            Line { from: pt(400_000, 300_000), to: pt(430_000, 300_000), color: LineColor::Red },
            Line { from: pt(400_000, 330_000), to: pt(400_000, 300_000), color: LineColor::Blue },
            Line { from: pt(400_000, 300_000), to: pt(460_000, 300_000), color: LineColor::Green },
            Line { from: pt(430_000, 300_000), to: pt(430_000, 285_000), color: LineColor::Green },
            Line { from: pt(430_000, 300_000), to: pt(430_000, 270_000), color: LineColor::Green },
        ]
    );
    assert!(constraint_lines(&c, &Vec::new()).is_empty());
}

#[test]
fn pyramid_layout() {
    let p = pyramid();
    assert_eq!(p.len(), 630);
    assert_eq!(p[0].center, pt(-21_875_000, -540_000));
    assert_eq!(p[0].width, 460_000);
    assert_eq!(p[0].height, 460_000);
    assert_eq!(p[34].center, pt(20_625_000, -540_000));
    assert_eq!(p[35].center, pt(-21_250_000, -1_790_000));
    assert_eq!(p[629].center, pt(-625_000, -43_040_000));
}
