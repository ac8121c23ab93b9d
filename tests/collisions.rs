use arcade::collisions::{overlaps, paddle_check, paddles_check, wall_check, BallCollider, PlayerCollider};
use arcade::geometry::{Point, Velocity};

fn disc() -> BallCollider {
    BallCollider { radius: 5 }
}

fn paddle() -> PlayerCollider {
    PlayerCollider { width: 10, height: 120 }
}

#[test]
fn wall_check_inside_keeps_velocity() {
    let v = Velocity::new(3, -4, 500);
    assert_eq!(wall_check(Point::new(0, 0), disc(), v, 300), v);
    assert_eq!(wall_check(Point::new(100, 294), disc(), v, 300), v);
    assert_eq!(wall_check(Point::new(-100, -294), disc(), v, 300), v);
}

#[test]
fn wall_check_on_boundary_keeps_velocity() {
    let v = Velocity::new(1, 1, 500);
    assert_eq!(wall_check(Point::new(0, 295), disc(), v, 300), v);
    assert_eq!(wall_check(Point::new(0, -295), disc(), v, 300), v);
}

#[test]
fn wall_check_top_flips_vertical() {
    let v = Velocity::new(1, 1, 500);
    assert_eq!(wall_check(Point::new(0, 296), disc(), v, 300), Velocity::new(1, -1, 500));
}

#[test]
fn wall_check_bottom_flips_vertical() {
    let v = Velocity::new(-2, -7, 650);
    assert_eq!(wall_check(Point::new(40, -296), disc(), v, 300), Velocity::new(-2, 7, 650));
}

#[test]
fn overlap_detects_touching_boxes() {
    // paddle spans x in [95, 105], disc spans x in [85, 95]
    assert!(overlaps(Point::new(90, 0), disc(), Point::new(100, 0), paddle()));
    assert!(!overlaps(Point::new(89, 0), disc(), Point::new(100, 0), paddle()));
    // paddle spans y in [-60, 60]
    assert!(overlaps(Point::new(100, 65), disc(), Point::new(100, 0), paddle()));
    assert!(!overlaps(Point::new(100, 66), disc(), Point::new(100, 0), paddle()));
    assert!(!overlaps(Point::new(100, -66), disc(), Point::new(100, 0), paddle()));
}

#[test]
fn paddle_hit_reverses_and_speeds_up() {
    let v = Velocity::new(1, 1, 500);
    let r = paddle_check(Point::new(95, 10), disc(), v, Point::new(100, 0), paddle());
    assert_eq!(r, Velocity::new(-1, 1, 550));
}

#[test]
fn paddle_miss_keeps_velocity() {
    let v = Velocity::new(1, 1, 500);
    let r = paddle_check(Point::new(0, 0), disc(), v, Point::new(100, 0), paddle());
    assert_eq!(r, v);
}

#[test]
fn paddle_growth_rounds_down() {
    let v = Velocity::new(1, 0, 7);
    let r = paddle_check(Point::new(100, 0), disc(), v, Point::new(100, 0), paddle());
    assert_eq!(r.speed, 7);
    assert_eq!(r.dir_x, -1);
}

#[test]
fn paddles_check_applies_each_hit_in_turn() {
    let v = Velocity::new(1, 1, 500);
    let paddles = vec![
        (Point::new(100, 0), paddle()),
        (Point::new(-100, 0), paddle()),
        (Point::new(102, 0), paddle()),
    ];
    let (r, hits) = paddles_check(Point::new(100, 0), disc(), v, &paddles);
    assert_eq!(hits, 2);
    assert_eq!(r, Velocity::new(1, 1, 605));
}

#[test]
fn paddles_check_without_paddles() {
    let v = Velocity::new(1, 1, 500);
    let (r, hits) = paddles_check(Point::new(0, 0), disc(), v, &Vec::new());
    assert_eq!(hits, 0);
    assert_eq!(r, v);
}
