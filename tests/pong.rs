use pong::arena::{paddle_collider, WallLocation, BALL_RADIUS, PADDLE_HEIGHT, PADDLE_WIDTH};
use pong::geometry::{collide_with_side, Aabb, Circle, Collision, Vec2};
use pong::motion::{
    apply_velocity, move_paddle, paddle_direction, BOTTOM_BOUND, PADDLE_SPEED, TOP_BOUND,
};
use pong::response::{bounce, check_collision, PERTURBATION_RANGE};
use pong::units::{UNITS_PER_PIXEL, UNITS_PER_PIXEL_PER_SECOND};

const PX: i64 = UNITS_PER_PIXEL;
const PX_S: i64 = UNITS_PER_PIXEL_PER_SECOND;

fn circle(x: i64, y: i64, r: i64) -> Circle {
    Circle::new(Vec2::new(x * PX, y * PX), r * PX)
}

fn rect(x: i64, y: i64, hx: i64, hy: i64) -> Aabb {
    Aabb::new(Vec2::new(x * PX, y * PX), Vec2::new(hx * PX, hy * PX))
}

#[test]
fn circle_outside_expanded_bounds_does_not_collide() {
    let wall = rect(0, 0, 10, 10);
    assert_eq!(collide_with_side(circle(16, 0, 5), wall), None);
    assert_eq!(collide_with_side(circle(0, -16, 5), wall), None);
    assert_eq!(collide_with_side(circle(-16, 0, 5), wall), None);
    assert_eq!(collide_with_side(circle(0, 16, 5), wall), None);
}

#[test]
fn circle_touching_a_face_collides() {
    let wall = rect(0, 0, 10, 10);
    assert_eq!(collide_with_side(circle(15, 0, 5), wall), Some(Collision::Right));
    assert_eq!(collide_with_side(circle(-15, 0, 5), wall), Some(Collision::Left));
    assert_eq!(collide_with_side(circle(0, 15, 5), wall), Some(Collision::Top));
    assert_eq!(collide_with_side(circle(0, -15, 5), wall), Some(Collision::Bottom));
}

#[test]
fn circle_near_a_corner_but_outside_the_radius_does_not_collide() {
    let wall = rect(0, 0, 10, 10);
    // 4 and 4 give an offset of length above 5 along the diagonal
    assert_eq!(collide_with_side(circle(14, 14, 5), wall), None);
    assert_eq!(collide_with_side(circle(13, 14, 5), wall), Some(Collision::Top));
}

#[test]
fn circle_centered_on_a_corner_strikes_the_bottom() {
    let wall = rect(3, -2, 10, 6);
    for (x, y) in [(13, 4), (-7, 4), (13, -8), (-7, -8)] {
        assert_eq!(collide_with_side(circle(x, y, 5), wall), Some(Collision::Bottom));
    }
}

#[test]
fn circle_centered_inside_strikes_the_bottom() {
    let wall = rect(0, 0, 10, 10);
    assert_eq!(collide_with_side(circle(2, 3, 5), wall), Some(Collision::Bottom));
}

#[test]
fn no_bounce_when_moving_away() {
    let v = Vec2::new(-5 * PX_S, 7 * PX_S);
    assert_eq!(bounce(v, Collision::Left, 999), v);
    let v = Vec2::new(5 * PX_S, 7 * PX_S);
    assert_eq!(bounce(v, Collision::Right, 999), v);
    let v = Vec2::new(5 * PX_S, 7 * PX_S);
    assert_eq!(bounce(v, Collision::Top, 999), v);
    let v = Vec2::new(5 * PX_S, -7 * PX_S);
    assert_eq!(bounce(v, Collision::Bottom, 999), v);
}

#[test]
fn bounce_negates_and_adds_the_perturbation() {
    let v = Vec2::new(5 * PX_S, 7 * PX_S);
    for d in [0, 1, 500, PERTURBATION_RANGE - 1] {
        let r = bounce(v, Collision::Left, d);
        assert_eq!(r.x, -5 * PX_S + d);
        assert!(-5 * PX_S <= r.x && r.x < -4 * PX_S);
        assert_eq!(r.y, 7 * PX_S);
    }
    let r = bounce(Vec2::new(-5, -7), Collision::Top, 3);
    assert_eq!(r, Vec2::new(-5, 10));
    let r = bounce(Vec2::new(-5, 7), Collision::Bottom, 3);
    assert_eq!(r, Vec2::new(-5, -4));
    let r = bounce(Vec2::new(-5, 7), Collision::Right, 3);
    assert_eq!(r, Vec2::new(8, 7));
}

#[test]
fn bounce_holds_at_the_largest_speed() {
    let r = bounce(Vec2::new(i64::MIN, 0), Collision::Right, 10);
    assert_eq!(r.x, i64::MAX);
}

#[test]
fn check_collision_draws_a_perturbation_in_range() {
    let ball = circle(142, 0, 5);
    let paddle = rect(150, 0, 5, 20);
    let v = Vec2::new(180 * PX_S, 90 * PX_S);
    for _ in 0..200 {
        let (r, n) = check_collision(ball, v, &vec![paddle]);
        assert_eq!(n, 1);
        assert!(-180 * PX_S <= r.x && r.x < -179 * PX_S);
        assert_eq!(r.y, 90 * PX_S);
    }
}

#[test]
fn check_collision_counts_each_struck_collider() {
    let ball = circle(0, 0, 5);
    let colliders = vec![rect(8, 0, 5, 5), rect(100, 0, 5, 5), rect(0, -8, 5, 5)];
    let v = Vec2::new(10 * PX_S, -10 * PX_S);
    let (r, n) = check_collision(ball, v, &colliders);
    assert_eq!(n, 2);
    assert!(-10 * PX_S <= r.x && r.x < -9 * PX_S);
    assert!(10 * PX_S <= r.y && r.y < 11 * PX_S);
    let (r, n) = check_collision(ball, v, &vec![]);
    assert_eq!((r, n), (v, 0));
}

#[test]
fn ball_right_of_the_paddle_and_moving_away_does_not_collide() {
    let ball_position = Vec2::new(175 * PX, 0);
    let velocity = Vec2::new(180 * PX_S, 90 * PX_S);
    let mut position = ball_position;
    apply_velocity(&mut position, velocity, 16);
    let paddle = paddle_collider(150 * PX, 0);
    let ball = Circle::new(position, BALL_RADIUS);
    assert_eq!(collide_with_side(ball, paddle), None);
    let (r, n) = check_collision(ball, velocity, &vec![paddle]);
    assert_eq!((r, n), (velocity, 0));
}

#[test]
fn ball_entering_the_paddle_from_the_left_bounces_back() {
    let velocity = Vec2::new(180 * PX_S, 90 * PX_S);
    let mut position = Vec2::new(141 * PX, 0);
    apply_velocity(&mut position, velocity, 16);
    assert_eq!(position, Vec2::new(141 * PX + 2_880_000, 1_440_000));
    let paddle = paddle_collider(150 * PX, 0);
    let ball = Circle::new(position, BALL_RADIUS);
    assert_eq!(collide_with_side(ball, paddle), Some(Collision::Left));
    let (r, n) = check_collision(ball, velocity, &vec![paddle]);
    assert_eq!(n, 1);
    assert!(r.x < 0);
    assert_eq!(r.y, velocity.y);
}

#[test]
fn rising_paddle_reaches_min_of_travel_and_bound() {
    let up = paddle_direction(false, true);
    assert_eq!(move_paddle(0, up, PADDLE_SPEED, 100), 30 * PX);
    assert_eq!(move_paddle(0, up, PADDLE_SPEED, 1000), TOP_BOUND);
    assert_eq!(move_paddle(0, up, 7, 9), 63);
    assert_eq!(move_paddle(0, up, PADDLE_SPEED, 0), 0);
}

#[test]
fn paddle_direction_from_keys() {
    assert_eq!(paddle_direction(false, false), 0);
    assert_eq!(paddle_direction(true, false), -1);
    assert_eq!(paddle_direction(false, true), 1);
    assert_eq!(paddle_direction(true, true), 0);
}

#[test]
fn falling_paddle_stops_at_the_bottom_bound() {
    let down = paddle_direction(true, false);
    assert_eq!(move_paddle(-100 * PX, down, PADDLE_SPEED, 100), BOTTOM_BOUND);
    assert_eq!(move_paddle(0, down, PADDLE_SPEED, 100), -30 * PX);
    assert_eq!(move_paddle(i64::MIN, 1, i64::MAX, i64::MAX), TOP_BOUND);
}

#[test]
fn velocity_moves_the_position() {
    let mut p = Vec2::new(10, -20);
    apply_velocity(&mut p, Vec2::new(3, -4), 5);
    assert_eq!(p, Vec2::new(25, -40));
}

#[test]
fn walls_enclose_the_field() {
    assert_eq!(WallLocation::Left.position(), Vec2::new(-180 * PX, 0));
    assert_eq!(WallLocation::Right.position(), Vec2::new(180 * PX, 0));
    assert_eq!(WallLocation::Bottom.position(), Vec2::new(0, -150 * PX));
    assert_eq!(WallLocation::Top.position(), Vec2::new(0, 150 * PX));
    assert_eq!(WallLocation::Left.size(), Vec2::new(10 * PX, 300 * PX));
    assert_eq!(WallLocation::Top.size(), Vec2::new(370 * PX, 10 * PX));
    let c = WallLocation::Top.collider();
    assert_eq!(c.center, Vec2::new(0, 150 * PX));
    assert_eq!(c.half, Vec2::new(185 * PX, 5 * PX));
    let ball = Circle::new(Vec2::new(0, 140 * PX), BALL_RADIUS);
    assert_eq!(collide_with_side(ball, c), Some(Collision::Bottom));
}

#[test]
fn paddle_collider_has_half_the_paddle_size() {
    let c = paddle_collider(-150 * PX, 3);
    assert_eq!(c.center, Vec2::new(-150 * PX, 3));
    assert_eq!(c.half, Vec2::new(PADDLE_WIDTH / 2, PADDLE_HEIGHT / 2));
}

#[test]
fn closest_point_clamps_into_the_rectangle() {
    let wall = rect(0, 0, 10, 5);
    assert_eq!(wall.closest_point(Vec2::new(20 * PX, -9 * PX)), Vec2::new(10 * PX, -5 * PX));
    assert_eq!(wall.closest_point(Vec2::new(3, 4)), Vec2::new(3, 4));
    let c = Circle::new(Vec2::new(i64::MIN, i64::MAX), i64::MAX);
    let far = Aabb::new(Vec2::new(i64::MAX, i64::MIN), Vec2::new(0, 0));
    assert!(!c.intersects(&far));
}
