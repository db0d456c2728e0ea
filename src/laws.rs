use crate::geometry::{
    collide_spec, intersects_spec, offset_x, offset_y, lemma_square_exceeds, Aabb, Circle,
    Collision, Vec2,
};
use crate::motion::{paddle_step, TOP_BOUND};
use crate::response::{bounce_spec, PERTURBATION_RANGE};
use vstd::prelude::*;

verus! {

/// The circle's center lies beyond the rectangle grown by the radius on every side.
pub open spec fn outside_expanded(ball: Circle, wall: Aabb) -> bool {
    ball.center.x < wall.min_x() - ball.radius || ball.center.x > wall.max_x() + ball.radius
        || ball.center.y < wall.min_y() - ball.radius || ball.center.y > wall.max_y()
        + ball.radius
}

/// A circle whose center lies outside the rectangle grown by its radius does not collide with it.
pub proof fn lemma_outside_expanded_bounds_no_collision(ball: Circle, wall: Aabb)
    requires
        ball.wf(),
        wall.wf(),
        outside_expanded(ball, wall),
    ensures
        collide_spec(ball, wall) is None,
{
    let dx = offset_x(ball, wall);
    let dy = offset_y(ball, wall);
    lemma_square_exceeds(dx, dy, ball.radius as int);
    assert(!intersects_spec(ball, wall));
}

/// A circle centered exactly on a corner of the rectangle collides with it, and the tie between
/// the two zero offset components is settled the same way at every corner: the bottom face.
pub proof fn lemma_corner_strike_is_bottom(ball: Circle, wall: Aabb, right: bool, top: bool)
    requires
        ball.wf(),
        wall.wf(),
        ball.center.x == if right {
            wall.max_x()
        } else {
            wall.min_x()
        },
        ball.center.y == if top {
            wall.max_y()
        } else {
            wall.min_y()
        },
    ensures
        collide_spec(ball, wall) == Some(Collision::Bottom),
{
    assert(offset_x(ball, wall) == 0);
    assert(offset_y(ball, wall) == 0);
    assert(0 <= ball.radius * ball.radius) by (nonlinear_arith);
}

/// The velocity points away from the face, or along it.
pub open spec fn moving_away(side: Collision, v: Vec2) -> bool {
    match side {
        Collision::Left => v.x <= 0,
        Collision::Right => v.x >= 0,
        Collision::Top => v.y >= 0,
        Collision::Bottom => v.y <= 0,
    }
}

/// A strike on a face that the body is already leaving changes nothing: no second bounce.
pub proof fn lemma_no_bounce_when_moving_away(v: Vec2, side: Collision, d: int)
    requires
        moving_away(side, v),
    ensures
        bounce_spec(v, side, d) == v,
{
}

/// A strike on a face that the body is moving into negates the component across that face and
/// adds the perturbation to it, leaving the other component alone.
pub proof fn lemma_bounce_turns_and_perturbs(v: Vec2, side: Collision, d: int)
    requires
        !moving_away(side, v),
        0 <= d < PERTURBATION_RANGE,
        v.x > i64::MIN + PERTURBATION_RANGE,
        v.y > i64::MIN + PERTURBATION_RANGE,
    ensures
        ({
            let r = bounce_spec(v, side, d);
            match side {
                Collision::Left | Collision::Right => r.x == -v.x + d && -v.x <= r.x < -v.x
                    + PERTURBATION_RANGE && r.y == v.y,
                Collision::Top | Collision::Bottom => r.y == -v.y + d && -v.y <= r.y < -v.y
                    + PERTURBATION_RANGE && r.x == v.x,
            }
        }),
{
}

/// A paddle that starts at height zero and moves up at a non-negative `speed` for a
/// non-negative time `dt` ends at `min(speed * dt, TOP_BOUND)`.
pub proof fn lemma_rising_paddle_height(speed: int, dt: int)
    requires
        speed >= 0,
        dt >= 0,
    ensures
        paddle_step(0, 1, speed, dt) == if speed * dt < TOP_BOUND {
            speed * dt
        } else {
            TOP_BOUND as int
        },
{
    assert(speed * dt >= 0) by (nonlinear_arith)
        requires
            speed >= 0,
            dt >= 0,
    ;
    assert(1 * speed * dt == speed * dt) by (nonlinear_arith);
}

} // verus!
