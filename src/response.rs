use crate::geometry::{collide_spec, collide_with_side, Aabb, Circle, Collision, Vec2};
use crate::units::UNITS_PER_PIXEL_PER_SECOND;
use rand::Rng;
use vstd::prelude::*;

verus! {

/// Width of the range `[0, PERTURBATION_RANGE)` from which the speed added on a bounce is drawn:
/// one pixel per second, in velocity units.
pub const PERTURBATION_RANGE: i64 = UNITS_PER_PIXEL_PER_SECOND;

/// A strike on this face turns the horizontal component: the body was moving into the face.
pub open spec fn reflects_x(side: Collision, v: Vec2) -> bool {
    (side == Collision::Left && v.x > 0) || (side == Collision::Right && v.x < 0)
}

/// A strike on this face turns the vertical component.
pub open spec fn reflects_y(side: Collision, v: Vec2) -> bool {
    (side == Collision::Top && v.y < 0) || (side == Collision::Bottom && v.y > 0)
}

/// A component negated and increased by `d`, held at the largest representable speed.
pub open spec fn turned(c: int, d: int) -> int {
    if -c + d > i64::MAX {
        i64::MAX as int
    } else {
        -c + d
    }
}

pub open spec fn bounce_spec(v: Vec2, side: Collision, d: int) -> Vec2 {
    Vec2 {
        x: if reflects_x(side, v) {
            turned(v.x as int, d) as i64
        } else {
            v.x
        },
        y: if reflects_y(side, v) {
            turned(v.y as int, d) as i64
        } else {
            v.y
        },
    }
}

/// The velocity after striking `side`, with `perturbation` added to a component that turns.
pub fn bounce(velocity: Vec2, side: Collision, perturbation: i64) -> (r: Vec2)
    requires
        perturbation >= 0,
    ensures
        r == bounce_spec(velocity, side, perturbation as int),
{
    let reflect_x = match side {
        Collision::Left => velocity.x > 0,
        Collision::Right => velocity.x < 0,
        _ => false,
    };
    let reflect_y = match side {
        Collision::Top => velocity.y < 0,
        Collision::Bottom => velocity.y > 0,
        _ => false,
    };
    let mut r = velocity;
    if reflect_x {
        r.x = turn(velocity.x, perturbation);
    }
    if reflect_y {
        r.y = turn(velocity.y, perturbation);
    }
    r
}

fn turn(c: i64, d: i64) -> (r: i64)
    requires
        d >= 0,
    ensures
        r == turned(c as int, d as int),
{
    let t: i128 = -(c as i128) + d as i128;
    if t > i64::MAX as i128 {
        i64::MAX
    } else {
        t as i64
    }
}

/// The number of rectangles in `walls` that the circle overlaps.
pub open spec fn hit_count(ball: Circle, walls: Seq<Aabb>) -> nat
    decreases walls.len(),
{
    if walls.len() == 0 {
        0
    } else {
        hit_count(ball, walls.drop_last()) + if collide_spec(ball, walls.last()) is Some {
            1nat
        } else {
            0nat
        }
    }
}

/// The velocity after meeting each of `walls` in turn, `draws[i]` being the perturbation drawn
/// when the `i`-th is struck.
pub open spec fn velocity_after(ball: Circle, v: Vec2, walls: Seq<Aabb>, draws: Seq<i64>) -> Vec2
    decreases walls.len(),
{
    if walls.len() == 0 {
        v
    } else {
        let before = velocity_after(ball, v, walls.drop_last(), draws);
        match collide_spec(ball, walls.last()) {
            Some(side) => bounce_spec(before, side, draws[walls.len() - 1] as int),
            None => before,
        }
    }
}

/// Relies on `rand::Rng::gen_range` on `rand::thread_rng()`: a value drawn from `[0, bound)`;
/// it panics only on an empty range.
#[verifier::external_body]
fn random_below(bound: i64) -> (r: i64)
    requires
        bound > 0,
    ensures
        0 <= r < bound,
{
    rand::thread_rng().gen_range(0..bound)
}

/// One tick of collision handling: the ball meets each collider in turn and bounces off each one
/// it overlaps, with a fresh random perturbation per strike. Returns the new velocity and the
/// number of collisions, one per struck collider.
pub fn check_collision(ball: Circle, velocity: Vec2, colliders: &Vec<Aabb>) -> (r: (Vec2, usize))
    requires
        ball.wf(),
        forall|i: int| 0 <= i < colliders@.len() ==> (#[trigger] colliders@[i]).wf(),
    ensures
        r.1 == hit_count(ball, colliders@),
        exists|draws: Seq<i64>|
            draws.len() == colliders@.len() && (forall|i: int|
                0 <= i < draws.len() ==> 0 <= #[trigger] draws[i] < PERTURBATION_RANGE)
                && r.0 == velocity_after(ball, velocity, colliders@, draws),
{
    let mut v = velocity;
    let mut count: usize = 0;
    let ghost mut draws: Seq<i64> = Seq::empty();
    let mut i: usize = 0;
    while i < colliders.len()
        invariant
            ball.wf(),
            forall|j: int| 0 <= j < colliders@.len() ==> (#[trigger] colliders@[j]).wf(),
            i <= colliders@.len(),
            count <= i,
            count == hit_count(ball, colliders@.take(i as int)),
            draws.len() == i,
            forall|j: int| 0 <= j < draws.len() ==> 0 <= #[trigger] draws[j] < PERTURBATION_RANGE,
            v == velocity_after(ball, velocity, colliders@.take(i as int), draws),
        decreases colliders@.len() - i,
    {
        let wall = colliders[i];
        let ghost before = draws;
        let mut d: i64 = 0;
        match collide_with_side(ball, wall) {
            Some(side) => {
                count = count + 1;
                d = random_below(PERTURBATION_RANGE);
                v = bounce(v, side, d);
            },
            None => {},
        }
        proof {
            draws = draws.push(d);
            let next = colliders@.take(i + 1);
            assert(next.drop_last() =~= colliders@.take(i as int));
            assert(next.last() == wall);
            lemma_velocity_after_extends(ball, velocity, colliders@.take(i as int), before, draws);
        }
        i = i + 1;
    }
    proof {
        assert(colliders@.take(i as int) =~= colliders@);
    }
    (v, count)
}

proof fn lemma_velocity_after_extends(
    ball: Circle,
    v: Vec2,
    walls: Seq<Aabb>,
    draws: Seq<i64>,
    longer: Seq<i64>,
)
    requires
        draws.len() >= walls.len(),
        longer.len() >= draws.len(),
        forall|j: int| 0 <= j < draws.len() ==> longer[j] == draws[j],
    ensures
        velocity_after(ball, v, walls, draws) == velocity_after(ball, v, walls, longer),
    decreases walls.len(),
{
    if walls.len() > 0 {
        lemma_velocity_after_extends(ball, v, walls.drop_last(), draws, longer);
    }
}

} // verus!
