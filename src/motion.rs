use crate::geometry::{clamp_spec, Vec2};
use crate::units::{UNITS_PER_PIXEL, UNITS_PER_PIXEL_PER_SECOND};
use vstd::prelude::*;

verus! {

/// How fast a paddle moves while its key is held: 300 pixels per second.
pub const PADDLE_SPEED: i64 = 300 * UNITS_PER_PIXEL_PER_SECOND;

/// The highest and lowest heights a paddle's center may reach.
pub const TOP_BOUND: i64 = 110 * UNITS_PER_PIXEL;

pub const BOTTOM_BOUND: i64 = -110 * UNITS_PER_PIXEL;

/// The signed direction of a paddle from its two keys: up counts `+1`, down `-1`.
pub fn paddle_direction(down: bool, up: bool) -> (r: i64)
    ensures
        r == (if up { 1int } else { 0int }) - (if down { 1int } else { 0int }),
        -1 <= r <= 1,
{
    let mut direction: i64 = 0;
    if down {
        direction = direction - 1;
    }
    if up {
        direction = direction + 1;
    }
    direction
}

/// A paddle's height after moving in `direction` at `speed` for `dt`, kept within the bounds.
pub open spec fn paddle_step(y: int, direction: int, speed: int, dt: int) -> int {
    clamp_spec(y + direction * speed * dt, BOTTOM_BOUND as int, TOP_BOUND as int)
}

pub fn move_paddle(y: i64, direction: i64, speed: i64, dt: i64) -> (r: i64)
    requires
        -1 <= direction <= 1,
    ensures
        r == paddle_step(y as int, direction as int, speed as int, dt as int),
        BOTTOM_BOUND <= r <= TOP_BOUND,
{
    proof {
        lemma_step_fits(direction as int, speed as int, dt as int);
    }
    let step: i128 = direction as i128 * speed as i128 * dt as i128;
    let next: i128 = y as i128 + step;
    if next < BOTTOM_BOUND as i128 {
        BOTTOM_BOUND
    } else if next > TOP_BOUND as i128 {
        TOP_BOUND
    } else {
        next as i64
    }
}

proof fn lemma_step_fits(direction: int, speed: int, dt: int)
    requires
        -1 <= direction <= 1,
        i64::MIN <= speed <= i64::MAX,
        i64::MIN <= dt <= i64::MAX,
    ensures
        -0x8000_0000_0000_0000 <= direction * speed <= 0x8000_0000_0000_0000,
        -0x4000_0000_0000_0000_0000_0000_0000_0000 <= direction * speed * dt
            <= 0x4000_0000_0000_0000_0000_0000_0000_0000,
{
    assert(-0x8000_0000_0000_0000 <= direction * speed <= 0x8000_0000_0000_0000)
        by (nonlinear_arith)
        requires
            -1 <= direction <= 1,
            -0x8000_0000_0000_0000 <= speed <= 0x7fff_ffff_ffff_ffff,
    ;
    assert(-0x4000_0000_0000_0000_0000_0000_0000_0000 <= direction * speed * dt
        <= 0x4000_0000_0000_0000_0000_0000_0000_0000) by (nonlinear_arith)
        requires
            -0x8000_0000_0000_0000 <= direction * speed <= 0x8000_0000_0000_0000,
            -0x8000_0000_0000_0000 <= dt <= 0x7fff_ffff_ffff_ffff,
    ;
}

/// Whether moving `position` by `velocity` for `dt` stays representable.
pub open spec fn move_fits(position: Vec2, velocity: Vec2, dt: int) -> bool {
    i64::MIN <= position.x + velocity.x * dt <= i64::MAX && i64::MIN <= position.y
        + velocity.y * dt <= i64::MAX
}

/// Moves a body along its velocity for `dt` time units.
pub fn apply_velocity(position: &mut Vec2, velocity: Vec2, dt: i64)
    requires
        move_fits(*old(position), velocity, dt as int),
    ensures
        final(position).x == old(position).x + velocity.x * dt,
        final(position).y == old(position).y + velocity.y * dt,
{
    proof {
        lemma_product_fits(velocity.x as int, dt as int);
        lemma_product_fits(velocity.y as int, dt as int);
    }
    let x: i128 = position.x as i128 + velocity.x as i128 * dt as i128;
    let y: i128 = position.y as i128 + velocity.y as i128 * dt as i128;
    position.x = x as i64;
    position.y = y as i64;
}

proof fn lemma_product_fits(a: int, b: int)
    requires
        i64::MIN <= a <= i64::MAX,
        i64::MIN <= b <= i64::MAX,
    ensures
        -0x4000_0000_0000_0000_0000_0000_0000_0000 <= a * b
            <= 0x4000_0000_0000_0000_0000_0000_0000_0000,
{
    assert(-0x4000_0000_0000_0000_0000_0000_0000_0000 <= a * b
        <= 0x4000_0000_0000_0000_0000_0000_0000_0000) by (nonlinear_arith)
        requires
            -0x8000_0000_0000_0000 <= a <= 0x7fff_ffff_ffff_ffff,
            -0x8000_0000_0000_0000 <= b <= 0x7fff_ffff_ffff_ffff,
    ;
}

} // verus!
