use crate::geometry::{Aabb, Vec2};
use crate::units::{UNITS_PER_PIXEL, UNITS_PER_PIXEL_PER_SECOND};
use vstd::prelude::*;

verus! {

/// The ball's radius: five pixels.
pub const BALL_RADIUS: i64 = 5 * UNITS_PER_PIXEL;

/// Each component of the ball's starting velocity: ninety pixels per second.
pub const BALL_START_SPEED: i64 = 90 * UNITS_PER_PIXEL_PER_SECOND;

/// A paddle's full width and height.
pub const PADDLE_WIDTH: i64 = 10 * UNITS_PER_PIXEL;

pub const PADDLE_HEIGHT: i64 = 40 * UNITS_PER_PIXEL;

/// The horizontal distance of each paddle's center from the middle of the field.
pub const PADDLE_OFFSET: i64 = 150 * UNITS_PER_PIXEL;

/// The four walls around the field.
#[derive(Clone, Copy, Debug, PartialEq, Eq, Structural)]
pub enum WallLocation {
    Left,
    Right,
    Bottom,
    Top,
}

impl WallLocation {
    pub open spec fn position_spec(self) -> Vec2 {
        match self {
            WallLocation::Left => Vec2 { x: (-180 * UNITS_PER_PIXEL) as i64, y: 0 },
            WallLocation::Right => Vec2 { x: (180 * UNITS_PER_PIXEL) as i64, y: 0 },
            WallLocation::Bottom => Vec2 { x: 0, y: (-150 * UNITS_PER_PIXEL) as i64 },
            WallLocation::Top => Vec2 { x: 0, y: (150 * UNITS_PER_PIXEL) as i64 },
        }
    }

    pub open spec fn size_spec(self) -> Vec2 {
        match self {
            WallLocation::Left | WallLocation::Right => Vec2 {
                x: (10 * UNITS_PER_PIXEL) as i64,
                y: (300 * UNITS_PER_PIXEL) as i64,
            },
            WallLocation::Bottom | WallLocation::Top => Vec2 {
                x: (370 * UNITS_PER_PIXEL) as i64,
                y: (10 * UNITS_PER_PIXEL) as i64,
            },
        }
    }

    /// The wall's center.
    pub fn position(&self) -> (r: Vec2)
        ensures
            r == self.position_spec(),
    {
        match self {
            WallLocation::Left => Vec2 { x: -180 * UNITS_PER_PIXEL, y: 0 },
            WallLocation::Right => Vec2 { x: 180 * UNITS_PER_PIXEL, y: 0 },
            WallLocation::Bottom => Vec2 { x: 0, y: -150 * UNITS_PER_PIXEL },
            WallLocation::Top => Vec2 { x: 0, y: 150 * UNITS_PER_PIXEL },
        }
    }

    /// The wall's full width and height.
    pub fn size(&self) -> (r: Vec2)
        ensures
            r == self.size_spec(),
    {
        match self {
            WallLocation::Left | WallLocation::Right => Vec2 {
                x: 10 * UNITS_PER_PIXEL,
                y: 300 * UNITS_PER_PIXEL,
            },
            WallLocation::Bottom | WallLocation::Top => Vec2 {
                x: 370 * UNITS_PER_PIXEL,
                y: 10 * UNITS_PER_PIXEL,
            },
        }
    }

    /// The rectangle that the ball collides with: the wall's center and half its size.
    pub fn collider(&self) -> (r: Aabb)
        ensures
            r.center == self.position_spec(),
            r.half.x == self.size_spec().x / 2,
            r.half.y == self.size_spec().y / 2,
            r.wf(),
    {
        let size = self.size();
        Aabb::new(self.position(), Vec2::new(size.x / 2, size.y / 2))
    }
}

/// The rectangle of a paddle whose center stands at `(x, y)`.
pub fn paddle_collider(x: i64, y: i64) -> (r: Aabb)
    ensures
        r.center.x == x,
        r.center.y == y,
        r.half.x == PADDLE_WIDTH / 2,
        r.half.y == PADDLE_HEIGHT / 2,
        r.wf(),
{
    Aabb::new(Vec2::new(x, y), Vec2::new(PADDLE_WIDTH / 2, PADDLE_HEIGHT / 2))
}

} // verus!
