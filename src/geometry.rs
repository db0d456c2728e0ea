use vstd::prelude::*;

verus! {

/// A point or a vector in the plane, in whole position units.
#[derive(Clone, Copy, Debug, PartialEq, Eq, Structural)]
pub struct Vec2 {
    pub x: i64,
    pub y: i64,
}

impl Vec2 {
    pub fn new(x: i64, y: i64) -> (r: Vec2)
        ensures
            r.x == x,
            r.y == y,
    {
        Vec2 { x, y }
    }
}

/// The bounding circle of a moving body.
#[derive(Clone, Copy, Debug, PartialEq, Eq, Structural)]
pub struct Circle {
    pub center: Vec2,
    pub radius: i64,
}

/// An axis-aligned rectangle in half-extent form.
#[derive(Clone, Copy, Debug, PartialEq, Eq, Structural)]
pub struct Aabb {
    pub center: Vec2,
    pub half: Vec2,
}

/// The face of a rectangle that a body struck.
#[derive(Clone, Copy, Debug, PartialEq, Eq, Structural)]
pub enum Collision {
    Left,
    Right,
    Top,
    Bottom,
}

pub open spec fn clamp_spec(v: int, lo: int, hi: int) -> int {
    if v < lo {
        lo
    } else if v > hi {
        hi
    } else {
        v
    }
}

pub open spec fn abs_spec(v: int) -> int {
    if v < 0 {
        -v
    } else {
        v
    }
}

impl Circle {
    pub open spec fn wf(self) -> bool {
        self.radius >= 0
    }

    pub fn new(center: Vec2, radius: i64) -> (r: Circle)
        requires
            radius >= 0,
        ensures
            r.center == center,
            r.radius == radius,
            r.wf(),
    {
        Circle { center, radius }
    }
}

impl Aabb {
    pub open spec fn wf(self) -> bool {
        self.half.x >= 0 && self.half.y >= 0
    }

    pub open spec fn min_x(self) -> int {
        self.center.x - self.half.x
    }

    pub open spec fn max_x(self) -> int {
        self.center.x + self.half.x
    }

    pub open spec fn min_y(self) -> int {
        self.center.y - self.half.y
    }

    pub open spec fn max_y(self) -> int {
        self.center.y + self.half.y
    }

    /// The point of the rectangle nearest to `(px, py)`.
    pub open spec fn closest_x(self, px: int) -> int {
        clamp_spec(px, self.min_x(), self.max_x())
    }

    pub open spec fn closest_y(self, py: int) -> int {
        clamp_spec(py, self.min_y(), self.max_y())
    }

    pub fn new(center: Vec2, half: Vec2) -> (r: Aabb)
        requires
            half.x >= 0,
            half.y >= 0,
        ensures
            r.center == center,
            r.half == half,
            r.wf(),
    {
        Aabb { center, half }
    }

    /// The point of the rectangle nearest to `p`; `p` itself when it lies inside.
    pub fn closest_point(&self, p: Vec2) -> (r: Vec2)
        requires
            self.wf(),
        ensures
            r.x == self.closest_x(p.x as int),
            r.y == self.closest_y(p.y as int),
    {
        let x = clamp_axis(p.x, self.center.x, self.half.x);
        let y = clamp_axis(p.y, self.center.y, self.half.y);
        Vec2 { x, y }
    }
}

/// `v` clamped into `[c - h, c + h]`; the result lies between `v` and `c`, so it fits.
fn clamp_axis(v: i64, c: i64, h: i64) -> (r: i64)
    requires
        h >= 0,
    ensures
        r == clamp_spec(v as int, c - h, c + h),
{
    let lo: i128 = c as i128 - h as i128;
    let hi: i128 = c as i128 + h as i128;
    let w: i128 = v as i128;
    if w < lo {
        lo as i64
    } else if w > hi {
        hi as i64
    } else {
        v
    }
}

/// The offset from the rectangle's nearest point to the circle's center.
pub open spec fn offset_x(ball: Circle, wall: Aabb) -> int {
    ball.center.x - wall.closest_x(ball.center.x as int)
}

pub open spec fn offset_y(ball: Circle, wall: Aabb) -> int {
    ball.center.y - wall.closest_y(ball.center.y as int)
}

/// The circle and the rectangle overlap: the rectangle's nearest point lies within the radius.
pub open spec fn intersects_spec(ball: Circle, wall: Aabb) -> bool {
    offset_x(ball, wall) * offset_x(ball, wall) + offset_y(ball, wall) * offset_y(ball, wall)
        <= ball.radius * ball.radius
}

/// The face named by an offset: the larger component decides, `x` only when strictly larger.
pub open spec fn side_of_offset(dx: int, dy: int) -> Collision {
    if abs_spec(dx) > abs_spec(dy) {
        if dx < 0 {
            Collision::Left
        } else {
            Collision::Right
        }
    } else if dy > 0 {
        Collision::Top
    } else {
        Collision::Bottom
    }
}

pub open spec fn collide_spec(ball: Circle, wall: Aabb) -> Option<Collision> {
    if intersects_spec(ball, wall) {
        Some(side_of_offset(offset_x(ball, wall), offset_y(ball, wall)))
    } else {
        None
    }
}

impl Circle {
    /// Whether the circle overlaps the rectangle, boundaries included.
    pub fn intersects(&self, wall: &Aabb) -> (r: bool)
        requires
            self.wf(),
            wall.wf(),
        ensures
            r == intersects_spec(*self, *wall),
    {
        let closest = wall.closest_point(self.center);
        let dx: i128 = self.center.x as i128 - closest.x as i128;
        let dy: i128 = self.center.y as i128 - closest.y as i128;
        let r: i128 = self.radius as i128;
        if dx > r || -dx > r || dy > r || -dy > r {
            proof {
                lemma_square_exceeds(dx as int, dy as int, r as int);
            }
            return false;
        }
        proof {
            lemma_square_bounded(dx as int, r as int);
            lemma_square_bounded(dy as int, r as int);
        }
        dx * dx + dy * dy <= r * r
    }
}

proof fn lemma_square_bounded(d: int, r: int)
    requires
        0 <= r <= i64::MAX,
        -r <= d <= r,
    ensures
        0 <= d * d <= r * r,
        r * r < 0x4000_0000_0000_0000_0000_0000_0000_0000,
{
    assert(0 <= d * d <= r * r) by (nonlinear_arith)
        requires
            0 <= r,
            -r <= d <= r,
    ;
    assert(r * r <= 0x7fff_ffff_ffff_ffff * 0x7fff_ffff_ffff_ffff) by (nonlinear_arith)
        requires
            0 <= r <= 0x7fff_ffff_ffff_ffff,
    ;
}

pub(crate) proof fn lemma_square_exceeds(dx: int, dy: int, r: int)
    requires
        0 <= r,
        dx > r || -dx > r || dy > r || -dy > r,
    ensures
        dx * dx + dy * dy > r * r,
{
    assert(dx * dx >= 0 && dy * dy >= 0) by (nonlinear_arith);
    if dx > r || -dx > r {
        assert(dx * dx > r * r) by (nonlinear_arith)
            requires
                0 <= r,
                dx > r || -dx > r,
        ;
    } else {
        assert(dy * dy > r * r) by (nonlinear_arith)
            requires
                0 <= r,
                dy > r || -dy > r,
        ;
    }
}

/// Which face of `wall` the circle struck, or `None` when they do not overlap.
pub fn collide_with_side(ball: Circle, wall: Aabb) -> (r: Option<Collision>)
    requires
        ball.wf(),
        wall.wf(),
    ensures
        r == collide_spec(ball, wall),
{
    if !ball.intersects(&wall) {
        return None;
    }
    let closest = wall.closest_point(ball.center);
    let dx: i128 = ball.center.x as i128 - closest.x as i128;
    let dy: i128 = ball.center.y as i128 - closest.y as i128;
    let ax: i128 = if dx < 0 { -dx } else { dx };
    let ay: i128 = if dy < 0 { -dy } else { dy };
    let side = if ax > ay {
        if dx < 0 {
            Collision::Left
        } else {
            Collision::Right
        }
    } else if dy > 0 {
        Collision::Top
    } else {
        Collision::Bottom
    };
    Some(side)
}

} // verus!
