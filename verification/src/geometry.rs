//! Points, axis-aligned rectangles and the circle-against-rectangle test.
//!
//! Specifications speak of raw fixed-point integers (256 to the unit).

use crate::fixed::{
    fits, fixed_add, fixed_div, fixed_mul, fixed_new, fixed_sub, floor_sqrt,
    lemma_floor_sqrt_bound, lemma_floor_sqrt_exists, trunc_div, Fixed,
};
use vstd::prelude::*;

verus! {

/// A raw distance from zero, 512 units and so more than twice the width of
/// the play field, within which positions and velocities are small enough
/// that no step of a tick leaves the range of the numbers.
pub const REACH: i32 = 131072;

/// A pair of fixed-point coordinates.
#[derive(Clone, Copy, Debug, PartialEq, Eq, Structural)]
pub struct Vec2 {
    pub x: Fixed,
    pub y: Fixed,
}

/// `v` moved into the interval from `lo` to `hi`.
pub open spec fn clamp(v: int, lo: int, hi: int) -> int {
    if v < lo {
        lo
    } else if v > hi {
        hi
    } else {
        v
    }
}

impl Vec2 {
    /// The vector with the given raw coordinates.
    pub open spec fn of_raw(x: int, y: int) -> Vec2 {
        Vec2 { x: Fixed { raw: x as i32 }, y: Fixed { raw: y as i32 } }
    }

    /// Both coordinates of the sum can be represented.
    pub open spec fn can_add(self, rhs: Vec2) -> bool {
        fits(self.x.raw + rhs.x.raw) && fits(self.y.raw + rhs.y.raw)
    }

    /// The coordinate-wise sum.
    pub open spec fn plus(self, rhs: Vec2) -> Vec2 {
        Vec2::of_raw(self.x.raw + rhs.x.raw, self.y.raw + rhs.y.raw)
    }

    /// The vector with these coordinates.
    pub fn new(x: Fixed, y: Fixed) -> (r: Vec2)
        ensures
            r == (Vec2 { x, y }),
    {
        Vec2 { x, y }
    }

    /// The vector with the given raw coordinates.
    pub fn from_raw(x: i32, y: i32) -> (r: Vec2)
        ensures
            r == Vec2::of_raw(x as int, y as int),
    {
        Vec2 { x: Fixed { raw: x }, y: Fixed { raw: y } }
    }

    /// The coordinate-wise sum.
    pub fn sum(self, rhs: Vec2) -> (r: Vec2)
        requires
            self.can_add(rhs),
        ensures
            r == self.plus(rhs),
    {
        Vec2 { x: fixed_add(self.x, rhs.x), y: fixed_add(self.y, rhs.y) }
    }
}

/// An axis-aligned rectangle: its corner nearest the origin, and its size.
#[derive(Clone, Copy, Debug, PartialEq, Eq, Structural)]
pub struct Rect {
    pub position: Vec2,
    pub size: Vec2,
}

impl Rect {
    /// The size is not negative and the far corner can be represented.
    pub open spec fn wf(self) -> bool {
        &&& self.size.x.raw >= 0
        &&& self.size.y.raw >= 0
        &&& self.position.can_add(self.size)
    }

    /// Raw coordinate of the left edge.
    pub open spec fn left(self) -> int {
        self.position.x.raw as int
    }

    /// Raw coordinate of the top edge.
    pub open spec fn top(self) -> int {
        self.position.y.raw as int
    }

    /// Raw coordinate of the right edge.
    pub open spec fn right(self) -> int {
        self.position.x.raw + self.size.x.raw
    }

    /// Raw coordinate of the bottom edge.
    pub open spec fn bottom(self) -> int {
        self.position.y.raw + self.size.y.raw
    }

    /// The point `(x, y)`, in raw coordinates, lies in the rectangle, its
    /// border included.
    pub open spec fn holds(self, x: int, y: int) -> bool {
        self.left() <= x <= self.right() && self.top() <= y <= self.bottom()
    }

    /// The middle of the rectangle: the position plus half the size, each
    /// half rounded towards zero.
    pub open spec fn spec_centre(self) -> Vec2 {
        Vec2::of_raw(
            self.position.x.raw + self.size.x.raw / 2,
            self.position.y.raw + self.size.y.raw / 2,
        )
    }

    /// The size can be halved in fixed-point arithmetic without losing bits.
    pub open spec fn can_halve(self) -> bool {
        fits(self.size.x.raw * 256) && fits(self.size.y.raw * 256)
    }

    /// The rectangle of this size with its corner at `position`. A negative
    /// size is refused.
    pub fn new(position: Vec2, size: Vec2) -> (r: Rect)
        requires
            size.x.raw >= 0,
            size.y.raw >= 0,
            position.can_add(size),
        ensures
            r == (Rect { position, size }),
            r.wf(),
    {
        Rect { position, size }
    }

    /// The corner nearest the origin.
    pub fn top_left(self) -> (r: Vec2)
        ensures
            r == self.position,
    {
        self.position
    }

    /// The corner farthest from the origin.
    pub fn bottom_right(self) -> (r: Vec2)
        requires
            self.wf(),
        ensures
            r == Vec2::of_raw(self.right(), self.bottom()),
    {
        self.position.sum(self.size)
    }

    /// The middle of the rectangle.
    pub fn centre(self) -> (r: Vec2)
        requires
            self.wf(),
            self.can_halve(),
        ensures
            r == self.spec_centre(),
    {
        let two = fixed_new(2);
        let half_x = fixed_div(self.size.x, two);
        let half_y = fixed_div(self.size.y, two);
        assert(trunc_div(self.size.x.raw * 256, 512) == self.size.x.raw / 2);
        assert(trunc_div(self.size.y.raw * 256, 512) == self.size.y.raw / 2);
        self.position.sum(Vec2 { x: half_x, y: half_y })
    }
}

/// A circle, given by the corner of its bounding box nearest the origin and
/// its radius.
#[derive(Clone, Copy, Debug, PartialEq, Eq, Structural)]
pub struct Circle {
    pub pos: Vec2,
    pub radius: Fixed,
}

impl Circle {
    /// The radius is positive and the centre can be represented.
    pub open spec fn wf(self) -> bool {
        &&& self.radius.raw > 0
        &&& fits(self.pos.x.raw + self.radius.raw)
        &&& fits(self.pos.y.raw + self.radius.raw)
    }

    /// Raw horizontal coordinate of the centre.
    pub open spec fn centre_x(self) -> int {
        self.pos.x.raw + self.radius.raw
    }

    /// Raw vertical coordinate of the centre.
    pub open spec fn centre_y(self) -> int {
        self.pos.y.raw + self.radius.raw
    }

    /// Horizontal offset of the centre from the point of `rect` nearest to
    /// it.
    pub open spec fn gap_x(self, rect: Rect) -> int {
        self.centre_x() - clamp(self.centre_x(), rect.left(), rect.right())
    }

    /// Vertical offset of the point of `rect` nearest to the centre from the
    /// centre.
    pub open spec fn gap_y(self, rect: Rect) -> int {
        clamp(self.centre_y(), rect.top(), rect.bottom()) - self.centre_y()
    }

    /// The squared distance from the centre to `rect` in fixed-point
    /// arithmetic: each square is rounded down to a raw unit.
    pub open spec fn square_gap(self, rect: Rect) -> int {
        (self.gap_x(rect) * self.gap_x(rect)) / 256 + (self.gap_y(rect) * self.gap_y(rect)) / 256
    }

    /// The distance from the centre to `rect` in fixed-point arithmetic.
    pub open spec fn distance(self, rect: Rect) -> int {
        16 * floor_sqrt(self.square_gap(rect))
    }

    /// The distance from the centre to `rect` can be computed: no step of it
    /// leaves the range of the numbers.
    pub open spec fn can_touch(self, rect: Rect) -> bool {
        &&& self.wf()
        &&& rect.wf()
        &&& fits(self.gap_x(rect))
        &&& fits(self.gap_y(rect))
        &&& fits(self.square_gap(rect))
    }

    /// The circle reaches `rect`: the centre is no farther from it than the
    /// radius.
    pub open spec fn spec_touches(self, rect: Rect) -> bool {
        self.distance(rect) <= self.radius.raw
    }

    /// The circle of this radius whose bounding box has its corner at `pos`.
    /// A radius that is not positive is refused.
    pub fn new(pos: Vec2, radius: Fixed) -> (r: Circle)
        requires
            radius.raw > 0,
            fits(pos.x.raw + radius.raw),
            fits(pos.y.raw + radius.raw),
        ensures
            r == (Circle { pos, radius }),
            r.wf(),
    {
        Circle { pos, radius }
    }

    /// The centre: one radius right of and below `pos`.
    pub fn centre(&self) -> (r: Vec2)
        requires
            self.wf(),
        ensures
            r == Vec2::of_raw(self.centre_x(), self.centre_y()),
    {
        self.pos.sum(Vec2 { x: self.radius, y: self.radius })
    }

    /// Whether the circle reaches `rect`, by the closest-point test.
    pub fn touches(&self, rect: Rect) -> (r: bool)
        requires
            self.can_touch(rect),
        ensures
            r == self.spec_touches(rect),
    {
        let c = self.centre();
        let low = rect.top_left();
        let high = rect.bottom_right();
        let test_x = if c.x.raw < low.x.raw {
            low.x
        } else if c.x.raw > high.x.raw {
            high.x
        } else {
            c.x
        };
        let test_y = if c.y.raw < low.y.raw {
            low.y
        } else if c.y.raw > high.y.raw {
            high.y
        } else {
            c.y
        };
        let dist_x = fixed_sub(c.x, test_x);
        let dist_y = fixed_sub(test_y, c.y);
        proof {
            lemma_square_shifted(dist_x.raw as int);
            lemma_square_shifted(dist_y.raw as int);
        }
        let square_x = fixed_mul(dist_x, dist_x);
        let square_y = fixed_mul(dist_y, dist_y);
        let dist = fixed_add(square_x, square_y).sqrt();
        dist.raw <= self.radius.raw
    }
}

/// Both coordinates are within `REACH` of zero.
pub open spec fn near(v: Vec2) -> bool {
    -REACH <= v.x.raw <= REACH && -REACH <= v.y.raw <= REACH
}

/// Whether both coordinates are within `REACH` of zero.
pub fn within(v: Vec2) -> (r: bool)
    ensures
        r == near(v),
{
    -REACH <= v.x.raw && v.x.raw <= REACH && -REACH <= v.y.raw && v.y.raw <= REACH
}

/// A circle whose centre is within twice `REACH` and a rectangle within
/// `REACH`, each with a margin for the sizes of the ball and of a paddle, can
/// be tested against each other.
pub proof fn lemma_can_touch_in_reach(c: Circle, rect: Rect)
    requires
        c.wf(),
        rect.wf(),
        -2 * REACH <= c.centre_x() <= 2 * REACH + 2048,
        -2 * REACH <= c.centre_y() <= 2 * REACH + 2048,
        -REACH <= rect.left() <= rect.right() <= REACH + 11264,
        -REACH <= rect.top() <= rect.bottom() <= REACH + 11264,
    ensures
        c.can_touch(rect),
{
    let gx = c.gap_x(rect);
    let gy = c.gap_y(rect);
    lemma_square_shifted(gx);
    lemma_square_shifted(gy);
    assert(gx * gx <= 410000 * 410000) by (nonlinear_arith)
        requires
            -410000 <= gx <= 410000,
    ;
    assert(gy * gy <= 410000 * 410000) by (nonlinear_arith)
        requires
            -410000 <= gy <= 410000,
    ;
}

/// A square divided by 256 is not negative.
pub proof fn lemma_square_shifted(d: int)
    ensures
        0 <= (d * d) / 256,
{
    assert(0 <= d * d) by (nonlinear_arith);
}

/// The squared distance, in squared raw units and without rounding, from the
/// point `(px, py)` to the point `(qx, qy)`.
pub open spec fn square_distance(px: int, py: int, qx: int, qy: int) -> int {
    (px - qx) * (px - qx) + (py - qy) * (py - qy)
}

/// The squared distance from the circle's centre to the point of `rect` that
/// the test measures to, without rounding.
pub open spec fn exact_square_gap(c: Circle, rect: Rect) -> int {
    c.gap_x(rect) * c.gap_x(rect) + c.gap_y(rect) * c.gap_y(rect)
}

/// The point that the test measures to lies in the rectangle, and no point of
/// the rectangle is nearer to the circle's centre: the test measures the
/// least distance from the centre to the rectangle.
pub proof fn lemma_gap_is_least_distance(c: Circle, rect: Rect, x: int, y: int)
    requires
        rect.wf(),
        rect.holds(x, y),
    ensures
        rect.holds(
            clamp(c.centre_x(), rect.left(), rect.right()),
            clamp(c.centre_y(), rect.top(), rect.bottom()),
        ),
        exact_square_gap(c, rect) == square_distance(
            c.centre_x(),
            c.centre_y(),
            clamp(c.centre_x(), rect.left(), rect.right()),
            clamp(c.centre_y(), rect.top(), rect.bottom()),
        ),
        exact_square_gap(c, rect) <= square_distance(c.centre_x(), c.centre_y(), x, y),
{
    let gx = c.gap_x(rect);
    let gy = c.gap_y(rect);
    let dx = c.centre_x() - x;
    let dy = c.centre_y() - y;
    assert(gx * gx <= dx * dx) by (nonlinear_arith)
        requires
            (0 <= gx <= dx) || (dx <= gx <= 0),
    ;
    assert(gy * gy <= dy * dy) by (nonlinear_arith)
        requires
            (0 <= gy <= -dy) || (-dy <= gy <= 0),
    ;
    assert((-gy) * (-gy) == gy * gy) by (nonlinear_arith);
}

/// The test without a square root: the circle touches the rectangle exactly
/// when the rounded squared distance is less than the square of the radius,
/// counted in sixteenths of a unit, plus one.
pub proof fn lemma_touches_by_squares(c: Circle, rect: Rect)
    requires
        c.wf(),
    ensures
        c.spec_touches(rect) <==> c.square_gap(rect) < (c.radius.raw / 16 + 1) * (c.radius.raw / 16
            + 1),
{
    let s = c.square_gap(rect);
    lemma_square_shifted(c.gap_x(rect));
    lemma_square_shifted(c.gap_y(rect));
    lemma_floor_sqrt_exists(s);
    lemma_floor_sqrt_bound(floor_sqrt(s), s, c.radius.raw as int / 16);
}

/// A circle whose centre is, without rounding, no farther from the rectangle
/// than its radius touches the rectangle.
pub proof fn lemma_touches_within_radius(c: Circle, rect: Rect)
    requires
        c.wf(),
        exact_square_gap(c, rect) <= c.radius.raw * c.radius.raw,
    ensures
        c.spec_touches(rect),
{
    let gx = c.gap_x(rect);
    let gy = c.gap_y(rect);
    let r = c.radius.raw as int;
    let s = c.square_gap(rect);
    lemma_square_shifted(gx);
    lemma_square_shifted(gy);
    lemma_floor_sqrt_exists(s);
    let q = floor_sqrt(s);
    assert(256 * s <= gx * gx + gy * gy);
    assert(16 * q <= r) by (nonlinear_arith)
        requires
            0 <= q,
            0 < r,
            q * q <= s,
            256 * s <= r * r,
    ;
}

/// A circle that touches the rectangle has its centre, without rounding, less
/// than a sixteenth of a unit and a little more beyond its radius from the
/// rectangle.
pub proof fn lemma_touches_near_radius(c: Circle, rect: Rect)
    requires
        c.wf(),
        c.spec_touches(rect),
    ensures
        exact_square_gap(c, rect) < (c.radius.raw + 16) * (c.radius.raw + 16) + 256,
{
    let gx = c.gap_x(rect);
    let gy = c.gap_y(rect);
    let r = c.radius.raw as int;
    let s = c.square_gap(rect);
    lemma_square_shifted(gx);
    lemma_square_shifted(gy);
    lemma_floor_sqrt_exists(s);
    let q = floor_sqrt(s);
    assert(gx * gx + gy * gy < 256 * s + 512);
    assert(256 * (s + 1) <= (r + 16) * (r + 16)) by (nonlinear_arith)
        requires
            0 <= q,
            0 < r,
            16 * q <= r,
            s < (q + 1) * (q + 1),
    ;
}

} // verus!
