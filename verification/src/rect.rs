//! Axis-aligned rectangles and the collision resolver.
//!
//! A rectangle is given by its center and its half-extents. Two rectangles
//! overlap only when they interpenetrate strictly on both axes: edges that
//! merely touch do not count as a collision. On overlap the resolver returns
//! the signed penetration depth along each axis; callers subtract one
//! component from the corresponding coordinate to separate the rectangles.

use vstd::math::abs;
use vstd::prelude::*;

verus! {

/// Bound on the coordinates the resolver accepts; generous enough that every
/// intermediate sum and difference fits in an `i64`.
pub const COORD_LIMIT: i64 = 0x1000_0000_0000_0000;

/// An axis-aligned rectangle in world units: center position and half-extents.
#[derive(Clone, Copy, Debug, PartialEq, Eq, Structural)]
pub struct Rect {
    pub x: i64,
    pub y: i64,
    pub half_w: i64,
    pub half_h: i64,
}

/// The same rectangle over unbounded integers, for specifications.
pub struct Aabb {
    pub x: int,
    pub y: int,
    pub half_w: int,
    pub half_h: int,
}

impl View for Rect {
    type V = Aabb;

    open spec fn view(&self) -> Aabb {
        Aabb { x: self.x as int, y: self.y as int, half_w: self.half_w as int, half_h: self.half_h as int }
    }
}

/// The sign convention of the resolver: zero counts as positive, so the
/// penetration vector always picks a side for the first rectangle.
pub open spec fn signum(d: int) -> int {
    if d >= 0 {
        1
    } else {
        -1
    }
}

impl Aabb {
    /// Within the arithmetic range of the resolver.
    pub open spec fn bounded(self) -> bool {
        &&& -COORD_LIMIT <= self.x <= COORD_LIMIT
        &&& -COORD_LIMIT <= self.y <= COORD_LIMIT
        &&& 0 <= self.half_w <= COORD_LIMIT
        &&& 0 <= self.half_h <= COORD_LIMIT
    }
}

/// Strict interpenetration on both axes.
pub open spec fn overlaps(a: Aabb, b: Aabb) -> bool {
    abs(a.x - b.x) < a.half_w + b.half_w && abs(a.y - b.y) < a.half_h + b.half_h
}

/// Signed horizontal penetration depth: its magnitude is how deep the
/// rectangles interpenetrate along x, its sign says on which side `a` lies.
pub open spec fn pen_x(a: Aabb, b: Aabb) -> int {
    signum(a.x - b.x) * (abs(a.x - b.x) - (a.half_w + b.half_w))
}

/// Signed vertical penetration depth, as [`pen_x`] on the y axis.
pub open spec fn pen_y(a: Aabb, b: Aabb) -> int {
    signum(a.y - b.y) * (abs(a.y - b.y) - (a.half_h + b.half_h))
}

/// Decides whether two rectangles collide and, if so, returns the minimum
/// translation vector `(h, v)` that separates them per axis.
///
/// Rectangles whose edges exactly meet are not colliding: the overlap test is
/// a strict inequality on both axes, a deliberate boundary policy.
pub fn collide_aabb(a: &Rect, b: &Rect) -> (r: Option<(i64, i64)>)
    requires
        a@.bounded(),
        b@.bounded(),
    ensures
        r is Some <==> overlaps(a@, b@),
        r matches Some(p) ==> p.0 == pen_x(a@, b@) && p.1 == pen_y(a@, b@),
{
    let dx = a.x - b.x;
    let dy = a.y - b.y;
    let adx = if dx >= 0 { dx } else { -dx };
    let ady = if dy >= 0 { dy } else { -dy };
    let sum_w = a.half_w + b.half_w;
    let sum_h = a.half_h + b.half_h;
    if adx < sum_w && ady < sum_h {
        let h = if dx >= 0 { adx - sum_w } else { -(adx - sum_w) };
        let v = if dy >= 0 { ady - sum_h } else { -(ady - sum_h) };
        Some((h, v))
    } else {
        None
    }
}

/// Overlap is symmetric: whether two rectangles collide does not depend on
/// the order they are given in.
pub proof fn lemma_overlap_symmetric(a: Aabb, b: Aabb)
    ensures
        overlaps(a, b) == overlaps(b, a),
{
}

/// Touching is not colliding: rectangles whose edges exactly meet on either
/// axis (gap exactly zero) do not overlap.
pub proof fn lemma_touching_is_not_overlap(a: Aabb, b: Aabb)
    requires
        abs(a.x - b.x) == a.half_w + b.half_w || abs(a.y - b.y) == a.half_h + b.half_h,
    ensures
        !overlaps(a, b),
{
}

/// Separation correctness: translating `a` by `(-h, 0)` or by `(0, -v)`
/// alone brings that axis to exact edge contact, so the translated
/// rectangles no longer overlap (touching is not colliding).
pub proof fn lemma_penetration_separates(a: Aabb, b: Aabb)
    requires
        overlaps(a, b),
    ensures
        abs((a.x - pen_x(a, b)) - b.x) == a.half_w + b.half_w,
        abs((a.y - pen_y(a, b)) - b.y) == a.half_h + b.half_h,
        !overlaps((Aabb { x: a.x - pen_x(a, b), ..a }), b),
        !overlaps((Aabb { y: a.y - pen_y(a, b), ..a }), b),
{
}

} // verus!
