use vstd::prelude::*;
use crate::units::{in_range, COORD_LIMIT, RECT_BOUND};

verus! {

/// A point or vector of the play field, in sub-units.
#[derive(Clone, Copy, PartialEq, Eq, Structural, Debug)]
pub struct Vec2 {
    pub x: i64,
    pub y: i64,
}

impl Vec2 {
    pub open spec fn in_range(self) -> bool {
        in_range(self.x) && in_range(self.y)
    }

    pub fn new(x: i64, y: i64) -> (v: Vec2)
        ensures
            v == (Vec2 { x, y }),
    {
        Vec2 { x, y }
    }
}

/// An axis-aligned box, in sub-units: `(x, y)` is the top-left corner.
#[derive(Clone, Copy, PartialEq, Eq, Structural, Debug)]
pub struct Rectangle {
    pub x: i64,
    pub y: i64,
    pub width: i64,
    pub height: i64,
}

impl Rectangle {
    /// Fields inside the band that the overlap test accepts.
    pub open spec fn in_bound(self) -> bool {
        &&& -RECT_BOUND <= self.x <= RECT_BOUND
        &&& -RECT_BOUND <= self.y <= RECT_BOUND
        &&& -RECT_BOUND <= self.width <= RECT_BOUND
        &&& -RECT_BOUND <= self.height <= RECT_BOUND
    }

    /// Fields inside the storage band of simulation coordinates.
    pub open spec fn in_range(self) -> bool {
        &&& in_range(self.x)
        &&& in_range(self.y)
        &&& in_range(self.width)
        &&& in_range(self.height)
    }

    pub fn new(x: i64, y: i64, width: i64, height: i64) -> (r: Rectangle)
        ensures
            r == (Rectangle { x, y, width, height }),
    {
        Rectangle { x, y, width, height }
    }
}

/// Axis-aligned overlap with half-open sides: boxes that merely touch at an
/// edge do not overlap (all four comparisons are strict).
pub open spec fn rects_overlap(a: Rectangle, b: Rectangle) -> bool {
    &&& a.x < b.x + b.width
    &&& a.x + a.width > b.x
    &&& a.y < b.y + b.height
    &&& a.y + a.height > b.y
}

/// The standard AABB overlap test.
pub fn check_collision(rect1: &Rectangle, rect2: &Rectangle) -> (r: bool)
    requires
        rect1.in_bound(),
        rect2.in_bound(),
    ensures
        r == rects_overlap(*rect1, *rect2),
{
    rect1.x < rect2.x + rect2.width && rect1.x + rect1.width > rect2.x
        && rect1.y < rect2.y + rect2.height && rect1.y + rect1.height > rect2.y
}

/// Overlap is symmetric.
pub proof fn lemma_overlap_symmetric(a: Rectangle, b: Rectangle)
    ensures
        rects_overlap(a, b) == rects_overlap(b, a),
{
}

/// Every non-degenerate box overlaps itself.
pub proof fn lemma_overlap_self(a: Rectangle)
    requires
        a.width > 0,
        a.height > 0,
    ensures
        rects_overlap(a, a),
{
}

/// An entity with an axis-aligned collision box.
pub trait PhysicsBody: Sized {
    /// The entity's state is inside the storage band.
    spec fn body_wf(&self) -> bool;

    /// The collision box the entity reports.
    spec fn collision_rect_spec(&self) -> Rectangle;

    /// Whether the entity counts a box as hitting it.
    spec fn hits_spec(&self, obj: Rectangle) -> bool;

    fn get_collision_rect(&mut self) -> (r: Rectangle)
        requires
            old(self).body_wf(),
        ensures
            *final(self) == *old(self),
            r == old(self).collision_rect_spec(),
    ;

    fn collides_with(&mut self, obj: &Rectangle) -> (r: bool)
        requires
            old(self).body_wf(),
            obj.in_range(),
        ensures
            *final(self) == *old(self),
            r == old(self).hits_spec(*obj),
    ;
}

} // verus!
