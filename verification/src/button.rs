use vstd::prelude::*;
use crate::physics::{Rectangle, Vec2};
use crate::units::{clamped, in_range, sub_clamped, COORD_LIMIT};

verus! {

/// A clickable screen region, built from the sprite's size so that the
/// sprite is centered on a given point.
#[derive(Clone, Copy, PartialEq, Eq, Structural, Debug)]
pub struct Button {
    pub rect: Rectangle,
}

impl Button {
    pub open spec fn wf(self) -> bool {
        self.rect.in_range()
    }

    /// The value `new` returns: the rectangle of the given size centered on
    /// the given point.
    pub open spec fn new_spec(centered_position: Vec2, width: i64, height: i64) -> Button {
        Button {
            rect: Rectangle {
                x: clamped(centered_position.x - width / 2) as i64,
                y: clamped(centered_position.y - height / 2) as i64,
                width,
                height,
            },
        }
    }

    /// Whether a point lies on the button, edges included.
    pub open spec fn contains_spec(self, point: Vec2) -> bool {
        &&& point.x >= self.rect.x
        &&& point.x <= self.rect.x + self.rect.width
        &&& point.y >= self.rect.y
        &&& point.y <= self.rect.y + self.rect.height
    }

    pub fn new(centered_position: Vec2, width: i64, height: i64) -> (b: Button)
        requires
            centered_position.in_range(),
            0 <= width <= COORD_LIMIT,
            0 <= height <= COORD_LIMIT,
        ensures
            b == Button::new_spec(centered_position, width, height),
            b.wf(),
    {
        let half_width: i64 = width / 2;
        let half_height: i64 = height / 2;
        proof {
            vstd::arithmetic::div_mod::lemma_div_pos_is_pos(width as int, 2);
            vstd::arithmetic::div_mod::lemma_div_nonincreasing(width as int, 2);
            vstd::arithmetic::div_mod::lemma_div_pos_is_pos(height as int, 2);
            vstd::arithmetic::div_mod::lemma_div_nonincreasing(height as int, 2);
        }
        Button {
            rect: Rectangle {
                x: sub_clamped(centered_position.x, half_width),
                y: sub_clamped(centered_position.y, half_height),
                width,
                height,
            },
        }
    }

    /// Hit-test a point against the button, edges included.
    pub fn contains(&self, point: Vec2) -> (r: bool)
        requires
            self.wf(),
        ensures
            r == self.contains_spec(point),
    {
        point.x >= self.rect.x && point.x <= self.rect.x + self.rect.width && point.y
            >= self.rect.y && point.y <= self.rect.y + self.rect.height
    }
}

} // verus!
