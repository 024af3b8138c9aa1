use vstd::prelude::*;
use vstd::arithmetic::div_mod::{
    lemma_mod_add_multiples_vanish, lemma_mod_division_less_than_divisor, lemma_small_mod,
    lemma_sub_mod_noop,
};
use crate::units::COORD_LIMIT;

verus! {

/// One endlessly scrolling tile: a horizontal offset that moves left by a
/// fixed speed each tick and wraps modulo the tile width, so it always lies
/// in `[0, width)`.  Drawing the tile at `offset - width` and at `offset`
/// then always covers the screen seamlessly.  The parallax background layers
/// and the ground all share this model, each with its own speed and width.
#[derive(Clone, Copy, PartialEq, Eq, Structural, Debug)]
pub struct ScrollLayer {
    pub offset: i64,
    pub speed: i64,
    pub width: i64,
}

impl ScrollLayer {
    pub open spec fn wf(self) -> bool {
        &&& 0 < self.width <= COORD_LIMIT
        &&& 0 <= self.speed < self.width
        &&& 0 <= self.offset < self.width
    }

    /// The offset after one update: moved left by `speed`, wrapped into
    /// `[0, width)`.
    pub open spec fn step_offset(self) -> int {
        (self.offset - self.speed) % (self.width as int)
    }

    /// The layer after one update.
    pub open spec fn stepped(self) -> ScrollLayer {
        ScrollLayer { offset: self.step_offset() as i64, ..self }
    }

    pub fn new(speed: i64, width: i64) -> (l: ScrollLayer)
        requires
            0 < width <= COORD_LIMIT,
            0 <= speed < width,
        ensures
            l == (ScrollLayer { offset: 0, speed, width }),
            l.wf(),
    {
        ScrollLayer { offset: 0, speed, width }
    }

    /// Advance the layer one tick.
    pub fn update(&mut self)
        requires
            old(self).wf(),
        ensures
            *final(self) == old(self).stepped(),
            final(self).wf(),
    {
        proof {
            let o = self.offset as int;
            let s = self.speed as int;
            let w = self.width as int;
            if o >= s {
                lemma_small_mod((o - s) as nat, w as nat);
            } else {
                lemma_mod_add_multiples_vanish(o - s, w);
                lemma_small_mod((o - s + w) as nat, w as nat);
            }
        }
        if self.offset >= self.speed {
            self.offset = self.offset - self.speed;
        } else {
            self.offset = self.offset - self.speed + self.width;
        }
    }
}

/// The offset that `n` updates at speed `speed` produce from `offset`, with
/// tile width `width`.
pub open spec fn offset_after(offset: int, speed: int, width: int, n: nat) -> int
    decreases n,
{
    if n == 0 {
        offset
    } else {
        (offset_after(offset, speed, width, (n - 1) as nat) - speed) % width
    }
}

/// Law: a scrolling layer's offset after `n` updates at speed `s` with tile
/// width `w` equals `(initial_offset - n*s) mod w`, and always lies in
/// `[0, w)`.
pub proof fn lemma_offset_after_closed_form(l: ScrollLayer, n: nat)
    requires
        l.wf(),
    ensures
        offset_after(l.offset as int, l.speed as int, l.width as int, n) == (l.offset - n * l.speed)
            % (l.width as int),
        0 <= offset_after(l.offset as int, l.speed as int, l.width as int, n) < l.width,
    decreases n,
{
    let o = l.offset as int;
    let s = l.speed as int;
    let w = l.width as int;
    if n == 0 {
        assert(o - n * s == o);
        lemma_small_mod(o as nat, w as nat);
    } else {
        lemma_offset_after_closed_form(l, (n - 1) as nat);
        let a = o - (n - 1) * s;
        lemma_small_mod(s as nat, w as nat);
        lemma_sub_mod_noop(a, s, w);
        assert((o - (n - 1) * s) - s == o - n * s) by (nonlinear_arith)
            requires
                n >= 1,
        ;
        lemma_mod_division_less_than_divisor(o - n * s, w);
    }
}

} // verus!
