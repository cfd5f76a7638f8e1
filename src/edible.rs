use vstd::prelude::*;
use crate::geometry::{Rect, UNIT, clamp_side, pixel_len_of, to_pixel_len};
use crate::random::random_in;

verus! {

/// Food: a square whose side is its nutrition, in micro-pixels.
#[derive(Clone, Copy, Debug, PartialEq, Eq, Structural)]
pub struct Edible {
    pub rect: Rect,
    pub nutrition: i64,
}

/// The side of the rectangle of an edible with this nutrition.
pub open spec fn edible_side(nutrition: int) -> int {
    clamp_side(pixel_len_of(nutrition))
}

/// The edible after losing `amount` of nutrition, never below zero.
pub open spec fn decayed(e: Edible, amount: int) -> Edible {
    let n = if e.nutrition < amount {
        0
    } else {
        e.nutrition - amount
    };
    Edible {
        nutrition: n as i64,
        rect: Rect { w: edible_side(n) as u32, h: edible_side(n) as u32, ..e.rect },
    }
}

impl Edible {
    /// Nutrition is never negative and the rectangle's sides follow it.
    pub open spec fn wf(&self) -> bool {
        &&& self.nutrition >= 0
        &&& self.rect.w == edible_side(self.nutrition as int)
        &&& self.rect.h == edible_side(self.nutrition as int)
    }

    /// An edible at pixel `(x, y)` with the given nutrition.
    pub fn new(x: i32, y: i32, nutrition: i64) -> (r: Edible)
        requires
            nutrition >= 0,
        ensures
            r.wf(),
            r.nutrition == nutrition,
            r.rect.x == x && r.rect.y == y,
    {
        let side = to_pixel_len(nutrition);
        Edible { rect: Rect::new(x, y, side, side), nutrition }
    }

    /// Loses `amount` of nutrition, down to zero at most.
    pub fn deteriorate(&mut self, amount: i64)
        requires
            amount >= 0,
            old(self).wf(),
        ensures
            final(self).wf(),
            *final(self) == decayed(*old(self), amount as int),
    {
        if self.nutrition < amount {
            self.nutrition = 0;
        } else {
            self.nutrition = self.nutrition - amount;
        }
        let side = to_pixel_len(self.nutrition);
        self.rect = Rect::new(self.rect.x, self.rect.y, side, side);
    }

    /// A new edible with a random nutrition in `[nut_min, nut_max)` (micro-pixels)
    /// at a random pixel position where it fits below `(x_max, y_max)`.
    pub fn random(x_max: u32, y_max: u32, nut_min: i64, nut_max: i64) -> (r: Edible)
        requires
            0 <= nut_min < nut_max,
            x_max <= i32::MAX,
            y_max <= i32::MAX,
        ensures
            r.wf(),
            nut_min <= r.nutrition < nut_max,
            0 <= r.rect.x && (r.rect.x == 0 || r.rect.x < x_max - pixel_len_of(r.nutrition as int)),
            0 <= r.rect.y && (r.rect.y == 0 || r.rect.y < y_max - pixel_len_of(r.nutrition as int)),
    {
        let nutrition = random_in(nut_min, nut_max);
        let side = to_pixel_len(nutrition) as i64;
        let x = random_in(0, x_max as i64 - side);
        let y = random_in(0, y_max as i64 - side);
        Edible::new(x as i32, y as i32, nutrition)
    }
}

} // verus!
