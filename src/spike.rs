use vstd::prelude::*;
use crate::geometry::{Rect, UNIT, clamp_side, pixel_of, to_pixel, saturate, scale, along};
use crate::player::sat;
use crate::random::random_in;

verus! {

/// A hazard that slides along one axis at constant speed, bouncing off the walls.
/// Its position is in micro-pixels, its speed in micro-pixels per millisecond and
/// its dimensions in pixels.
#[derive(Clone, Copy, Debug)]
pub struct Spike {
    pub x: i64,
    pub y: i64,
    pub speed: i64,
    pub direction: (i32, i32),
    pub rect: Rect,
    pub dimensions: (u32, u32),
}

/// Fastest a new spike may move: 20 px/s.
pub const MAX_SPIKE_SPEED: i64 = 20_000;

/// One axis of a spike's move: advance by `step`; at or past the far wall it
/// stops there and turns; below zero it stops at zero and turns.
pub open spec fn slide(pos: int, step: int, dim: int, bound: int, dir: int) -> (int, int) {
    let p = sat(pos + step);
    let (far_pos, far_dir) = if p + dim * UNIT >= bound * UNIT {
        (bound * UNIT - dim * UNIT, -dir)
    } else {
        (p, dir)
    };
    if far_pos < 0 {
        (0int, -far_dir)
    } else {
        (far_pos, far_dir)
    }
}

/// The rectangle of a spike at micro-pixel `(x, y)` with pixel dimensions `dim`.
pub open spec fn spike_rect(x: int, y: int, dim: (u32, u32)) -> Rect {
    Rect {
        x: pixel_of(x) as i32,
        y: pixel_of(y) as i32,
        w: clamp_side(dim.0 as int) as u32,
        h: clamp_side(dim.1 as int) as u32,
    }
}

/// The spike after `dt` milliseconds in a play area of `bounds` pixels.
pub open spec fn moved(s: Spike, dt: int, bounds: (u32, u32)) -> Spike {
    let ax = slide(s.x as int, s.direction.0 * (s.speed * dt), s.dimensions.0 as int, bounds.0 as int, s.direction.0 as int);
    let ay = slide(s.y as int, s.direction.1 * (s.speed * dt), s.dimensions.1 as int, bounds.1 as int, s.direction.1 as int);
    Spike {
        x: ax.0 as i64,
        y: ay.0 as i64,
        direction: (ax.1 as i32, ay.1 as i32),
        rect: spike_rect(ax.0, ay.0, s.dimensions),
        ..s
    }
}

impl Spike {
    /// Each direction is -1, 0 or 1 and the rectangle follows position and dimensions.
    pub open spec fn wf(&self) -> bool {
        &&& -1 <= self.direction.0 <= 1
        &&& -1 <= self.direction.1 <= 1
        &&& self.rect == spike_rect(self.x as int, self.y as int, self.dimensions)
    }

    /// A spike at pixel `(x, y)` of `w` by `h` pixels.
    pub fn new(x: i32, y: i32, w: u32, h: u32, direction: (i32, i32), speed: i64) -> (r: Spike)
        requires
            -1 <= direction.0 <= 1,
            -1 <= direction.1 <= 1,
        ensures
            r.wf(),
            r.x == x * UNIT,
            r.y == y * UNIT,
            r.speed == speed,
            r.direction == direction,
            r.dimensions == (w, h),
            r.rect.x == x && r.rect.y == y,
    {
        let px = x as i64 * UNIT;
        let py = y as i64 * UNIT;
        let r = Spike { x: px, y: py, speed, direction, rect: Rect::new(x, y, w, h), dimensions: (w, h) };
        assert(pixel_of(px as int) == x);
        assert(pixel_of(py as int) == y);
        r
    }

    /// Sets the speed.
    pub fn set_speed(&mut self, speed: i64)
        ensures
            final(self).speed == speed,
            final(self).x == old(self).x && final(self).y == old(self).y,
            final(self).direction == old(self).direction,
            final(self).dimensions == old(self).dimensions,
            final(self).rect == old(self).rect,
    {
        self.speed = speed;
    }

    /// A spike on a random edge of a `max_x` by `max_y` pixel area, with random
    /// sides in `[min_size, max_size)` and a random speed below 20 px/s: on the top
    /// edge it moves right, on the right edge down, on the bottom edge left, on
    /// the left edge up.
    pub fn random(max_x: i32, max_y: i32, min_size: u32, max_size: u32) -> (r: Spike)
        requires
            min_size < max_size <= 1_000_000,
            0 <= max_x,
            0 <= max_y,
        ensures
            r.wf(),
            min_size <= r.dimensions.0 < max_size,
            min_size <= r.dimensions.1 < max_size,
            0 <= r.speed < MAX_SPIKE_SPEED,
            r.direction == (1i32, 0i32) && r.y == 0
                || r.direction == (0i32, 1i32) && r.x == (max_x - r.dimensions.0) * UNIT
                || r.direction == (-1i32, 0i32) && r.y == (max_y - r.dimensions.1) * UNIT
                || r.direction == (0i32, -1i32) && r.x == 0,
    {
        let alignment = random_in(0, 4);
        let size_x = random_in(min_size as i64, max_size as i64) as u32;
        let size_y = random_in(min_size as i64, max_size as i64) as u32;
        let room_x = max_x as i64 - size_x as i64;
        let room_y = max_y as i64 - size_y as i64;
        let (x, y, direction): (i64, i64, (i32, i32)) = if alignment == 0 {
            (random_in(0, room_x), 0, (1, 0))
        } else if alignment == 1 {
            (room_x, random_in(0, room_y), (0, 1))
        } else if alignment == 2 {
            (random_in(0, room_x), room_y, (-1, 0))
        } else {
            (0, random_in(0, room_y), (0, -1))
        };
        let speed = random_in(0, MAX_SPIKE_SPEED);
        Spike::new(x as i32, y as i32, size_x, size_y, direction, speed)
    }

    /// Moves for `dt` milliseconds inside a play area of `bounds` pixels.
    pub fn update(&mut self, dt: u32, bounds: (u32, u32))
        requires
            old(self).wf(),
        ensures
            final(self).wf(),
            *final(self) == moved(*old(self), dt as int, bounds),
    {
        let step_x = along(self.direction.0 as i64, scale(self.speed, dt));
        let (x, dx) = slide_axis(self.x, step_x, self.dimensions.0, bounds.0, self.direction.0);
        let step_y = along(self.direction.1 as i64, scale(self.speed, dt));
        let (y, dy) = slide_axis(self.y, step_y, self.dimensions.1, bounds.1, self.direction.1);
        self.x = x;
        self.y = y;
        self.direction = (dx, dy);
        self.update_rect();
    }

    /// Puts the rectangle at the spike's position.
    pub fn update_rect(&mut self)
        ensures
            final(self).rect == (Rect {
                x: pixel_of(old(self).x as int) as i32,
                y: pixel_of(old(self).y as int) as i32,
                ..old(self).rect
            }),
            final(self).x == old(self).x && final(self).y == old(self).y,
            final(self).speed == old(self).speed,
            final(self).direction == old(self).direction,
            final(self).dimensions == old(self).dimensions,
    {
        self.rect.x = to_pixel(self.x);
        self.rect.y = to_pixel(self.y);
    }
}

/// One axis of a spike's move.
fn slide_axis(pos: i64, step: i128, dim: u32, bound: u32, dir: i32) -> (r: (i64, i32))
    requires
        -1 <= dir <= 1,
        -0x8000_0000_0000_0000_0000_0000 <= step <= 0x8000_0000_0000_0000_0000_0000,
    ensures
        r.0 == slide(pos as int, step as int, dim as int, bound as int, dir as int).0,
        r.1 == slide(pos as int, step as int, dim as int, bound as int, dir as int).1,
{
    let mut p = saturate(pos as i128 + step);
    let mut d = dir;
    let far = bound as i64 * UNIT - dim as i64 * UNIT;
    if p as i128 + dim as i128 * UNIT as i128 >= bound as i128 * UNIT as i128 {
        p = far;
        d = -d;
    }
    if p < 0 {
        p = 0;
        d = -d;
    }
    (p, d)
}

} // verus!
