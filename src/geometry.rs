use vstd::prelude::*;

verus! {

/// Micro-pixels in one pixel.
pub const UNIT: i64 = 1_000_000;

/// The largest side a rectangle may have.
pub const MAX_SIDE: u32 = 0x3fff_ffff;

/// An axis-aligned rectangle on the integer pixel grid; its sides are never zero.
#[derive(Clone, Copy, Debug, PartialEq, Eq, Structural)]
pub struct Rect {
    pub x: i32,
    pub y: i32,
    pub w: u32,
    pub h: u32,
}

/// A side as a rectangle holds it: zero becomes one, and it is capped at `MAX_SIDE`.
pub open spec fn clamp_side(v: int) -> int {
    if v <= 0 {
        1
    } else if v > MAX_SIDE {
        MAX_SIDE as int
    } else {
        v
    }
}

/// Two rectangles overlap when their interiors share a point.
pub open spec fn overlaps(a: Rect, b: Rect) -> bool {
    &&& a.x < b.x + b.w
    &&& b.x < a.x + a.w
    &&& a.y < b.y + b.h
    &&& b.y < a.y + a.h
}

/// `v / d` rounded toward zero, as a float-to-integer cast truncates.
pub open spec fn trunc_div(v: int, d: int) -> int
    recommends
        d > 0,
{
    if v >= 0 {
        v / d
    } else {
        -((-v) / d)
    }
}

/// `v` held within `[lo, hi]`.
pub open spec fn clamp(v: int, lo: int, hi: int) -> int {
    if v < lo {
        lo
    } else if v > hi {
        hi
    } else {
        v
    }
}

/// The whole pixel of a micro-pixel coordinate, truncated and saturated to `i32`.
pub open spec fn pixel_of(v: int) -> int {
    clamp(trunc_div(v, UNIT as int), i32::MIN as int, i32::MAX as int)
}

/// The whole-pixel length of a micro-pixel size, truncated and saturated to `u32`.
pub open spec fn pixel_len_of(v: int) -> int {
    clamp(trunc_div(v, UNIT as int), 0, u32::MAX as int)
}

/// The rectangle of a square entity at `(x, y)` with side `size`, all in micro-pixels.
pub open spec fn square_rect(x: int, y: int, size: int) -> Rect {
    Rect {
        x: pixel_of(x) as i32,
        y: pixel_of(y) as i32,
        w: clamp_side(pixel_len_of(size)) as u32,
        h: clamp_side(pixel_len_of(size)) as u32,
    }
}

impl Rect {
    /// A rectangle with its sides clamped as `clamp_side` says.
    pub fn new(x: i32, y: i32, w: u32, h: u32) -> (r: Rect)
        ensures
            r.x == x,
            r.y == y,
            r.w == clamp_side(w as int),
            r.h == clamp_side(h as int),
    {
        Rect { x, y, w: side(w as i64), h: side(h as i64) }
    }

    /// Whether the two rectangles overlap.
    pub fn intersects(&self, other: &Rect) -> (r: bool)
        ensures
            r == overlaps(*self, *other),
    {
        let ax = self.x as i64;
        let ay = self.y as i64;
        let bx = other.x as i64;
        let by = other.y as i64;
        ax < bx + other.w as i64 && bx < ax + self.w as i64 && ay < by + other.h as i64 && by
            < ay + self.h as i64
    }
}

/// A side held as a rectangle holds it.
pub fn side(v: i64) -> (r: u32)
    ensures
        r == clamp_side(v as int),
{
    if v <= 0 {
        1
    } else if v > MAX_SIDE as i64 {
        MAX_SIDE
    } else {
        v as u32
    }
}

/// `v / UNIT` rounded toward zero: whole pixels in a micro-pixel quantity.
pub fn div_unit(v: i64) -> (r: i64)
    ensures
        r == trunc_div(v as int, UNIT as int),
{
    if v >= 0 {
        v / UNIT
    } else {
        let q: i128 = (0 - (v as i128)) / (UNIT as i128);
        (0 - q) as i64
    }
}

/// The whole pixel of a micro-pixel coordinate.
pub fn to_pixel(v: i64) -> (r: i32)
    ensures
        r == pixel_of(v as int),
{
    let p = div_unit(v);
    if p < i32::MIN as i64 {
        i32::MIN
    } else if p > i32::MAX as i64 {
        i32::MAX
    } else {
        p as i32
    }
}

/// The whole-pixel length of a micro-pixel size.
pub fn to_pixel_len(v: i64) -> (r: u32)
    ensures
        r == pixel_len_of(v as int),
{
    let p = div_unit(v);
    if p < 0 {
        0
    } else if p > u32::MAX as i64 {
        u32::MAX
    } else {
        p as u32
    }
}

/// The rectangle of a square entity.
pub fn rect_of_square(x: i64, y: i64, size: i64) -> (r: Rect)
    ensures
        r == square_rect(x as int, y as int, size as int),
{
    let l = to_pixel_len(size);
    Rect::new(to_pixel(x), to_pixel(y), l, l)
}

/// The exact product of a rate and a duration in milliseconds.
pub fn scale(a: i64, dt: u32) -> (r: i128)
    ensures
        r == a as int * dt as int,
        -0x8000_0000_0000_0000_0000_0000 <= r <= 0x8000_0000_0000_0000_0000_0000,
{
    proof {
        let ai = a as int;
        let ti = dt as int;
        assert(-0x8000_0000_0000_0000 * 0x1_0000_0000 <= ai * ti <= 0x8000_0000_0000_0000
            * 0x1_0000_0000) by (nonlinear_arith)
            requires
                -0x8000_0000_0000_0000 <= ai <= 0x7fff_ffff_ffff_ffff,
                0 <= ti <= 0xffff_ffff,
        ;
    }
    a as i128 * dt as i128
}

/// `gain` signed by a direction of -1, 0 or 1.
pub fn along(dir: i64, gain: i128) -> (r: i128)
    requires
        -1 <= dir <= 1,
        -0x8000_0000_0000_0000_0000_0000 <= gain <= 0x8000_0000_0000_0000_0000_0000,
    ensures
        r == dir * gain,
        -0x8000_0000_0000_0000_0000_0000 <= r <= 0x8000_0000_0000_0000_0000_0000,
{
    if dir < 0 {
        assert(dir == -1);
        assert(dir * gain == -gain);
        0 - gain
    } else if dir > 0 {
        assert(dir == 1);
        assert(dir * gain == gain);
        gain
    } else {
        assert(dir * gain == 0);
        0
    }
}

/// `v` held within the range of `i64`.
pub fn saturate(v: i128) -> (r: i64)
    ensures
        r == clamp(v as int, i64::MIN as int, i64::MAX as int),
{
    if v < i64::MIN as i128 {
        i64::MIN
    } else if v > i64::MAX as i128 {
        i64::MAX
    } else {
        v as i64
    }
}

} // verus!
