use vstd::prelude::*;
use crate::geometry::{
    Rect,
    UNIT,
    clamp,
    square_rect,
    rect_of_square,
    saturate,
    scale,
    along,
};
use crate::settings::{GameSettings, MAX_RATE};

verus! {

/// A quantity held within the range of `i64`.
pub open spec fn sat(v: int) -> int {
    clamp(v, i64::MIN as int, i64::MAX as int)
}

/// Size at or below which the player is dead: one pixel.
pub const DEATH_SIZE: i64 = 1_000_000;

/// The square the player steers, in micro-pixels; `speed` is in micro-pixels per
/// millisecond and `direction` holds -1, 0 or 1 per axis.
#[derive(Clone, Copy, Debug)]
pub struct Player {
    pub x: i64,
    pub y: i64,
    pub speed: (i64, i64),
    pub direction: (i8, i8),
    pub rect: Rect,
    pub size: i64,
}

/// One axis after a wall check: below zero the position goes to zero and the
/// speed turns; beyond `hi` the position goes to `hi` and the speed turns.
pub open spec fn bounce(pos: int, vel: int, hi: int) -> (int, int) {
    let (low_pos, low_vel) = if pos < 0 {
        (0int, sat(-vel))
    } else {
        (pos, vel)
    };
    if low_pos > hi {
        (hi, sat(-low_vel))
    } else {
        (low_pos, low_vel)
    }
}

/// The player after `dt` milliseconds before any wall check: its speed gains
/// `acceleration_rate` per millisecond along `direction`, it moves at that
/// speed, and it shrinks.
pub open spec fn drifted(p: Player, dt: int, s: GameSettings) -> Player {
    let vx = sat(p.speed.0 + p.direction.0 * (s.acceleration_rate * dt));
    let vy = sat(p.speed.1 + p.direction.1 * (s.acceleration_rate * dt));
    let x = sat(p.x + vx * dt);
    let y = sat(p.y + vy * dt);
    let size = sat(p.size - s.deterioration_rate * dt);
    Player {
        x: x as i64,
        y: y as i64,
        speed: (vx as i64, vy as i64),
        size: size as i64,
        rect: square_rect(x, y, size),
        ..p
    }
}

/// Whether a player of this size is still alive.
pub open spec fn alive(size: int) -> bool {
    size > DEATH_SIZE
}

/// The player after one step of `dt` milliseconds in a window of `window` pixels:
/// accelerate, move and shrink; if still alive, bounce off the walls.
pub open spec fn stepped(p: Player, dt: int, window: (u32, u32), s: GameSettings) -> Player {
    let d = drifted(p, dt, s);
    if !alive(d.size as int) {
        d
    } else {
        let bx = bounce(d.x as int, d.speed.0 as int, window.0 * UNIT - d.size);
        let by = bounce(d.y as int, d.speed.1 as int, window.1 * UNIT - d.size);
        Player {
            x: bx.0 as i64,
            y: by.0 as i64,
            speed: (bx.1 as i64, by.1 as i64),
            rect: square_rect(bx.0, by.0, d.size as int),
            ..d
        }
    }
}

/// A still player of 20 pixels in the top-left corner.
pub open spec fn initial_player() -> Player {
    Player {
        x: 0,
        y: 0,
        speed: (0, 0),
        direction: (0, 0),
        rect: Rect { x: 0, y: 0, w: 20, h: 20 },
        size: (20 * UNIT) as i64,
    }
}

/// The player after a step of each duration in `dts`, in order.
pub open spec fn run(p: Player, dts: Seq<u32>, window: (u32, u32), s: GameSettings) -> Player
    decreases dts.len(),
{
    if dts.len() == 0 {
        p
    } else {
        stepped(run(p, dts.drop_last(), window, s), dts.last() as int, window, s)
    }
}

/// The sum of the durations.
pub open spec fn total(dts: Seq<u32>) -> int
    decreases dts.len(),
{
    if dts.len() == 0 {
        0
    } else {
        total(dts.drop_last()) + dts.last()
    }
}

/// While the player lives, time alone shrinks it: after steps of `dts`
/// milliseconds, each begun alive, its size has gone down by exactly
/// `deterioration_rate` times the total time.
pub proof fn shrinks_with_time(p: Player, dts: Seq<u32>, window: (u32, u32), s: GameSettings)
    requires
        s.wf(),
        forall|k: int| 0 <= k < dts.len() ==> alive(#[trigger] run(p, dts.take(k), window, s).size as int),
        alive(p.size as int),
    ensures
        run(p, dts, window, s).size == p.size - s.deterioration_rate * total(dts),
    decreases dts.len(),
{
    if dts.len() > 0 {
        let init = dts.drop_last();
        assert forall|k: int| 0 <= k < init.len() implies alive(#[trigger] run(p, init.take(k), window, s).size as int) by {
            assert(init.take(k) == dts.take(k));
        }
        shrinks_with_time(p, init, window, s);
        assert(dts.take(init.len() as int) == init);
        let q = run(p, init, window, s);
        assert(alive(q.size as int));
        let dt = dts.last() as int;
        assert(0 <= s.deterioration_rate * dt <= MAX_RATE * 0xffff_ffff) by (nonlinear_arith)
            requires
                0 <= s.deterioration_rate <= MAX_RATE,
                0 <= dt <= 0xffff_ffff,
        ;
        assert(s.deterioration_rate * total(dts) == s.deterioration_rate * total(init) + s.deterioration_rate * dt)
            by (nonlinear_arith)
            requires
                total(dts) == total(init) + dt,
        ;
    }
}

/// A wall check keeps the position within `[0, hi]` when that range is not empty:
/// a position below zero goes to zero and one beyond `hi` goes to `hi`, turning
/// the speed each time; a position within range keeps position and speed.
pub proof fn bounce_stays_in_range(pos: int, vel: int, hi: int)
    requires
        hi >= 0,
        i64::MIN < vel <= i64::MAX,
    ensures
        0 <= bounce(pos, vel, hi).0 <= hi,
        pos < 0 ==> bounce(pos, vel, hi) == (0int, -vel),
        pos > hi ==> bounce(pos, vel, hi) == (hi, -vel),
        0 <= pos <= hi ==> bounce(pos, vel, hi) == (pos, vel),
{
}

/// After a step in which the player lives and fits the window, it lies within
/// the window; on an axis where its drift took it past a wall, it stands at
/// that wall and its speed along the axis has turned.
pub proof fn step_stays_in_window(p: Player, dt: u32, window: (u32, u32), s: GameSettings)
    requires
        p.wf(),
        s.wf(),
        alive(drifted(p, dt as int, s).size as int),
        drifted(p, dt as int, s).size <= window.0 * UNIT,
        drifted(p, dt as int, s).size <= window.1 * UNIT,
    ensures
        ({
            let d = drifted(p, dt as int, s);
            let q = stepped(p, dt as int, window, s);
            let vx = d.speed.0 as int;
            let vy = d.speed.1 as int;
            &&& 0 <= q.x <= window.0 * UNIT - d.size
            &&& 0 <= q.y <= window.1 * UNIT - d.size
            &&& d.x < 0 ==> q.x == 0 && q.speed.0 == sat(-vx)
            &&& d.x > window.0 * UNIT - d.size ==> q.x == window.0 * UNIT - d.size && q.speed.0 == sat(-vx)
            &&& d.y < 0 ==> q.y == 0 && q.speed.1 == sat(-vy)
            &&& d.y > window.1 * UNIT - d.size ==> q.y == window.1 * UNIT - d.size && q.speed.1 == sat(-vy)
            &&& (d.x < 0 || d.x > window.0 * UNIT - d.size) && vx > i64::MIN ==> q.speed.0 == -vx
            &&& (d.y < 0 || d.y > window.1 * UNIT - d.size) && vy > i64::MIN ==> q.speed.1 == -vy
            &&& q.rect == square_rect(q.x as int, q.y as int, d.size as int)
            &&& -0x1000_0000_0000_0000 <= p.speed.0 <= 0x1000_0000_0000_0000 ==> vx == p.speed.0
                + p.direction.0 * (s.acceleration_rate * dt) && vx > i64::MIN
            &&& -0x1000_0000_0000_0000 <= p.speed.1 <= 0x1000_0000_0000_0000 ==> vy == p.speed.1
                + p.direction.1 * (s.acceleration_rate * dt) && vy > i64::MIN
        }),
{
    let g = s.acceleration_rate * dt;
    assert(0 <= g <= MAX_RATE * 0xffff_ffff) by (nonlinear_arith)
        requires
            0 <= s.acceleration_rate <= MAX_RATE,
            0 <= dt <= 0xffff_ffff,
            g == s.acceleration_rate * dt,
    ;
    assert(-g <= p.direction.0 * g <= g) by (nonlinear_arith)
        requires
            -1 <= p.direction.0 <= 1,
            0 <= g,
    ;
    assert(-g <= p.direction.1 * g <= g) by (nonlinear_arith)
        requires
            -1 <= p.direction.1 <= 1,
            0 <= g,
    ;
}

/// One step of a player of non-negative size shrinks it by exactly
/// `deterioration_rate` times the step's length, and it lives on exactly when
/// that size stays above one pixel.
pub proof fn step_shrinks_exactly(p: Player, dt: u32, window: (u32, u32), s: GameSettings)
    requires
        s.wf(),
        p.size >= 0,
    ensures
        stepped(p, dt as int, window, s).size == p.size - s.deterioration_rate * dt,
        alive(drifted(p, dt as int, s).size as int) == (p.size - s.deterioration_rate * dt > DEATH_SIZE),
{
    assert(0 <= s.deterioration_rate * dt <= MAX_RATE * 0xffff_ffff) by (nonlinear_arith)
        requires
            0 <= s.deterioration_rate <= MAX_RATE,
            0 <= dt <= 0xffff_ffff,
    ;
}

impl Player {
    /// The rectangle follows position and size; each direction is -1, 0 or 1.
    pub open spec fn wf(&self) -> bool {
        &&& self.rect == square_rect(self.x as int, self.y as int, self.size as int)
        &&& -1 <= self.direction.0 <= 1
        &&& -1 <= self.direction.1 <= 1
    }

    /// A still player of 20 pixels in the top-left corner.
    pub fn new() -> (r: Player)
        ensures
            r.wf(),
            r == initial_player(),
    {
        let size: i64 = 20 * UNIT;
        Player {
            x: 0,
            y: 0,
            speed: (0, 0),
            direction: (0, 0),
            rect: rect_of_square(0, 0, size),
            size,
        }
    }

    /// Moves the player to `x` horizontally.
    pub fn set_x(&mut self, x: i64)
        ensures
            *final(self) == (Player {
                x,
                rect: square_rect(x as int, old(self).y as int, old(self).size as int),
                ..*old(self)
            }),
    {
        self.x = x;
        self.rect = rect_of_square(x, self.y, self.size);
    }

    /// Moves the player to `y` vertically.
    pub fn set_y(&mut self, y: i64)
        ensures
            *final(self) == (Player {
                y,
                rect: square_rect(old(self).x as int, y as int, old(self).size as int),
                ..*old(self)
            }),
    {
        self.y = y;
        self.rect = rect_of_square(self.x, y, self.size);
    }

    /// Moves the player by `(dx, dy)`, saturating.
    pub fn offset(&mut self, dx: i64, dy: i64)
        ensures
            final(self).x == sat(old(self).x + dx),
            final(self).y == sat(old(self).y + dy),
            *final(self) == (Player {
                x: final(self).x,
                y: final(self).y,
                rect: square_rect(final(self).x as int, final(self).y as int, old(self).size as int),
                ..*old(self)
            }),
    {
        self.x = saturate(self.x as i128 + dx as i128);
        self.y = saturate(self.y as i128 + dy as i128);
        self.rect = rect_of_square(self.x, self.y, self.size);
    }

    /// Grows the player by `d_size` (shrinks it when negative), saturating.
    pub fn resize(&mut self, d_size: i64)
        ensures
            final(self).size == sat(old(self).size + d_size),
            *final(self) == (Player {
                size: final(self).size,
                rect: square_rect(old(self).x as int, old(self).y as int, final(self).size as int),
                ..*old(self)
            }),
    {
        self.size = saturate(self.size as i128 + d_size as i128);
        self.rect = rect_of_square(self.x, self.y, self.size);
    }

    /// One step of `dt` milliseconds; returns whether the player is still alive.
    pub fn process(&mut self, dt: u32, window: (u32, u32), settings: &GameSettings) -> (r: bool)
        requires
            old(self).wf(),
            settings.wf(),
        ensures
            final(self).wf(),
            *final(self) == stepped(*old(self), dt as int, window, *settings),
            r == alive(drifted(*old(self), dt as int, *settings).size as int),
    {
        let ghost before = *self;
        let gain = scale(settings.acceleration_rate, dt);
        let vx = saturate(self.speed.0 as i128 + along(self.direction.0 as i64, gain));
        let vy = saturate(self.speed.1 as i128 + along(self.direction.1 as i64, gain));
        self.speed = (vx, vy);
        self.x = saturate(self.x as i128 + scale(vx, dt));
        self.y = saturate(self.y as i128 + scale(vy, dt));
        self.size = saturate(self.size as i128 - scale(settings.deterioration_rate, dt));
        self.rect = rect_of_square(self.x, self.y, self.size);
        assert(*self == drifted(before, dt as int, *settings));
        if self.size <= DEATH_SIZE {
            return false;
        }
        let (bx, bvx) = bounce_axis(self.x, vx, window.0, self.size);
        let (by, bvy) = bounce_axis(self.y, vy, window.1, self.size);
        self.x = bx;
        self.y = by;
        self.speed = (bvx, bvy);
        self.rect = rect_of_square(bx, by, self.size);
        true
    }
}

/// One axis of the wall check for an entity of side `size` in a window `extent` pixels wide.
pub fn bounce_axis(pos: i64, vel: i64, extent: u32, size: i64) -> (r: (i64, i64))
    requires
        size > 0,
    ensures
        r.0 == bounce(pos as int, vel as int, extent * UNIT - size).0,
        r.1 == bounce(pos as int, vel as int, extent * UNIT - size).1,
{
    let mut p = pos;
    let mut v = vel;
    if p < 0 {
        p = 0;
        v = saturate(0 - v as i128);
    }
    let hi: i64 = extent as i64 * UNIT - size;
    if p > hi {
        p = hi;
        v = saturate(0 - v as i128);
    }
    (p, v)
}

} // verus!
