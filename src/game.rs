use vstd::prelude::*;
use crate::bindings::KeyBindings;
use crate::data::EngineData;
use crate::edible::{Edible, decayed};
use crate::geometry::{Rect, UNIT, overlaps, pixel_len_of, square_rect, rect_of_square, saturate, scale};
use crate::msg::{Msg, MenuMsg, GameCommand, Movement, Key, KEY_ESCAPE, KEY_P, KEY_PAUSE};
use crate::player::{Player, initial_player, sat, stepped, drifted, alive, total};
use crate::settings::{GameSettings, MAX_RATE};
use crate::spike::{Spike, moved, MAX_SPIKE_SPEED};

verus! {

/// Size from which a spike takes a flat 20 pixels; below it, half the size.
pub const SPIKE_FLAT_SIZE: i64 = 40_000_000;

/// What a spike takes: 20 pixels, or half of a player smaller than 40 pixels.
pub const SPIKE_PENALTY: i64 = 20_000_000;

/// Margin kept between a new edible and the right and bottom edges, in pixels.
pub const EDIBLE_MARGIN: u32 = 25;

/// Whether an edible survives a pass: it still has nutrition and is not eaten.
pub open spec fn edible_stays(r: Rect) -> spec_fn(Edible) -> bool {
    |e: Edible| e.nutrition > 0 && !overlaps(e.rect, r)
}

/// Whether an edible is eaten by a player at `r`.
pub open spec fn eaten(e: Edible, r: Rect) -> bool {
    e.nutrition > 0 && overlaps(e.rect, r)
}

/// Every edible after losing `amount` of nutrition.
pub open spec fn decayed_all(s: Seq<Edible>, amount: int) -> Seq<Edible> {
    s.map_values(|e: Edible| decayed(e, amount))
}

/// The edibles that survive a pass, in their order.
pub open spec fn kept_edibles(s: Seq<Edible>, r: Rect) -> Seq<Edible>
    decreases s.len(),
{
    if s.len() == 0 {
        s
    } else {
        let rest = kept_edibles(s.drop_last(), r);
        if edible_stays(r)(s.last()) {
            rest.push(s.last())
        } else {
            rest
        }
    }
}

/// Whether an edible has run out of nutrition.
pub open spec fn spoiled() -> spec_fn(Edible) -> bool {
    |e: Edible| e.nutrition <= 0
}

/// Whether an edible is eaten by a player at `r`, as a predicate.
pub open spec fn eaten_at(r: Rect) -> spec_fn(Edible) -> bool {
    |e: Edible| eaten(e, r)
}

/// An edible pass removes exactly the spoiled edibles and those the player eats,
/// two disjoint groups, and keeps the others in their order.
pub proof fn edible_pass_removes_exactly(s: Seq<Edible>, r: Rect)
    ensures
        kept_edibles(s, r) == s.filter(edible_stays(r)),
        kept_edibles(s, r).len() + s.filter(spoiled()).len() + s.filter(eaten_at(r)).len() == s.len(),
        forall|e: Edible| !(#[trigger] spoiled()(e) && eaten_at(r)(e)),
    decreases s.len(),
{
    reveal(Seq::filter);
    if s.len() > 0 {
        edible_pass_removes_exactly(s.drop_last(), r);
    }
}

/// The player's size after eating, in order, every edible that overlaps `r`.
pub open spec fn fed(size: int, s: Seq<Edible>, r: Rect) -> int
    decreases s.len(),
{
    if s.len() == 0 {
        size
    } else {
        let before = fed(size, s.drop_last(), r);
        if eaten(s.last(), r) {
            sat(before + s.last().nutrition)
        } else {
            before
        }
    }
}

/// The size after one spike hit.
pub open spec fn hit(size: int) -> int {
    if size >= SPIKE_FLAT_SIZE {
        size - SPIKE_PENALTY
    } else {
        size - size / 2
    }
}

/// The spikes that do not touch a player at `r`, in their order.
pub open spec fn kept_spikes(s: Seq<Spike>, r: Rect) -> Seq<Spike>
    decreases s.len(),
{
    if s.len() == 0 {
        s
    } else {
        let rest = kept_spikes(s.drop_last(), r);
        if !overlaps(s.last().rect, r) {
            rest.push(s.last())
        } else {
            rest
        }
    }
}

/// The player's size after every spike that touches `r` has hit it, in order.
pub open spec fn penalized(size: int, s: Seq<Spike>, r: Rect) -> int
    decreases s.len(),
{
    if s.len() == 0 {
        size
    } else {
        let before = penalized(size, s.drop_last(), r);
        if overlaps(s.last().rect, r) {
            hit(before)
        } else {
            before
        }
    }
}

/// Every spike after moving for `dt` milliseconds.
pub open spec fn moved_all(s: Seq<Spike>, dt: int, bounds: (u32, u32)) -> Seq<Spike> {
    s.map_values(|sp: Spike| moved(sp, dt, bounds))
}

/// A spawn countdown after `dt` milliseconds: reset to `interval` when it runs out.
pub open spec fn eta_after(eta: int, dt: int, interval: int) -> int {
    if eta - dt <= 0 {
        interval
    } else {
        eta - dt
    }
}

/// Whether a spawn countdown runs out within `dt` milliseconds.
pub open spec fn spawns(eta: int, dt: int) -> bool {
    eta - dt <= 0
}

/// Whether a player of this size has won in a window `height` pixels high.
pub open spec fn won(size: int, height: int) -> bool {
    2 * size >= height * UNIT
}

/// The direction held after a command; commands other than movement keep it.
pub open spec fn commanded_direction(d: (i8, i8), c: GameCommand) -> (i8, i8) {
    match c {
        GameCommand::StartMovement(Movement::Up) => (d.0, -1i8),
        GameCommand::StartMovement(Movement::Down) => (d.0, 1),
        GameCommand::StartMovement(Movement::Left) => (-1i8, d.1),
        GameCommand::StartMovement(Movement::Right) => (1, d.1),
        GameCommand::StopMovement(Movement::Up) | GameCommand::StopMovement(Movement::Down) => (d.0, 0),
        GameCommand::StopMovement(Movement::Left) | GameCommand::StopMovement(Movement::Right) => (0, d.1),
        _ => d,
    }
}

/// Whether the game runs after a command: pausing and the menu stop it,
/// resuming starts it, movement leaves it.
pub open spec fn commanded_running(running: bool, c: GameCommand) -> bool {
    match c {
        GameCommand::Pause | GameCommand::Menu => false,
        GameCommand::Resume => true,
        _ => running,
    }
}

/// The command a key press gives: the bound movement, else escape for the menu,
/// else "p" or pause to toggle pausing.
pub open spec fn pressed_command(bound: Option<Movement>, k: Key, running: bool) -> Option<GameCommand> {
    match bound {
        Some(m) => Some(GameCommand::StartMovement(m)),
        None => if k.0 == KEY_ESCAPE {
            Some(GameCommand::Menu)
        } else if k.0 == KEY_P || k.0 == KEY_PAUSE {
            Some(if running { GameCommand::Pause } else { GameCommand::Resume })
        } else {
            None
        },
    }
}

/// One tick of a running game, from `g0` to `g1` with result `r`, where
/// `fresh_edible` and `fresh_spike` spawn if their countdown runs out. The
/// player moves and shrinks; if it dies the game stops and `ShowGameOver` comes
/// back. Otherwise the countdowns advance, edibles decay and are eaten, spikes
/// move and hit, and `ShowWinScreen` comes back if the player reaches half the
/// window's height, else `Tick(dt)`.
pub open spec fn ticked(g0: GameState, dt: u32, window: (u32, u32), fresh_edible: Edible, fresh_spike: Spike, g1: GameState, r: Msg) -> bool {
    let s = g0.settings;
    let p = stepped(g0.player, dt as int, window, s);
    let e_pool = if spawns(g0.edible_eta as int, dt as int) {
        g0.edibles@.push(fresh_edible)
    } else {
        g0.edibles@
    };
    let s_pool = if spawns(g0.spike_eta as int, dt as int) {
        g0.spikes@.push(fresh_spike)
    } else {
        g0.spikes@
    };
    let es = decayed_all(e_pool, sat(s.edible_deterioration_rate * dt));
    let ss = moved_all(s_pool, dt as int, window);
    let size = penalized(fed(p.size as int, es, p.rect), ss, p.rect);
    &&& g1.settings == g0.settings
    &&& if !alive(drifted(g0.player, dt as int, s).size as int) {
        &&& r == Msg::ShowGameOver
        &&& !g1.running
        &&& g1.player == p
        &&& g1.edibles@ == g0.edibles@
        &&& g1.spikes@ == g0.spikes@
        &&& g1.edible_eta == g0.edible_eta
        &&& g1.spike_eta == g0.spike_eta
    } else {
        &&& g1.running == g0.running
        &&& g1.edible_eta == eta_after(g0.edible_eta as int, dt as int, s.edibles_spawn_rate as int)
        &&& g1.spike_eta == eta_after(g0.spike_eta as int, dt as int, s.spikes_spawn_rate as int)
        &&& g1.edibles@ == kept_edibles(es, p.rect)
        &&& g1.spikes@ == kept_spikes(ss, p.rect)
        &&& g1.player == (Player {
            size: size as i64,
            rect: square_rect(p.x as int, p.y as int, size),
            ..p
        })
        &&& r == if won(size, window.1 as int) {
            Msg::ShowWinScreen
        } else {
            Msg::Tick(dt)
        }
    }
}

/// One tick of a running game, from `g0` to `g1` with result `r`, whatever
/// edible and spike spawned.
pub open spec fn ticked_somehow(g0: GameState, dt: u32, window: (u32, u32), g1: GameState, r: Msg) -> bool {
    exists|fe: Edible, fs: Spike|
        fe.wf() && fs.wf()
            && (spawns(g0.edible_eta as int, dt as int) ==> fresh_edible_ok(fe, g0.settings, window))
            && (spawns(g0.spike_eta as int, dt as int) ==> fresh_spike_ok(fs, g0.settings, window))
            && #[trigger] ticked(g0, dt, window, fe, fs, g1, r)
}

/// Where a new edible may start along an edge `extent` pixels long: the margin
/// taken off, within the range of `i32`.
pub open spec fn spawn_room(extent: u32) -> int {
    if extent <= EDIBLE_MARGIN {
        0
    } else if extent - EDIBLE_MARGIN > i32::MAX {
        i32::MAX as int
    } else {
        extent - EDIBLE_MARGIN
    }
}

/// A window extent within the range of `i32`.
pub open spec fn room_i32(extent: u32) -> int {
    if extent > i32::MAX {
        i32::MAX as int
    } else {
        extent as int
    }
}

/// What a spawned edible is: nutrition within the settings' bounds, and a place
/// where it fits inside the window less the margin.
pub open spec fn fresh_edible_ok(e: Edible, s: GameSettings, window: (u32, u32)) -> bool {
    &&& s.edible_bounds.0 * UNIT <= e.nutrition < s.edible_bounds.1 * UNIT
    &&& 0 <= e.rect.x && (e.rect.x == 0 || e.rect.x < spawn_room(window.0) - pixel_len_of(e.nutrition as int))
    &&& 0 <= e.rect.y && (e.rect.y == 0 || e.rect.y < spawn_room(window.1) - pixel_len_of(e.nutrition as int))
}

/// What a spawned spike is: sides within the settings' bounds, a speed below
/// 20 px/s, and a place on an edge of the window, moving along it.
pub open spec fn fresh_spike_ok(sp: Spike, s: GameSettings, window: (u32, u32)) -> bool {
    let max_x = room_i32(window.0);
    let max_y = room_i32(window.1);
    &&& s.spikes_bounds.0 <= sp.dimensions.0 < s.spikes_bounds.1
    &&& s.spikes_bounds.0 <= sp.dimensions.1 < s.spikes_bounds.1
    &&& 0 <= sp.speed < MAX_SPIKE_SPEED
    &&& sp.direction == (1i32, 0i32) && sp.y == 0
        || sp.direction == (0i32, 1i32) && sp.x == (max_x - sp.dimensions.0) * UNIT
        || sp.direction == (-1i32, 0i32) && sp.y == (max_y - sp.dimensions.1) * UNIT
        || sp.direction == (0i32, -1i32) && sp.x == 0
}

/// How the game handles one message in a window of `window` pixels, from `g0`
/// to `g1` with result `r`. A tick advances a running game (as `ticked` says,
/// for whatever spawned) and lets a stopped one pass unchanged. Resuming from
/// the menu restarts the game and passes on; commands and keys act as
/// `process_game_command`, `process_button_press` and `process_button_release`
/// say; `NoOp` is swallowed and anything else passes unchanged.
pub open spec fn game_handled(g0: GameState, window: (u32, u32), bindings: KeyBindings, msg: Msg, g1: GameState, r: Option<Msg>) -> bool {
    &&& g1.settings == g0.settings
    &&& !(msg is Tick) ==> {
        &&& g1.player == (Player { direction: g1.player.direction, ..g0.player })
        &&& g1.edibles@ == g0.edibles@
        &&& g1.spikes@ == g0.spikes@
        &&& g1.edible_eta == g0.edible_eta
        &&& g1.spike_eta == g0.spike_eta
    }
    &&& match msg {
        Msg::Tick(dt) => if g0.running {
            r is Some && ticked_somehow(g0, dt, window, g1, r->Some_0)
        } else {
            &&& r == Some(Msg::Tick(dt))
            &&& g1.player == g0.player
            &&& g1.edibles@ == g0.edibles@
            &&& g1.spikes@ == g0.spikes@
            &&& g1.edible_eta == g0.edible_eta
            &&& g1.spike_eta == g0.spike_eta
            &&& !g1.running
        },
        Msg::MenuCommand(MenuMsg::ResumeGame) => {
            &&& r == Some(msg)
            &&& g1.running
            &&& g1.player == g0.player
        },
        Msg::Command(c) => {
            &&& g1.player.direction == commanded_direction(g0.player.direction, c)
            &&& g1.running == commanded_running(g0.running, c)
            &&& r == match c {
                GameCommand::Menu => Some(Msg::MenuCommand(MenuMsg::ShowGameMenu)),
                _ => None,
            }
        },
        Msg::ButtonPressed(k) => match pressed_command(bindings.movement_of(k), k, g0.running) {
            Some(GameCommand::Menu) => r == Some(Msg::MenuCommand(MenuMsg::ShowGameMenu)) && !g1.running,
            Some(c) => r is None && g1.player.direction == commanded_direction(g0.player.direction, c)
                && g1.running == commanded_running(g0.running, c),
            None => r is None && g1.player == g0.player && g1.running == g0.running,
        },
        Msg::ButtonReleased(k) => r is None && g1.running == g0.running
            && g1.player.direction == match bindings.movement_of(k) {
            Some(m) => commanded_direction(g0.player.direction, GameCommand::StopMovement(m)),
            None => g0.player.direction,
        },
        Msg::NoOp => r is None && g1.player == g0.player && g1.running == g0.running,
        _ => r == Some(msg) && g1.player == g0.player && g1.running == g0.running
    }
}

/// Game over comes once: a tick that ends the game stops it, and every later
/// tick leaves the player as it is and passes as a plain tick.
pub proof fn game_over_is_final(
    g0: GameState,
    dt: u32,
    window: (u32, u32),
    fresh_edible: Edible,
    fresh_spike: Spike,
    g1: GameState,
    later: u32,
    bindings: KeyBindings,
    g2: GameState,
    r2: Option<Msg>,
)
    requires
        ticked(g0, dt, window, fresh_edible, fresh_spike, g1, Msg::ShowGameOver),
        game_handled(g1, window, bindings, Msg::Tick(later), g2, r2),
    ensures
        !g1.running,
        !g2.running,
        r2 == Some(Msg::Tick(later)),
        g2.player == g1.player,
{
}

/// The edibles a tick works on: those of `g0`, and `fresh_edible` if its countdown runs out.
pub open spec fn edible_pool(g0: GameState, dt: u32, fresh_edible: Edible) -> Seq<Edible> {
    if spawns(g0.edible_eta as int, dt as int) {
        g0.edibles@.push(fresh_edible)
    } else {
        g0.edibles@
    }
}

/// The spikes a tick works on: those of `g0`, and `fresh_spike` if its countdown runs out.
pub open spec fn spike_pool(g0: GameState, dt: u32, fresh_spike: Spike) -> Seq<Spike> {
    if spawns(g0.spike_eta as int, dt as int) {
        g0.spikes@.push(fresh_spike)
    } else {
        g0.spikes@
    }
}

/// In this tick no edible is eaten and no spike touches the player.
pub open spec fn untouched(g0: GameState, dt: u32, window: (u32, u32), fresh_edible: Edible, fresh_spike: Spike) -> bool {
    let s = g0.settings;
    let p = stepped(g0.player, dt as int, window, s);
    let es = decayed_all(edible_pool(g0, dt, fresh_edible), sat(s.edible_deterioration_rate * dt));
    let ss = moved_all(spike_pool(g0, dt, fresh_spike), dt as int, window);
    &&& forall|i: int| 0 <= i < es.len() ==> !eaten(#[trigger] es[i], p.rect)
    &&& forall|i: int| 0 <= i < ss.len() ==> !overlaps(#[trigger] ss[i].rect, p.rect)
}

/// Eating nothing leaves the size as it is.
pub proof fn fed_nothing(size: int, s: Seq<Edible>, r: Rect)
    requires
        forall|i: int| 0 <= i < s.len() ==> !eaten(#[trigger] s[i], r),
    ensures
        fed(size, s, r) == size,
    decreases s.len(),
{
    if s.len() > 0 {
        assert forall|i: int| 0 <= i < s.drop_last().len() implies !eaten(#[trigger] s.drop_last()[i], r) by {
            assert(s.drop_last()[i] == s[i]);
        }
        fed_nothing(size, s.drop_last(), r);
        assert(!eaten(s[s.len() - 1], r));
    }
}

/// No spike hitting leaves the size as it is.
pub proof fn hit_by_nothing(size: int, s: Seq<Spike>, r: Rect)
    requires
        forall|i: int| 0 <= i < s.len() ==> !overlaps(#[trigger] s[i].rect, r),
    ensures
        penalized(size, s, r) == size,
    decreases s.len(),
{
    if s.len() > 0 {
        assert forall|i: int| 0 <= i < s.drop_last().len() implies !overlaps(#[trigger] s.drop_last()[i].rect, r) by {
            assert(s.drop_last()[i] == s[i]);
        }
        hit_by_nothing(size, s.drop_last(), r);
        assert(!overlaps(s[s.len() - 1].rect, r));
    }
}

/// A tick in which nothing is eaten and nothing hits, and which comes back as a
/// plain tick, shrinks the player by exactly `deterioration_rate` times its length.
pub proof fn quiet_tick_shrinks(g0: GameState, dt: u32, window: (u32, u32), fresh_edible: Edible, fresh_spike: Spike, g1: GameState)
    requires
        g0.settings.wf(),
        g0.player.size >= 0,
        ticked(g0, dt, window, fresh_edible, fresh_spike, g1, Msg::Tick(dt)),
        untouched(g0, dt, window, fresh_edible, fresh_spike),
    ensures
        g1.player.size == g0.player.size - g0.settings.deterioration_rate * dt,
        g1.settings == g0.settings,
        alive(g1.player.size as int),
{
    let s = g0.settings;
    let p = stepped(g0.player, dt as int, window, s);
    let es = decayed_all(edible_pool(g0, dt, fresh_edible), sat(s.edible_deterioration_rate * dt));
    let ss = moved_all(spike_pool(g0, dt, fresh_spike), dt as int, window);
    assert(0 <= s.deterioration_rate * dt <= MAX_RATE * 0xffff_ffff) by (nonlinear_arith)
        requires
            0 <= s.deterioration_rate <= MAX_RATE,
            0 <= dt <= 0xffff_ffff,
    ;
    fed_nothing(p.size as int, es, p.rect);
    hit_by_nothing(p.size as int, ss, p.rect);
}

/// While nothing is eaten and nothing hits, ticks shrink the player at exactly
/// `deterioration_rate`: after ticks of `dts` milliseconds, each coming back as a
/// plain tick, its size has gone down by the rate times their total, one tick at
/// a time.
pub proof fn quiet_ticks_shrink(
    gs: Seq<GameState>,
    dts: Seq<u32>,
    window: (u32, u32),
    fes: Seq<Edible>,
    fss: Seq<Spike>,
)
    requires
        gs.len() == dts.len() + 1,
        fes.len() == dts.len(),
        fss.len() == dts.len(),
        gs[0].settings.wf(),
        gs[0].player.size >= 0,
        forall|i: int|
            0 <= i < dts.len() ==> #[trigger] ticked(gs[i], dts[i], window, fes[i], fss[i], gs[i + 1], Msg::Tick(dts[i]))
                && untouched(gs[i], dts[i], window, fes[i], fss[i]),
    ensures
        forall|i: int| 0 <= i < dts.len() ==> #[trigger] gs[i + 1].player.size == gs[i].player.size
            - gs[0].settings.deterioration_rate * dts[i],
        gs.last().player.size == gs[0].player.size - gs[0].settings.deterioration_rate * total(dts),
        gs.last().settings == gs[0].settings,
        gs.last().player.size >= 0,
    decreases dts.len(),
{
    if dts.len() > 0 {
        let k = dts.len() - 1;
        let init = gs.drop_last();
        assert forall|i: int| 0 <= i < dts.drop_last().len() implies #[trigger] ticked(init[i], dts.drop_last()[i], window, fes.drop_last()[i], fss.drop_last()[i], init[i + 1], Msg::Tick(dts.drop_last()[i]))
            && untouched(init[i], dts.drop_last()[i], window, fes.drop_last()[i], fss.drop_last()[i]) by {
            assert(ticked(gs[i], dts[i], window, fes[i], fss[i], gs[i + 1], Msg::Tick(dts[i])));
        }
        quiet_ticks_shrink(init, dts.drop_last(), window, fes.drop_last(), fss.drop_last());
        assert(init.last() == gs[k]);
        assert(ticked(gs[k], dts[k], window, fes[k], fss[k], gs[k + 1], Msg::Tick(dts[k])));
        let rate = gs[0].settings.deterioration_rate;
        quiet_tick_shrinks(gs[k], dts[k], window, fes[k], fss[k], gs[k + 1]);
        assert(rate * total(dts) == rate * total(dts.drop_last()) + rate * dts[k]) by (nonlinear_arith)
            requires
                total(dts) == total(dts.drop_last()) + dts[k],
        ;
        assert forall|i: int| 0 <= i < dts.len() implies #[trigger] gs[i + 1].player.size == gs[i].player.size
            - rate * dts[i] by {
            if i < k {
                assert(gs[i + 1].player.size == init[i + 1].player.size);
                assert(dts[i] == dts.drop_last()[i]);
            }
        }
    }
}

/// A tick that the player survives spawns exactly one edible when the countdown
/// runs out and none otherwise, and likewise one spike; every edible of the pool
/// is then kept, spoiled or eaten, and every spike kept or spent on the player.
pub proof fn tick_spawns_once(g0: GameState, dt: u32, window: (u32, u32), fresh_edible: Edible, fresh_spike: Spike, g1: GameState, r: Msg)
    requires
        ticked(g0, dt, window, fresh_edible, fresh_spike, g1, r),
        r != Msg::ShowGameOver,
    ensures
        ({
            let s = g0.settings;
            let p = stepped(g0.player, dt as int, window, s);
            let es = decayed_all(edible_pool(g0, dt, fresh_edible), sat(s.edible_deterioration_rate * dt));
            let ss = moved_all(spike_pool(g0, dt, fresh_spike), dt as int, window);
            &&& edible_pool(g0, dt, fresh_edible).len() == g0.edibles@.len() + if spawns(g0.edible_eta as int, dt as int) { 1int } else { 0 }
            &&& spike_pool(g0, dt, fresh_spike).len() == g0.spikes@.len() + if spawns(g0.spike_eta as int, dt as int) { 1int } else { 0 }
            &&& g1.edible_eta == if spawns(g0.edible_eta as int, dt as int) { s.edibles_spawn_rate as int } else { g0.edible_eta - dt }
            &&& g1.spike_eta == if spawns(g0.spike_eta as int, dt as int) { s.spikes_spawn_rate as int } else { g0.spike_eta - dt }
            &&& g1.edibles@.len() + es.filter(spoiled()).len() + es.filter(eaten_at(p.rect)).len() == edible_pool(g0, dt, fresh_edible).len()
            &&& g1.spikes@.len() + ss.filter(touching(p.rect)).len() == spike_pool(g0, dt, fresh_spike).len()
        }),
{
    let s = g0.settings;
    let p = stepped(g0.player, dt as int, window, s);
    let es = decayed_all(edible_pool(g0, dt, fresh_edible), sat(s.edible_deterioration_rate * dt));
    let ss = moved_all(spike_pool(g0, dt, fresh_spike), dt as int, window);
    edible_pass_removes_exactly(es, p.rect);
    spike_pass_removes_exactly(ss, p.rect);
}

/// Whether a spike touches a player at `r`.
pub open spec fn touching(r: Rect) -> spec_fn(Spike) -> bool {
    |sp: Spike| overlaps(sp.rect, r)
}

/// A spike pass removes exactly the spikes that touch the player and keeps the
/// others in their order.
pub proof fn spike_pass_removes_exactly(s: Seq<Spike>, r: Rect)
    ensures
        kept_spikes(s, r) == s.filter(|sp: Spike| !touching(r)(sp)),
        kept_spikes(s, r).len() + s.filter(touching(r)).len() == s.len(),
    decreases s.len(),
{
    reveal(Seq::filter);
    if s.len() > 0 {
        spike_pass_removes_exactly(s.drop_last(), r);
    }
}

/// The gameplay screen.
pub struct GameState {
    pub running: bool,
    pub player: Player,
    pub edible_eta: i64,
    pub edibles: Vec<Edible>,
    pub settings: GameSettings,
    pub spike_eta: i64,
    pub spikes: Vec<Spike>,
}

impl GameState {
    /// Player, settings and entities are well formed; countdowns lie within their interval.
    pub open spec fn wf(&self) -> bool {
        &&& self.player.wf()
        &&& self.settings.wf()
        &&& 0 < self.edible_eta <= self.settings.edibles_spawn_rate
        &&& 0 < self.spike_eta <= self.settings.spikes_spawn_rate
        &&& forall|i: int| 0 <= i < self.edibles.len() ==> (#[trigger] self.edibles@[i]).wf()
        &&& forall|i: int| 0 <= i < self.spikes.len() ==> (#[trigger] self.spikes@[i]).wf()
    }

    /// A running game with the default settings, a new player and nothing spawned.
    pub fn new() -> (r: GameState)
        ensures
            r.wf(),
            r.running,
            r.player == initial_player(),
            r.edibles@.len() == 0,
            r.spikes@.len() == 0,
            r.edible_eta == r.settings.edibles_spawn_rate,
            r.spike_eta == r.settings.spikes_spawn_rate,
            r.settings.deterioration_rate == 750,
            r.settings.acceleration_rate == 100,
            r.settings.edible_deterioration_rate == 2000,
            r.settings.edibles_spawn_rate == 3000,
            r.settings.spikes_spawn_rate == 10_000,
            r.settings.edible_bounds == (15u8, 25u8),
            r.settings.spikes_bounds == (15u32, 55u32),
    {
        let settings = GameSettings::new();
        GameState {
            running: true,
            player: Player::new(),
            edible_eta: settings.edibles_spawn_rate,
            edibles: Vec::new(),
            spike_eta: settings.spikes_spawn_rate,
            settings,
            spikes: Vec::new(),
        }
    }

    /// One tick of `dt` milliseconds of a running game in a window of `window`
    /// pixels, as `ticked` says; `fresh_edible` and `fresh_spike` are what spawns
    /// if a countdown runs out.
    pub fn advance(&mut self, dt: u32, window: (u32, u32), fresh_edible: Edible, fresh_spike: Spike) -> (r: Msg)
        requires
            old(self).wf(),
            fresh_edible.wf(),
            fresh_spike.wf(),
        ensures
            final(self).wf(),
            final(self).settings == old(self).settings,
            ticked(*old(self), dt, window, fresh_edible, fresh_spike, *final(self), r),
    {
        let alive = self.player.process(dt, window, &self.settings);
        if !alive {
            self.running = false;
            return Msg::ShowGameOver;
        }
        let e_eta = self.edible_eta - dt as i64;
        if e_eta <= 0 {
            self.edibles.push(fresh_edible);
            self.edible_eta = self.settings.edibles_spawn_rate;
        } else {
            self.edible_eta = e_eta;
        }
        let s_eta = self.spike_eta - dt as i64;
        if s_eta <= 0 {
            self.spikes.push(fresh_spike);
            self.spike_eta = self.settings.spikes_spawn_rate;
        } else {
            self.spike_eta = s_eta;
        }
        let r = self.player.rect;
        let amount = saturate(scale(self.settings.edible_deterioration_rate, dt));
        let (edibles, grown) = eat_edibles(&self.edibles, amount, r, self.player.size);
        let (spikes, size) = hit_spikes(&self.spikes, dt, window, r, grown);
        self.edibles = edibles;
        self.spikes = spikes;
        self.player.size = size;
        self.player.rect = rect_of_square(self.player.x, self.player.y, size);
        if size as i128 * 2 >= window.1 as i128 * UNIT as i128 {
            Msg::ShowWinScreen
        } else {
            Msg::Tick(dt)
        }
    }

    /// Adds an edible of random nutrition (within the settings' bounds) at a
    /// random place below `(max_x, max_y)`.
    pub fn spawn_edible(&mut self, max_x: u32, max_y: u32)
        requires
            old(self).wf(),
            max_x <= i32::MAX,
            max_y <= i32::MAX,
        ensures
            final(self).wf(),
            final(self).edibles@.len() == old(self).edibles@.len() + 1,
            final(self).edibles@.drop_last() == old(self).edibles@,
            old(self).settings.edible_bounds.0 * UNIT <= final(self).edibles@.last().nutrition
                < old(self).settings.edible_bounds.1 * UNIT,
            0 <= final(self).edibles@.last().rect.x,
            final(self).edibles@.last().rect.x == 0 || final(self).edibles@.last().rect.x < max_x
                - pixel_len_of(final(self).edibles@.last().nutrition as int),
            0 <= final(self).edibles@.last().rect.y,
            final(self).edibles@.last().rect.y == 0 || final(self).edibles@.last().rect.y < max_y
                - pixel_len_of(final(self).edibles@.last().nutrition as int),
            final(self).player == old(self).player,
            final(self).spikes@ == old(self).spikes@,
            final(self).running == old(self).running,
            final(self).settings == old(self).settings,
            final(self).edible_eta == old(self).edible_eta,
            final(self).spike_eta == old(self).spike_eta,
    {
        let e = Edible::random(
            max_x,
            max_y,
            self.settings.edible_bounds.0 as i64 * UNIT,
            self.settings.edible_bounds.1 as i64 * UNIT,
        );
        self.edibles.push(e);
        assert(self.edibles@.drop_last() == old(self).edibles@);
    }

    /// Adds a spike on a random edge of a `max_x` by `max_y` area with sides in
    /// `[min_size, max_size)`.
    pub fn spawn_spike(&mut self, max_x: i32, max_y: i32, min_size: u32, max_size: u32)
        requires
            old(self).wf(),
            min_size < max_size <= 1_000_000,
            0 <= max_x,
            0 <= max_y,
        ensures
            final(self).wf(),
            final(self).spikes@.len() == old(self).spikes@.len() + 1,
            final(self).spikes@.drop_last() == old(self).spikes@,
            min_size <= final(self).spikes@.last().dimensions.0 < max_size,
            min_size <= final(self).spikes@.last().dimensions.1 < max_size,
            0 <= final(self).spikes@.last().speed < MAX_SPIKE_SPEED,
            ({
                let sp = final(self).spikes@.last();
                sp.direction == (1i32, 0i32) && sp.y == 0
                    || sp.direction == (0i32, 1i32) && sp.x == (max_x - sp.dimensions.0) * UNIT
                    || sp.direction == (-1i32, 0i32) && sp.y == (max_y - sp.dimensions.1) * UNIT
                    || sp.direction == (0i32, -1i32) && sp.x == 0
            }),
            final(self).player == old(self).player,
            final(self).edibles@ == old(self).edibles@,
            final(self).running == old(self).running,
            final(self).settings == old(self).settings,
            final(self).edible_eta == old(self).edible_eta,
            final(self).spike_eta == old(self).spike_eta,
    {
        let sp = Spike::random(max_x, max_y, min_size, max_size);
        self.spikes.push(sp);
        assert(self.spikes@.drop_last() == old(self).spikes@);
    }

    /// Applies a command: start or stop moving along an axis, pause, resume, or
    /// pause and ask for the in-game menu.
    pub fn process_game_command(&mut self, c: GameCommand) -> (r: Option<Msg>)
        requires
            old(self).wf(),
        ensures
            final(self).wf(),
            final(self).settings == old(self).settings,
            final(self).edibles@ == old(self).edibles@,
            final(self).spikes@ == old(self).spikes@,
            final(self).edible_eta == old(self).edible_eta,
            final(self).spike_eta == old(self).spike_eta,
            final(self).player == (Player { direction: final(self).player.direction, ..old(self).player }),
            final(self).player.direction == commanded_direction(old(self).player.direction, c),
            final(self).running == match c {
                GameCommand::Pause | GameCommand::Menu => false,
                GameCommand::Resume => true,
                _ => old(self).running,
            },
            r == match c {
                GameCommand::Menu => Some(Msg::MenuCommand(MenuMsg::ShowGameMenu)),
                _ => None,
            },
    {
        match c {
            GameCommand::StartMovement(direction) => {
                match direction {
                    Movement::Up => self.player.direction.1 = -1,
                    Movement::Down => self.player.direction.1 = 1,
                    Movement::Left => self.player.direction.0 = -1,
                    Movement::Right => self.player.direction.0 = 1,
                }
                None
            },
            GameCommand::StopMovement(direction) => {
                match direction {
                    Movement::Up | Movement::Down => self.player.direction.1 = 0,
                    Movement::Left | Movement::Right => self.player.direction.0 = 0,
                }
                None
            },
            GameCommand::Pause => {
                self.running = false;
                None
            },
            GameCommand::Resume => {
                self.running = true;
                None
            },
            GameCommand::Menu => {
                self.running = false;
                Some(Msg::MenuCommand(MenuMsg::ShowGameMenu))
            },
        }
    }

    /// A key press: a bound key starts movement; otherwise escape opens the
    /// in-game menu, and "p" or pause toggles pausing.
    pub fn process_button_press(&mut self, bindings: &KeyBindings, k: Key) -> (r: Option<Msg>)
        requires
            old(self).wf(),
        ensures
            final(self).wf(),
            ({
                let c = pressed_command(bindings.movement_of(k), k, old(self).running);
                match c {
                    Some(c) => {
                        &&& final(self).player.direction == commanded_direction(old(self).player.direction, c)
                        &&& final(self).running == match c {
                            GameCommand::Pause | GameCommand::Menu => false,
                            GameCommand::Resume => true,
                            _ => old(self).running,
                        }
                        &&& r == match c {
                            GameCommand::Menu => Some(Msg::MenuCommand(MenuMsg::ShowGameMenu)),
                            _ => None,
                        }
                    },
                    None => {
                        &&& final(self).player == old(self).player
                        &&& final(self).running == old(self).running
                        &&& r is None
                    },
                }
            }),
            final(self).player == (Player { direction: final(self).player.direction, ..old(self).player }),
            final(self).edibles@ == old(self).edibles@,
            final(self).spikes@ == old(self).spikes@,
            final(self).settings == old(self).settings,
            final(self).edible_eta == old(self).edible_eta,
            final(self).spike_eta == old(self).spike_eta,
    {
        match bindings.get(k) {
            Some(direction) => self.process_game_command(GameCommand::StartMovement(direction)),
            None => {
                if k.0 == KEY_ESCAPE {
                    self.process_game_command(GameCommand::Menu)
                } else if k.0 == KEY_P || k.0 == KEY_PAUSE {
                    if self.running {
                        self.process_game_command(GameCommand::Pause)
                    } else {
                        self.process_game_command(GameCommand::Resume)
                    }
                } else {
                    None
                }
            },
        }
    }

    /// A key release: a bound key stops movement along its axis.
    pub fn process_button_release(&mut self, bindings: &KeyBindings, k: Key) -> (r: Option<Msg>)
        requires
            old(self).wf(),
        ensures
            final(self).wf(),
            r is None,
            final(self).running == old(self).running,
            final(self).player.direction == match bindings.movement_of(k) {
                Some(m) => commanded_direction(old(self).player.direction, GameCommand::StopMovement(m)),
                None => old(self).player.direction,
            },
            final(self).player == (Player { direction: final(self).player.direction, ..old(self).player }),
            final(self).edibles@ == old(self).edibles@,
            final(self).spikes@ == old(self).spikes@,
            final(self).settings == old(self).settings,
            final(self).edible_eta == old(self).edible_eta,
            final(self).spike_eta == old(self).spike_eta,
    {
        match bindings.get(k) {
            Some(direction) => self.process_game_command(GameCommand::StopMovement(direction)),
            None => None,
        }
    }

    /// Whether this screen hides the screens below it: always.
    pub fn is_fullscreen(&self) -> (r: bool)
        ensures
            r,
    {
        true
    }

    /// Handles one message. A tick advances a running game (drawing the entities
    /// that spawn at random) and comes back as `Tick`, `ShowGameOver` or
    /// `ShowWinScreen`; a paused game lets it pass unchanged. Resuming from the
    /// menu restarts the game and passes on; commands and keys act as their own
    /// functions say; `NoOp` is swallowed and anything else passes unchanged.
    pub fn process_message(&mut self, data: &EngineData, bindings: &KeyBindings, msg: Msg) -> (r: Option<Msg>)
        requires
            old(self).wf(),
        ensures
            final(self).wf(),
            game_handled(*old(self), data.window_size, *bindings, msg, *final(self), r),
    {
        match msg {
            Msg::Tick(dt) => {
                if self.running {
                    let window = data.window_size;
                    let fresh_edible = if self.edible_eta - (dt as i64) <= 0 {
                        Edible::random(
                            spawn_extent(window.0),
                            spawn_extent(window.1),
                            self.settings.edible_bounds.0 as i64 * UNIT,
                            self.settings.edible_bounds.1 as i64 * UNIT,
                        )
                    } else {
                        Edible::new(0, 0, 0)
                    };
                    let fresh_spike = if self.spike_eta - (dt as i64) <= 0 {
                        Spike::random(
                            to_i32(window.0),
                            to_i32(window.1),
                            self.settings.spikes_bounds.0,
                            self.settings.spikes_bounds.1,
                        )
                    } else {
                        Spike::new(0, 0, 1, 1, (0, 0), 0)
                    };
                    let ghost g0 = *self;
                    let r = self.advance(dt, window, fresh_edible, fresh_spike);
                    assert(ticked(g0, dt, data.window_size, fresh_edible, fresh_spike, *self, r));
                    assert(ticked_somehow(g0, dt, data.window_size, *self, r));
                    Some(r)
                } else {
                    Some(Msg::Tick(dt))
                }
            },
            Msg::MenuCommand(MenuMsg::ResumeGame) => {
                self.running = true;
                Some(msg)
            },
            Msg::Command(c) => self.process_game_command(c),
            Msg::ButtonPressed(k) => self.process_button_press(bindings, k),
            Msg::ButtonReleased(k) => self.process_button_release(bindings, k),
            Msg::NoOp => None,
            _ => Some(msg),
        }
    }
}

/// Where a new edible may start along an edge `extent` pixels long: the margin
/// taken off, within the range of `i32`.
fn spawn_extent(extent: u32) -> (r: u32)
    ensures
        r <= i32::MAX,
        r == spawn_room(extent),
{
    if extent <= EDIBLE_MARGIN {
        0
    } else if extent - EDIBLE_MARGIN > i32::MAX as u32 {
        i32::MAX as u32
    } else {
        extent - EDIBLE_MARGIN
    }
}

/// A window extent within the range of `i32`.
fn to_i32(extent: u32) -> (r: i32)
    ensures
        0 <= r,
        r == room_i32(extent),
{
    if extent > i32::MAX as u32 {
        i32::MAX
    } else {
        extent as i32
    }
}

/// The edibles of a pass with the survivors kept and the size after eating.
fn eat_edibles(pool: &Vec<Edible>, amount: i64, r: Rect, size: i64) -> (out: (Vec<Edible>, i64))
    requires
        amount >= 0,
        forall|i: int| 0 <= i < pool.len() ==> (#[trigger] pool@[i]).wf(),
    ensures
        out.0@ == kept_edibles(decayed_all(pool@, amount as int), r),
        out.1 == fed(size as int, decayed_all(pool@, amount as int), r),
        out.1 >= size,
        forall|i: int| 0 <= i < out.0.len() ==> (#[trigger] out.0@[i]).wf(),
{
    let ghost all = decayed_all(pool@, amount as int);
    let mut kept: Vec<Edible> = Vec::new();
    let mut grown = size;
    let mut i: usize = 0;
    while i < pool.len()
        invariant
            i <= pool.len(),
            amount >= 0,
            all == decayed_all(pool@, amount as int),
            forall|j: int| 0 <= j < pool.len() ==> (#[trigger] pool@[j]).wf(),
            kept@ == kept_edibles(all.subrange(0, i as int), r),
            grown == fed(size as int, all.subrange(0, i as int), r),
            grown >= size,
            forall|j: int| 0 <= j < kept.len() ==> (#[trigger] kept@[j]).wf(),
        decreases pool.len() - i,
    {
        let mut e = pool[i];
        e.deteriorate(amount);
        assert(all.subrange(0, i + 1).drop_last() == all.subrange(0, i as int));
        assert(all.subrange(0, i + 1).last() == e);
        if e.nutrition <= 0 {
        } else if e.rect.intersects(&r) {
            grown = saturate(grown as i128 + e.nutrition as i128);
        } else {
            kept.push(e);
        }
        i = i + 1;
    }
    assert(all.subrange(0, pool.len() as int) == all);
    (kept, grown)
}

/// The spikes of a pass moved, with those that touch `r` taken out, and the size after their hits.
fn hit_spikes(pool: &Vec<Spike>, dt: u32, bounds: (u32, u32), r: Rect, size: i64) -> (out: (Vec<Spike>, i64))
    requires
        size > 0,
        forall|i: int| 0 <= i < pool.len() ==> (#[trigger] pool@[i]).wf(),
    ensures
        out.0@ == kept_spikes(moved_all(pool@, dt as int, bounds), r),
        out.1 == penalized(size as int, moved_all(pool@, dt as int, bounds), r),
        out.1 > 0,
        forall|i: int| 0 <= i < out.0.len() ==> (#[trigger] out.0@[i]).wf(),
{
    let ghost all = moved_all(pool@, dt as int, bounds);
    let mut kept: Vec<Spike> = Vec::new();
    let mut left = size;
    let mut i: usize = 0;
    while i < pool.len()
        invariant
            i <= pool.len(),
            all == moved_all(pool@, dt as int, bounds),
            forall|j: int| 0 <= j < pool.len() ==> (#[trigger] pool@[j]).wf(),
            kept@ == kept_spikes(all.subrange(0, i as int), r),
            left == penalized(size as int, all.subrange(0, i as int), r),
            left > 0,
            forall|j: int| 0 <= j < kept.len() ==> (#[trigger] kept@[j]).wf(),
        decreases pool.len() - i,
    {
        let mut s = pool[i];
        s.update(dt, bounds);
        assert(all.subrange(0, i + 1).drop_last() == all.subrange(0, i as int));
        assert(all.subrange(0, i + 1).last() == s);
        if s.rect.intersects(&r) {
            if left >= SPIKE_FLAT_SIZE {
                left = left - SPIKE_PENALTY;
            } else {
                left = left - left / 2;
            }
        } else {
            kept.push(s);
        }
        i = i + 1;
    }
    assert(all.subrange(0, pool.len() as int) == all);
    (kept, left)
}

} // verus!
