use vstd::prelude::*;
use std::collections::VecDeque;
use crate::bindings::{KeyBindings, default_bindings};
use crate::data::EngineData;
use crate::font::{ColorMod, RenderableText};
use crate::game::GameState;
use crate::menu::{MenuState, MenuPosition};
use crate::msg::{Msg, MenuMsg, Key};
use crate::options::OptionsState;
use crate::player::initial_player;
use crate::screen::{Screen, covers, screen_handled};
use crate::static_screen::StaticState;

verus! {

/// Milliseconds one frame is meant to last (64 frames a second).
pub const FPS_LOCK: u32 = 15;

/// An event of the platform's input, as the engine reads it.
#[derive(Clone, Copy, Debug, PartialEq, Eq, Structural)]
pub enum InputEvent {
    Quit,
    KeyDown(Key),
    KeyUp(Key),
    Other,
}

/// The main menu: new game, controls, credits, exit; centred, fullscreen, no escape.
pub open spec fn is_main_menu(s: Screen) -> bool {
    match s {
        Screen::Menu(m) => {
            &&& m.wf()
            &&& m.currently_selected == 0
            &&& m.messages() == seq![Msg::StartGame, Msg::ShowOptions, Msg::ShowCredits, Msg::Exit]
            &&& m.on_escape is None
            &&& m.is_fullscreen
        },
        _ => false,
    }
}

/// The pause menu: resume or leave to the main menu; escape resumes; drawn over the game.
pub open spec fn is_pause_menu(s: Screen) -> bool {
    match s {
        Screen::Menu(m) => {
            &&& m.wf()
            &&& m.currently_selected == 0
            &&& m.messages() == seq![Msg::MenuCommand(MenuMsg::ResumeGame), Msg::MenuCommand(MenuMsg::ToMainMenu)]
            &&& m.on_escape == Some(Msg::MenuCommand(MenuMsg::ResumeGame))
            &&& !m.is_fullscreen
        },
        _ => false,
    }
}

/// A game that has just started.
pub open spec fn is_new_game(s: Screen) -> bool {
    match s {
        Screen::Game(g) => {
            &&& g.wf()
            &&& g.running
            &&& g.player == initial_player()
            &&& g.edibles@.len() == 0
            &&& g.spikes@.len() == 0
        },
        _ => false,
    }
}

/// A text screen held for `pause` milliseconds, then sending `next` on a key press.
pub open spec fn is_text_screen(s: Screen, pause: int, next: Msg) -> bool {
    match s {
        Screen::Static(st) => {
            &&& st.wf()
            &&& st.time_left == pause
            &&& !st.skippable
            &&& st.next_msg == next
        },
        _ => false,
    }
}

/// The options screen, not yet waiting for a key.
pub open spec fn is_options_screen(s: Screen) -> bool {
    match s {
        Screen::Options(o) => {
            &&& o.wf()
            &&& o.current_receiver is None
            &&& o.is_dirty
        },
        _ => false,
    }
}

/// The introduction: shown one second, then on to the main menu.
pub open spec fn is_intro_screen(s: Screen) -> bool {
    is_text_screen(s, 1000, Msg::MenuCommand(MenuMsg::ToMainMenu))
}

/// The game-over screen: one second, then the main menu.
pub open spec fn is_gameover_screen(s: Screen) -> bool {
    is_text_screen(s, 1000, Msg::MenuCommand(MenuMsg::ToMainMenu))
}

/// The winning screen: one second, then the credits.
pub open spec fn is_win_screen(s: Screen) -> bool {
    is_text_screen(s, 1000, Msg::ShowCredits)
}

/// The credits: a second and a half, then the main menu.
pub open spec fn is_credits_screen(s: Screen) -> bool {
    is_text_screen(s, 1500, Msg::MenuCommand(MenuMsg::ToMainMenu))
}

/// The messages the engine hands back to be queued again: those meant for a screen.
pub open spec fn requeued(m: Msg) -> bool {
    m is OptionsSelect || m is OptionsSet
}

/// The stack after popping `n` screens (or all of them, if fewer).
pub open spec fn popped(s: Seq<Screen>, n: int) -> Seq<Screen> {
    if n >= s.len() {
        Seq::empty()
    } else {
        s.subrange(0, s.len() - n)
    }
}

/// What the engine does with the message that came through the stack (`m`),
/// from stack `s0` and running flag `run0` to stack `s1`, flag `run1` and result `r`.
/// A new game, the pause menu and the options screen are pushed on top; the main
/// menu, game over, winning and credits screens replace the whole stack;
/// `PopState(n)` pops `n` screens and resuming pops one, the main menu taking
/// the place of an emptied stack; `Exit` stops the engine;
/// messages meant for a screen come back to be queued again; the rest is dropped.
pub open spec fn reacted(s0: Seq<Screen>, run0: bool, m: Option<Msg>, s1: Seq<Screen>, run1: bool, r: Option<Msg>) -> bool {
    let pushed = |p: spec_fn(Screen) -> bool|
        s1.len() == s0.len() + 1 && s1.subrange(0, s0.len() as int) == s0 && p(s1.last());
    let replaced = |p: spec_fn(Screen) -> bool| s1.len() == 1 && p(s1[0]);
    &&& run1 == (run0 && m != Some(Msg::Exit))
    &&& r == match m {
        Some(x) => if requeued(x) { Some(x) } else { None },
        None => None,
    }
    &&& match m {
        Some(Msg::StartGame) => pushed(|x: Screen| is_new_game(x)),
        Some(Msg::MenuCommand(MenuMsg::ToMainMenu)) => replaced(|x: Screen| is_main_menu(x)),
        Some(Msg::MenuCommand(MenuMsg::ShowGameMenu)) => pushed(|x: Screen| is_pause_menu(x)),
        Some(Msg::PopState(n)) => popped_or_menu(s0, n as int, s1),
        Some(Msg::ShowGameOver) => replaced(|x: Screen| is_gameover_screen(x)),
        Some(Msg::ShowOptions) => pushed(|x: Screen| is_options_screen(x)),
        Some(Msg::MenuCommand(MenuMsg::ResumeGame)) => popped_or_menu(s0, 1, s1),
        Some(Msg::ShowWinScreen) => replaced(|x: Screen| is_win_screen(x)),
        Some(Msg::ShowCredits) => replaced(|x: Screen| is_credits_screen(x)),
        _ => s1 == s0,
    }
}

/// Routing `msg` through the screens `s0` (the last is the top) with key table
/// `b0`: the top screen handles it; if it passes a message on, the screens below
/// route that one. The screens end as `s1`, the table as `b1`, and `r` is what
/// came out below the bottom screen (`None` if a screen swallowed it).
pub open spec fn routed(s0: Seq<Screen>, data: EngineData, b0: KeyBindings, msg: Msg, s1: Seq<Screen>, b1: KeyBindings, r: Option<Msg>) -> bool
    decreases s0.len(),
{
    if s0.len() == 0 {
        s1 == s0 && b1 == b0 && r == Some(msg)
    } else {
        &&& s1.len() == s0.len()
        &&& exists|bm: KeyBindings, out: Option<Msg>|
            #[trigger] screen_handled(s0.last(), data, b0, msg, s1.last(), bm, out) && match out {
                None => s1.drop_last() == s0.drop_last() && b1 == bm && r is None,
                Some(m) => routed(s0.drop_last(), data, bm, m, s1.drop_last(), b1, r),
            }
    }
}

/// One update from screens `s0`, data `data0` and table `b0` to screens `s1`,
/// running flag `run1` and table `b1`, with result `r`: `msg` is routed
/// through the screens, and the engine reacts to what came out.
pub open spec fn updated(s0: Seq<Screen>, data0: EngineData, b0: KeyBindings, msg: Msg, s1: Seq<Screen>, run1: bool, b1: KeyBindings, r: Option<Msg>) -> bool {
    exists|mid: Seq<Screen>, m: Option<Msg>|
        #[trigger] routed(s0, data0, b0, msg, mid, b1, m) && reacted(mid, data0.running, m, s1, run1, r)
}

/// The stack after popping `n` screens from `s0`; if that would leave none,
/// the main menu alone, so that there is always a screen.
pub open spec fn popped_or_menu(s0: Seq<Screen>, n: int, s1: Seq<Screen>) -> bool {
    if popped(s0, n).len() > 0 {
        s1 == popped(s0, n)
    } else {
        s1.len() == 1 && is_main_menu(s1[0])
    }
}

/// The state an update works on: the screens, the session data and the key table.
pub type EngineState = (Seq<Screen>, EngineData, KeyBindings);

/// `states` and `backs` trace updates with each of `msgs` in turn: the update
/// with `msgs[i]` goes from `states[i]` to `states[i + 1]` and hands back `backs[i]`.
pub open spec fn traced(states: Seq<EngineState>, backs: Seq<Option<Msg>>, msgs: Seq<Msg>) -> bool {
    &&& states.len() == msgs.len() + 1
    &&& backs.len() == msgs.len()
    &&& forall|i: int|
        0 <= i < msgs.len() ==> #[trigger] updated(
            states[i].0,
            states[i].1,
            states[i].2,
            msgs[i],
            states[i + 1].0,
            states[i + 1].1.running,
            states[i + 1].2,
            backs[i],
        ) && states[i + 1].1.window_size == states[i].1.window_size
}

/// The messages handed back, in order.
pub open spec fn handed_back(backs: Seq<Option<Msg>>) -> Seq<Msg>
    decreases backs.len(),
{
    if backs.len() == 0 {
        Seq::empty()
    } else {
        match backs.last() {
            Some(x) => handed_back(backs.drop_last()).push(x),
            None => handed_back(backs.drop_last()),
        }
    }
}

/// The messages an update routes while draining the queue `msgs`, given what
/// the updates handed back (`backs`): the queued messages in order, then, once
/// each, those that their updates handed back.
pub open spec fn drain_order(msgs: Seq<Msg>, backs: Seq<Option<Msg>>) -> Seq<Msg> {
    msgs + handed_back(backs.take(msgs.len() as int))
}

/// Draining the queue `msgs` from screens `s0`, data `d0` and table `b0` to
/// `s1`, `d1` and `b1`: each queued message is updated in turn; a message that
/// its update hands back joins the end of the queue and is updated in turn too,
/// once; what that second update hands back is dropped, so the queue ends empty.
pub open spec fn drained(
    s0: Seq<Screen>,
    d0: EngineData,
    b0: KeyBindings,
    msgs: Seq<Msg>,
    s1: Seq<Screen>,
    d1: EngineData,
    b1: KeyBindings,
) -> bool {
    exists|states: Seq<EngineState>, backs: Seq<Option<Msg>>|
        #[trigger] traced(states, backs, drain_order(msgs, backs)) && states[0] == (s0, d0, b0) && states.last() == (
        s1,
        d1,
        b1,
    )
}

/// The game engine: session data, the queue of messages, the stack of screens
/// (last is top) and the movement keys.
pub struct Engine {
    pub engine_data: EngineData,
    pub messages: VecDeque<Msg>,
    pub states_stack: Vec<Screen>,
    pub bindings: KeyBindings,
    pub marked_events: Vec<Key>,
}

/// Text in the default tint.
fn line(s: &str) -> (r: RenderableText)
    ensures
        r.text@ == s@,
        r.color_mod == ColorMod(255, 255, 255, 255),
{
    RenderableText::new(s.to_owned())
}

/// The main menu.
pub fn main_menu() -> (r: Screen)
    ensures
        is_main_menu(r),
{
    let choices = vec![
        ("New Game".to_owned(), Msg::StartGame),
        ("Controls".to_owned(), Msg::ShowOptions),
        ("Credits".to_owned(), Msg::ShowCredits),
        ("Exit Game".to_owned(), Msg::Exit),
    ];
    let ghost msgs = choices@.map_values(|c: (String, Msg)| c.1);
    assert(msgs =~= seq![Msg::StartGame, Msg::ShowOptions, Msg::ShowCredits, Msg::Exit]);
    Screen::Menu(MenuState::new(choices, None, MenuPosition::Centered, Some("HUNGRY PIXEL".to_owned()), true))
}

/// The pause menu.
pub fn in_game_menu() -> (r: Screen)
    ensures
        is_pause_menu(r),
{
    let choices = vec![
        ("Resume".to_owned(), Msg::MenuCommand(MenuMsg::ResumeGame)),
        ("Exit to main Menu".to_owned(), Msg::MenuCommand(MenuMsg::ToMainMenu)),
    ];
    let ghost msgs = choices@.map_values(|c: (String, Msg)| c.1);
    assert(msgs =~= seq![Msg::MenuCommand(MenuMsg::ResumeGame), Msg::MenuCommand(MenuMsg::ToMainMenu)]);
    Screen::Menu(
        MenuState::new(
            choices,
            Some(Msg::MenuCommand(MenuMsg::ResumeGame)),
            MenuPosition::Centered,
            Some("PAUSE".to_owned()),
            false,
        ),
    )
}

/// The introduction.
pub fn intro_screen() -> (r: Screen)
    ensures
        is_intro_screen(r),
{
    let lines = vec![
        line("This is a game about a pixel who is very hungry."),
        line("So he eats..."),
        line("And eats..."),
        line("He eats so much that he grows into a square!.."),
    ];
    Screen::Static(StaticState::new(lines, 1000, Msg::MenuCommand(MenuMsg::ToMainMenu)))
}

/// The game-over screen.
pub fn gameover_screen() -> (r: Screen)
    ensures
        is_gameover_screen(r),
{
    let lines = vec![line("GAME OVER"), line("Unfortunately.")];
    let mut st = StaticState::new(lines, 1000, Msg::MenuCommand(MenuMsg::ToMainMenu));
    st.large_text = true;
    Screen::Static(st)
}

/// The winning screen.
pub fn winning_screen() -> (r: Screen)
    ensures
        is_win_screen(r),
{
    let lines = vec![line("Congratulations!"), line("You've won!")];
    let mut st = StaticState::new(lines, 1000, Msg::ShowCredits);
    st.large_text = true;
    Screen::Static(st)
}

/// The credits, the address in green.
pub fn credits() -> (r: Screen)
    ensures
        is_credits_screen(r),
{
    let lines = vec![
        line("Author:"),
        line("Crazy-Owl"),
        RenderableText::with_color("http://GitHub.com/Crazy-Owl".to_owned(), ColorMod(0, 255, 0, 0)),
    ];
    let mut st = StaticState::new(lines, 1500, Msg::MenuCommand(MenuMsg::ToMainMenu));
    st.large_text = true;
    Screen::Static(st)
}

/// The options screen.
pub fn options() -> (r: Screen)
    ensures
        is_options_screen(r),
{
    Screen::Options(OptionsState::new())
}

/// How long to sleep after a frame that took `elapsed` milliseconds.
pub fn frame_delay(elapsed: u32) -> (r: u32)
    ensures
        r == if elapsed < FPS_LOCK { FPS_LOCK - elapsed } else { 0 },
{
    if elapsed < FPS_LOCK {
        FPS_LOCK - elapsed
    } else {
        0
    }
}

impl Engine {
    /// Every screen and the key table are well formed.
    pub open spec fn wf(&self) -> bool {
        &&& self.bindings.wf()
        &&& forall|i: int| 0 <= i < self.states_stack.len() ==> (#[trigger] self.states_stack@[i]).wf()
    }

    /// A running engine with no screen, no message and the arrow keys bound.
    pub fn new() -> (r: Engine)
        ensures
            r.wf(),
            r.engine_data.running,
            r.engine_data.window_size == (1024u32, 768u32),
            r.states_stack@.len() == 0,
            r.messages@.len() == 0,
            r.marked_events@.len() == 0,
            r.bindings == default_bindings(),
    {
        Engine {
            engine_data: EngineData::new(),
            messages: VecDeque::new(),
            states_stack: Vec::new(),
            bindings: KeyBindings::new(),
            marked_events: Vec::new(),
        }
    }

    /// Puts the introduction on the stack.
    pub fn start_game(&mut self)
        requires
            old(self).wf(),
        ensures
            final(self).wf(),
            final(self).states_stack@.len() == old(self).states_stack@.len() + 1,
            final(self).states_stack@.drop_last() == old(self).states_stack@,
            is_intro_screen(final(self).states_stack@.last()),
            final(self).engine_data == old(self).engine_data,
    {
        let s = intro_screen();
        self.states_stack.push(s);
        assert(self.states_stack@.drop_last() == old(self).states_stack@);
    }

    /// Hands `msg` to each screen from the top down, as `routed` says; each may
    /// swallow it, pass it on, or pass on another. Returns what came out below
    /// the last screen.
    pub fn route(&mut self, msg: Msg) -> (r: Option<Msg>)
        requires
            old(self).wf(),
        ensures
            final(self).wf(),
            routed(old(self).states_stack@, old(self).engine_data, old(self).bindings, msg, final(self).states_stack@, final(self).bindings, r),
            final(self).states_stack@.len() == old(self).states_stack@.len(),
            forall|i: int| 0 <= i < final(self).states_stack@.len() ==> covers(#[trigger] final(self).states_stack@[i])
                == covers(old(self).states_stack@[i]),
            final(self).engine_data == old(self).engine_data,
            final(self).messages@ == old(self).messages@,
            final(self).marked_events@ == old(self).marked_events@,
    {
        let n = self.states_stack.len();
        let r = self.route_from(n, msg);
        assert(old(self).states_stack@.take(n as int) == old(self).states_stack@);
        assert(self.states_stack@.take(n as int) == self.states_stack@);
        r
    }

    /// Routes `msg` through the lowest `n` screens, from the top one of them down.
    fn route_from(&mut self, n: usize, msg: Msg) -> (r: Option<Msg>)
        requires
            old(self).wf(),
            n <= old(self).states_stack@.len(),
        ensures
            final(self).wf(),
            routed(
                old(self).states_stack@.take(n as int),
                old(self).engine_data,
                old(self).bindings,
                msg,
                final(self).states_stack@.take(n as int),
                final(self).bindings,
                r,
            ),
            final(self).states_stack@.len() == old(self).states_stack@.len(),
            final(self).states_stack@.skip(n as int) == old(self).states_stack@.skip(n as int),
            forall|i: int| 0 <= i < final(self).states_stack@.len() ==> covers(#[trigger] final(self).states_stack@[i])
                == covers(old(self).states_stack@[i]),
            final(self).engine_data == old(self).engine_data,
            final(self).messages@ == old(self).messages@,
            final(self).marked_events@ == old(self).marked_events@,
        decreases n,
    {
        if n == 0 {
            assert(self.states_stack@.take(0) == old(self).states_stack@.take(0));
            return Some(msg);
        }
        let ghost s0 = self.states_stack@;
        let ghost b0 = self.bindings;
        let out = self.states_stack[n - 1].process_message(&self.engine_data, &mut self.bindings, msg);
        let ghost s_mid = self.states_stack@;
        let ghost bm = self.bindings;
        assert(s_mid == s0.update(n - 1, s_mid[n - 1]));
        assert(s0.take(n as int).last() == s0[n - 1]);
        assert(s_mid.take(n as int).last() == s_mid[n - 1]);
        assert(s_mid.take(n as int).drop_last() == s0.take(n as int).drop_last());
        assert(s0.take(n as int).drop_last() == s0.take(n - 1));
        assert(s_mid.take(n - 1) == s0.take(n - 1));
        assert(s_mid.skip(n as int) == s0.skip(n as int));
        assert forall|i: int| 0 <= i < self.states_stack@.len() implies (#[trigger] self.states_stack@[i]).wf() by {
            if i != n - 1 {
                assert(self.states_stack@[i] == s0[i]);
            }
        }
        match out {
            None => {
                assert(screen_handled(
                    s0.take(n as int).last(),
                    self.engine_data,
                    b0,
                    msg,
                    s_mid.take(n as int).last(),
                    bm,
                    out,
                ));
                None
            },
            Some(m) => {
                let r = self.route_from(n - 1, m);
                let ghost s1 = self.states_stack@;
                assert(s1.take(n as int).drop_last() == s1.take(n - 1));
                assert(s1.take(n as int).last() == s1[n - 1]);
                assert(s1.skip(n - 1)[0] == s1[n - 1]);
                assert(s_mid.skip(n - 1)[0] == s_mid[n - 1]);
                assert(s1[n - 1] == s_mid[n - 1]);
                assert(s1.skip(n as int) == s1.skip(n - 1).skip(1));
                assert(s_mid.skip(n as int) == s_mid.skip(n - 1).skip(1));
                assert(screen_handled(
                    s0.take(n as int).last(),
                    self.engine_data,
                    b0,
                    msg,
                    s1.take(n as int).last(),
                    bm,
                    out,
                ));
                r
            },
        }
    }

    /// Carries out what the message `m` that came through the stack asks of the
    /// engine, as `reacted` says.
    pub fn react(&mut self, m: Option<Msg>) -> (r: Option<Msg>)
        requires
            old(self).wf(),
        ensures
            final(self).wf(),
            reacted(
                old(self).states_stack@,
                old(self).engine_data.running,
                m,
                final(self).states_stack@,
                final(self).engine_data.running,
                r,
            ),
            final(self).engine_data.window_size == old(self).engine_data.window_size,
            final(self).messages@ == old(self).messages@,
            final(self).bindings == old(self).bindings,
    {
        match m {
            Some(Msg::StartGame) => {
                self.states_stack.push(Screen::Game(GameState::new()));
                assert(self.states_stack@.subrange(0, old(self).states_stack@.len() as int) == old(self).states_stack@);
                None
            },
            Some(Msg::MenuCommand(MenuMsg::ToMainMenu)) => {
                self.states_stack = vec![main_menu()];
                None
            },
            Some(Msg::MenuCommand(MenuMsg::ShowGameMenu)) => {
                self.states_stack.push(in_game_menu());
                assert(self.states_stack@.subrange(0, old(self).states_stack@.len() as int) == old(self).states_stack@);
                None
            },
            Some(Msg::PopState(n)) => {
                self.pop_states(n);
                if self.states_stack.len() == 0 {
                    self.states_stack.push(main_menu());
                }
                None
            },
            Some(Msg::ShowGameOver) => {
                self.states_stack = vec![gameover_screen()];
                None
            },
            Some(Msg::ShowOptions) => {
                self.states_stack.push(options());
                assert(self.states_stack@.subrange(0, old(self).states_stack@.len() as int) == old(self).states_stack@);
                None
            },
            Some(Msg::MenuCommand(MenuMsg::ResumeGame)) => {
                self.pop_states(1);
                if self.states_stack.len() == 0 {
                    self.states_stack.push(main_menu());
                }
                None
            },
            Some(Msg::Exit) => {
                self.engine_data.running = false;
                None
            },
            Some(Msg::ShowWinScreen) => {
                self.states_stack = vec![winning_screen()];
                None
            },
            Some(Msg::ShowCredits) => {
                self.states_stack = vec![credits()];
                None
            },
            Some(Msg::OptionsSelect(d)) => Some(Msg::OptionsSelect(d)),
            Some(Msg::OptionsSet(k)) => Some(Msg::OptionsSet(k)),
            _ => None,
        }
    }

    /// Pops `n` screens, or all of them if there are fewer.
    fn pop_states(&mut self, n: usize)
        requires
            old(self).wf(),
        ensures
            final(self).wf(),
            final(self).states_stack@ == popped(old(self).states_stack@, n as int),
            final(self).engine_data == old(self).engine_data,
            final(self).messages@ == old(self).messages@,
            final(self).bindings == old(self).bindings,
    {
        let mut k: usize = 0;
        while k < n && self.states_stack.len() > 0
            invariant
                k <= n,
                self.wf(),
                k <= old(self).states_stack@.len(),
                self.states_stack@ == old(self).states_stack@.subrange(0, old(self).states_stack@.len() - k),
                self.engine_data == old(self).engine_data,
                self.messages@ == old(self).messages@,
                self.bindings == old(self).bindings,
            decreases n - k,
        {
            self.states_stack.pop();
            k = k + 1;
        }
        assert(self.states_stack@ == popped(old(self).states_stack@, n as int));
    }

    /// Routes one message through the stack, then does what the message that
    /// came out asks of the engine. Returns a message to queue again, if any.
    pub fn update(&mut self, msg: Msg) -> (r: Option<Msg>)
        requires
            old(self).wf(),
        ensures
            final(self).wf(),
            updated(
                old(self).states_stack@,
                old(self).engine_data,
                old(self).bindings,
                msg,
                final(self).states_stack@,
                final(self).engine_data.running,
                final(self).bindings,
                r,
            ),
            r is Some ==> requeued(r->Some_0),
            final(self).engine_data.window_size == old(self).engine_data.window_size,
            final(self).messages@ == old(self).messages@,
    {
        let ghost s0 = self.states_stack@;
        let ghost d0 = self.engine_data;
        let ghost b0 = self.bindings;
        let m = self.route(msg);
        let ghost mid = self.states_stack@;
        let r = self.react(m);
        assert(routed(s0, d0, b0, msg, mid, self.bindings, m));
        assert(reacted(mid, d0.running, m, self.states_stack@, self.engine_data.running, r));
        r
    }

    /// The index of the topmost screen that hides those below it; the number of
    /// screens if there is none. The screens from there to the top are drawn.
    pub fn first_visible(&self) -> (r: usize)
        ensures
            r <= self.states_stack@.len(),
            r < self.states_stack@.len() ==> covers(self.states_stack@[r as int]),
            r == self.states_stack@.len() ==> forall|j: int|
                0 <= j < self.states_stack@.len() ==> !covers(#[trigger] self.states_stack@[j]),
            forall|j: int| r < j < self.states_stack@.len() ==> !covers(#[trigger] self.states_stack@[j]),
    {
        let mut index: usize = self.states_stack.len();
        while index > 0
            invariant
                index <= self.states_stack@.len(),
                forall|j: int| index <= j < self.states_stack@.len() ==> !covers(#[trigger] self.states_stack@[j]),
            decreases index,
        {
            if self.states_stack[index - 1].is_fullscreen() {
                return index - 1;
            }
            index = index - 1;
        }
        self.states_stack.len()
    }

    /// Starts a frame: no key has been seen pressed in it yet.
    pub fn begin_frame(&mut self)
        ensures
            final(self).marked_events@.len() == 0,
            final(self).messages@ == old(self).messages@,
            final(self).states_stack@ == old(self).states_stack@,
            final(self).bindings == old(self).bindings,
            final(self).engine_data == old(self).engine_data,
    {
        self.marked_events = Vec::new();
    }

    /// Turns one input event into a message: quitting into `Exit`, a key press
    /// into `ButtonPressed` (only its first press in a frame), a release into
    /// `ButtonReleased`; other events are ignored.
    pub fn accept_event(&mut self, ev: InputEvent)
        ensures
            final(self).states_stack@ == old(self).states_stack@,
            final(self).bindings == old(self).bindings,
            final(self).engine_data == old(self).engine_data,
            match ev {
                InputEvent::Quit => final(self).messages@ == old(self).messages@.push(Msg::Exit)
                    && final(self).marked_events@ == old(self).marked_events@,
                InputEvent::KeyDown(k) => if old(self).marked_events@.contains(k) {
                    final(self).messages@ == old(self).messages@ && final(self).marked_events@
                        == old(self).marked_events@
                } else {
                    final(self).messages@ == old(self).messages@.push(Msg::ButtonPressed(k))
                        && final(self).marked_events@ == old(self).marked_events@.push(k)
                },
                InputEvent::KeyUp(k) => final(self).messages@ == old(self).messages@.push(Msg::ButtonReleased(k))
                    && final(self).marked_events@ == old(self).marked_events@,
                InputEvent::Other => final(self).messages@ == old(self).messages@
                    && final(self).marked_events@ == old(self).marked_events@,
            },
    {
        match ev {
            InputEvent::Quit => self.messages.push_back(Msg::Exit),
            InputEvent::KeyDown(k) => {
                let mut i: usize = 0;
                let mut seen = false;
                while i < self.marked_events.len()
                    invariant
                        i <= self.marked_events@.len(),
                        seen == exists|j: int| 0 <= j < i && self.marked_events@[j] == k,
                    decreases self.marked_events.len() - i,
                {
                    if self.marked_events[i] == k {
                        seen = true;
                    }
                    i = i + 1;
                }
                if !seen {
                    self.marked_events.push(k);
                    self.messages.push_back(Msg::ButtonPressed(k));
                }
            },
            InputEvent::KeyUp(k) => self.messages.push_back(Msg::ButtonReleased(k)),
            InputEvent::Other => {},
        }
    }

    /// Drains the queue, as `drained` says: every queued message goes through
    /// `update` in order, and every message handed back goes through it once
    /// more, in the same call; a message handed back a second time is one that
    /// no screen takes, and it is dropped.
    #[verifier::rlimit(60)]
    pub fn process_messages(&mut self)
        requires
            old(self).wf(),
        ensures
            final(self).wf(),
            drained(
                old(self).states_stack@,
                old(self).engine_data,
                old(self).bindings,
                old(self).messages@,
                final(self).states_stack@,
                final(self).engine_data,
                final(self).bindings,
            ),
            final(self).messages@.len() == 0,
            final(self).engine_data.window_size == old(self).engine_data.window_size,
            !old(self).engine_data.running ==> !final(self).engine_data.running,
    {
        let n = self.messages.len();
        let ghost queued = self.messages@;
        let mut left: usize = n;
        let ghost mut i: int = 0;
        let ghost mut states: Seq<EngineState> = seq![(self.states_stack@, self.engine_data, self.bindings)];
        let ghost mut backs: Seq<Option<Msg>> = Seq::empty();
        assert(queued + handed_back(backs.take(0)) =~= queued);
        while self.messages.len() > 0
            invariant
                n == queued.len(),
                0 <= i,
                left == if i < n { n - i } else { 0 },
                queued == old(self).messages@,
                backs.len() == i,
                self.wf(),
                traced(states, backs, (queued + handed_back(backs.take(if i < n { i } else { n as int }))).take(i)),
                i <= (queued + handed_back(backs.take(if i < n { i } else { n as int }))).len(),
                self.messages@ == (queued + handed_back(backs.take(if i < n { i } else { n as int }))).skip(i),
                states[0] == (old(self).states_stack@, old(self).engine_data, old(self).bindings),
                states.last() == (self.states_stack@, self.engine_data, self.bindings),
                self.engine_data.window_size == old(self).engine_data.window_size,
                !old(self).engine_data.running ==> !self.engine_data.running,
            decreases self.messages@.len() + if i < n { n - i } else { 0 },
        {
            let ghost hb = handed_back(backs.take(if i < n { i } else { n as int }));
            let ghost whole = queued + hb;
            assert(self.messages@[0] == whole[i as int]);
            let ghost before = (self.states_stack@, self.engine_data, self.bindings);
            let msg = match self.messages.pop_front() {
                Some(msg) => msg,
                None => {
                    return;
                },
            };
            let back = self.update(msg);
            let ghost old_backs = backs;
            let ghost old_states = states;
            proof {
                backs = backs.push(back);
                states = states.push((self.states_stack@, self.engine_data, self.bindings));
                assert(backs.drop_last() == old_backs);
                assert(old_backs.take(i) == old_backs);
            }
            let ghost hb2 = handed_back(backs.take(if i + 1 < n { i + 1 } else { n as int }));
            let ghost whole2 = queued + hb2;
            if left > 0 {
                left = left - 1;
                assert(backs.take(i + 1) == backs);
                assert(hb2 == match back {
                    Some(b) => hb.push(b),
                    None => hb,
                });
                match back {
                    Some(b) => {
                        self.messages.push_back(b);
                    },
                    None => {},
                }
                assert(self.messages@ =~= whole2.skip(i + 1));
            } else {
                assert(backs.take(n as int) == old_backs.take(n as int));
                assert(hb2 == hb);
                assert(self.messages@ =~= whole2.skip(i + 1));
            }
            proof {
                let t = whole2.take(i + 1);
                assert(t.len() == i + 1);
                assert(t[i] == msg);
                assert forall|k: int| 0 <= k < i implies t[k] == whole.take(i)[k] by {}
                assert(updated(before.0, before.1, before.2, msg, self.states_stack@, self.engine_data.running, self.bindings, back));
                assert forall|k: int| 0 <= k < t.len() implies #[trigger] updated(
                    states[k].0,
                    states[k].1,
                    states[k].2,
                    t[k],
                    states[k + 1].0,
                    states[k + 1].1.running,
                    states[k + 1].2,
                    backs[k],
                ) && states[k + 1].1.window_size == states[k].1.window_size by {
                    if k < i {
                        assert(t[k] == whole.take(i)[k]);
                        assert(states[k] == old_states[k]);
                        assert(states[k + 1] == old_states[k + 1]);
                        assert(backs[k] == old_backs[k]);
                        assert(updated(
                            old_states[k].0,
                            old_states[k].1,
                            old_states[k].2,
                            whole.take(i)[k],
                            old_states[k + 1].0,
                            old_states[k + 1].1.running,
                            old_states[k + 1].2,
                            old_backs[k],
                        ));
                    } else {
                        assert(k == i);
                        assert(states[k] == before);
                        assert(states[k + 1] == (self.states_stack@, self.engine_data, self.bindings));
                        assert(backs[k] == back);
                    }
                }
                assert(traced(states, backs, t));
            }
            proof {
                i = i + 1;
            }
        }
        proof {
            let hb = handed_back(backs.take(if i < n { i } else { n as int }));
            let whole = queued + hb;
            assert(whole.len() == i);
            assert(whole.take(i) == whole);
            if i < n {
                assert(false);
            }
            assert(whole == drain_order(queued, backs));
        }
    }

    /// Queues the tick of a frame that lasted `dt` milliseconds.
    pub fn push_tick(&mut self, dt: u32)
        ensures
            final(self).messages@ == old(self).messages@.push(Msg::Tick(dt)),
            final(self).states_stack@ == old(self).states_stack@,
            final(self).engine_data == old(self).engine_data,
            final(self).bindings == old(self).bindings,
    {
        self.messages.push_back(Msg::Tick(dt));
    }
}

} // verus!
