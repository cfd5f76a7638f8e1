use vstd::prelude::*;
use crate::bindings::KeyBindings;
use crate::data::EngineData;
use crate::game::{GameState, game_handled};
use crate::menu::{MenuState, menu_handled};
use crate::msg::Msg;
use crate::options::{OptionsState, options_handled};
use crate::static_screen::{StaticState, static_handled};

verus! {

/// One layer of the stack of screens.
pub enum Screen {
    Menu(MenuState),
    Game(GameState),
    Static(StaticState),
    Options(OptionsState),
}

/// Whether a screen hides everything below it.
pub open spec fn covers(s: Screen) -> bool {
    match s {
        Screen::Menu(m) => m.is_fullscreen,
        _ => true,
    }
}

/// How a screen handles one message, from `s0` and key table `b0` to `s1` and
/// `b1` with result `r`: as its own kind of screen says. Only the options
/// screen changes the key table.
pub open spec fn screen_handled(s0: Screen, data: EngineData, b0: KeyBindings, msg: Msg, s1: Screen, b1: KeyBindings, r: Option<Msg>) -> bool {
    match (s0, s1) {
        (Screen::Menu(a), Screen::Menu(b)) => menu_handled(a, msg, b, r) && b1 == b0,
        (Screen::Game(a), Screen::Game(b)) => game_handled(a, data.window_size, b0, msg, b, r) && b1 == b0,
        (Screen::Static(a), Screen::Static(b)) => static_handled(a, msg, b, r) && b1 == b0,
        (Screen::Options(a), Screen::Options(b)) => options_handled(a, b0, msg, b, b1, r),
        _ => false,
    }
}

impl Screen {
    pub open spec fn wf(&self) -> bool {
        match self {
            Screen::Menu(m) => m.wf(),
            Screen::Game(g) => g.wf(),
            Screen::Static(s) => s.wf(),
            Screen::Options(o) => o.wf(),
        }
    }

    /// Hands one message to the screen: `None` if it swallowed the message,
    /// else the message to pass on, as each kind of screen says.
    pub fn process_message(&mut self, data: &EngineData, bindings: &mut KeyBindings, msg: Msg) -> (r: Option<Msg>)
        requires
            old(self).wf(),
            old(bindings).wf(),
        ensures
            final(self).wf(),
            final(bindings).wf(),
            screen_handled(*old(self), *data, *old(bindings), msg, *final(self), *final(bindings), r),
            covers(*final(self)) == covers(*old(self)),
    {
        match self {
            Screen::Menu(m) => m.process_message(msg),
            Screen::Game(g) => g.process_message(data, bindings, msg),
            Screen::Static(s) => s.process_message(msg),
            Screen::Options(o) => o.process_message(bindings, msg),
        }
    }

    /// Whether the screen hides everything below it.
    pub fn is_fullscreen(&self) -> (r: bool)
        ensures
            r == covers(*self),
    {
        match self {
            Screen::Menu(m) => m.is_fullscreen(),
            Screen::Game(g) => g.is_fullscreen(),
            Screen::Static(s) => s.is_fullscreen(),
            Screen::Options(o) => o.is_fullscreen(),
        }
    }
}

} // verus!
