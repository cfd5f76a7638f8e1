use vstd::prelude::*;
use crate::bindings::KeyBindings;
use crate::menu::{MenuState, MenuPosition, selected_up, selected_down};
use crate::msg::{Msg, Movement, Key, KEY_UP, KEY_DOWN, KEY_RETURN, KEY_ESCAPE};

verus! {

/// The movement of each line of the options menu, top to bottom.
pub open spec fn movement_at(i: int) -> Movement {
    if i == 0 {
        Movement::Up
    } else if i == 1 {
        Movement::Down
    } else if i == 2 {
        Movement::Left
    } else {
        Movement::Right
    }
}

/// The screen where the movement keys are chosen: a menu of the four
/// directions; choosing one waits for the next key press and binds it.
#[derive(Clone, Debug)]
pub struct OptionsState {
    pub menu: MenuState,
    /// Shown while waiting for a key.
    pub prompt: String,
    /// The direction waiting for its new key.
    pub current_receiver: Option<Movement>,
    /// The shown keys are out of date.
    pub is_dirty: bool,
    /// The key shown beside each direction, in menu order.
    pub shown_keys: Vec<Option<Key>>,
}

/// How the options screen handles one message, from `o0` and key table `b0` to
/// `o1` and `b1` with result `r`. Ticks and key releases are swallowed. While a
/// direction waits, a key press comes back as `OptionsSet` of that key;
/// otherwise it goes to the menu. `OptionsSelect` starts waiting; `OptionsSet`
/// binds the key to the waiting direction. Anything else passes unchanged.
pub open spec fn options_handled(o0: OptionsState, b0: KeyBindings, msg: Msg, o1: OptionsState, b1: KeyBindings, r: Option<Msg>) -> bool {
    &&& o1.menu.menu_items@ == o0.menu.menu_items@
    &&& o1.menu.on_escape == o0.menu.on_escape
    &&& o1.menu.is_fullscreen == o0.menu.is_fullscreen
    &&& o1.prompt@ == o0.prompt@
    &&& o1.shown_keys@ == o0.shown_keys@
    &&& (msg is OptionsSet ==> o1.menu.currently_selected == o0.menu.currently_selected)
    &&& match msg {
        Msg::Tick(_) | Msg::ButtonReleased(_) => r is None && b1 == b0
            && o1.current_receiver == o0.current_receiver,
        Msg::ButtonPressed(k) => if o0.current_receiver is Some {
            &&& r == Some(Msg::OptionsSet(k))
            &&& o1.current_receiver == o0.current_receiver
            &&& b1 == b0
        } else {
            &&& b1 == b0
            &&& o1.current_receiver is None
            &&& o1.menu.currently_selected == if k.0 == KEY_UP {
                selected_up(o0.menu.currently_selected as int, 4)
            } else if k.0 == KEY_DOWN {
                selected_down(o0.menu.currently_selected as int, 4)
            } else {
                o0.menu.currently_selected as int
            }
            &&& r == if k.0 == KEY_RETURN {
                Some(Msg::OptionsSelect(movement_at(o0.menu.currently_selected as int)))
            } else if k.0 == KEY_ESCAPE {
                o0.menu.on_escape
            } else {
                None
            }
        },
        Msg::OptionsSelect(m) => r is None && o1.current_receiver == Some(m)
            && b1 == b0,
        Msg::OptionsSet(k) => {
            &&& r is None
            &&& o1.current_receiver is None
            &&& match o0.current_receiver {
                Some(m) => {
                    &&& b1.key_of(m) == Some(k)
                    &&& o1.is_dirty
                    &&& forall|m2: Movement|
                        m2 != m ==> #[trigger] b1.key_of(m2) == if b0.key_of(m2) == Some(k) {
                            None
                        } else {
                            b0.key_of(m2)
                        }
                },
                None => b1 == b0,
            }
        },
        _ => r == Some(msg) && b1 == b0
            && o1.current_receiver == o0.current_receiver
    }
}

impl OptionsState {
    pub open spec fn wf(&self) -> bool {
        &&& self.menu.wf()
        &&& self.menu.menu_items.len() == 4
        &&& self.menu.on_escape == Some(Msg::PopState(1))
        &&& self.shown_keys.len() == 4
        &&& forall|i: int| 0 <= i < 4 ==> (#[trigger] self.menu.messages()[i]) == Msg::OptionsSelect(movement_at(i))
    }

    /// The four directions, the first selected; escape leaves the screen.
    pub fn new() -> (r: OptionsState)
        ensures
            r.wf(),
            r.current_receiver is None,
            r.is_dirty,
            r.menu.currently_selected == 0,
            r.menu.on_escape == Some(Msg::PopState(1)),
            r.menu.is_fullscreen,
    {
        let choices = vec![
            ("Up    ".to_owned(), Msg::OptionsSelect(Movement::Up)),
            ("Down  ".to_owned(), Msg::OptionsSelect(Movement::Down)),
            ("Left  ".to_owned(), Msg::OptionsSelect(Movement::Left)),
            ("Right ".to_owned(), Msg::OptionsSelect(Movement::Right)),
        ];
        let ghost msgs = choices@.map_values(|c: (String, Msg)| c.1);
        assert(msgs.len() == 4);
        assert(msgs[0] == Msg::OptionsSelect(Movement::Up));
        assert(msgs[1] == Msg::OptionsSelect(Movement::Down));
        assert(msgs[2] == Msg::OptionsSelect(Movement::Left));
        assert(msgs[3] == Msg::OptionsSelect(Movement::Right));
        let menu = MenuState::new(
            choices,
            Some(Msg::PopState(1)),
            MenuPosition::Centered,
            Some("Options".to_owned()),
            true,
        );
        let r = OptionsState {
            menu,
            prompt: "Press new control".to_owned(),
            current_receiver: None,
            is_dirty: true,
            shown_keys: vec![None, None, None, None],
        };
        assert(r.menu.messages() == msgs);
        assert(r.menu.menu_items@.len() == r.menu.messages().len());
        r
    }

    /// Shows beside each direction the key now bound to it.
    pub fn update_mappings(&mut self, bindings: &KeyBindings)
        requires
            old(self).wf(),
        ensures
            final(self).wf(),
            !final(self).is_dirty,
            forall|i: int| 0 <= i < 4 ==> #[trigger] final(self).shown_keys@[i] == bindings.key_of(movement_at(i)),
            final(self).menu.menu_items@ == old(self).menu.menu_items@,
            final(self).menu.currently_selected == old(self).menu.currently_selected,
            final(self).current_receiver == old(self).current_receiver,
    {
        self.shown_keys = vec![
            bindings.key_for(Movement::Up),
            bindings.key_for(Movement::Down),
            bindings.key_for(Movement::Left),
            bindings.key_for(Movement::Right),
        ];
        self.is_dirty = false;
    }

    /// Binds `k` to `m` (see `KeyBindings::remap`) and marks the shown keys out of date.
    pub fn remap_key(&mut self, bindings: &mut KeyBindings, m: Movement, k: Key) -> (r: Option<Msg>)
        requires
            old(self).wf(),
            old(bindings).wf(),
        ensures
            r is None,
            final(self).wf(),
            final(self).is_dirty,
            final(bindings).wf(),
            final(bindings).key_of(m) == Some(k),
            forall|m2: Movement|
                m2 != m ==> #[trigger] final(bindings).key_of(m2) == if old(bindings).key_of(m2) == Some(k) {
                    None
                } else {
                    old(bindings).key_of(m2)
                },
            final(self).menu.menu_items@ == old(self).menu.menu_items@,
            final(self).menu.currently_selected == old(self).menu.currently_selected,
            final(self).menu.on_escape == old(self).menu.on_escape,
            final(self).menu.is_fullscreen == old(self).menu.is_fullscreen,
            final(self).prompt@ == old(self).prompt@,
            final(self).shown_keys@ == old(self).shown_keys@,
            final(self).current_receiver == old(self).current_receiver,
    {
        bindings.remap(m, k);
        self.is_dirty = true;
        None
    }

    /// Handles one message. Ticks and key releases are swallowed. While a
    /// direction waits, a key press comes back as `OptionsSet` of that key;
    /// otherwise it goes to the menu. `OptionsSelect` starts waiting;
    /// `OptionsSet` binds the key to the waiting direction. Anything else passes.
    pub fn process_message(&mut self, bindings: &mut KeyBindings, msg: Msg) -> (r: Option<Msg>)
        requires
            old(self).wf(),
            old(bindings).wf(),
        ensures
            final(self).wf(),
            final(bindings).wf(),
            options_handled(*old(self), *old(bindings), msg, *final(self), *final(bindings), r),
    {
        match msg {
            Msg::Tick(_) | Msg::ButtonReleased(_) => None,
            Msg::ButtonPressed(k) => {
                if self.current_receiver.is_some() {
                    Some(Msg::OptionsSet(k))
                } else {
                    self.menu.process_message(msg)
                }
            },
            Msg::OptionsSelect(m) => {
                self.current_receiver = Some(m);
                None
            },
            Msg::OptionsSet(k) => {
                match self.current_receiver {
                    Some(m) => {
                        self.current_receiver = None;
                        self.remap_key(bindings, m, k)
                    },
                    None => None,
                }
            },
            _ => Some(msg),
        }
    }

    /// Whether this screen hides the screens below it: always.
    pub fn is_fullscreen(&self) -> (r: bool)
        ensures
            r,
    {
        true
    }
}

} // verus!
