use vstd::prelude::*;
use crate::msg::{Msg, Key, KEY_UP, KEY_DOWN, KEY_RETURN, KEY_ESCAPE};

verus! {

/// Where a menu stands: centred in the window, or with its top-left corner at a point.
#[derive(Clone, Copy, Debug, PartialEq, Eq, Structural)]
pub enum MenuPosition {
    Centered,
    Pos(u32, u32),
}

/// One choice of a menu: its label and the message it sends.
#[derive(Clone, Debug)]
pub struct MenuItem {
    pub text: String,
    pub msg: Msg,
}

/// A list of choices with one selected, moved with the arrow keys.
#[derive(Clone, Debug)]
pub struct MenuState {
    pub menu_items: Vec<MenuItem>,
    pub currently_selected: usize,
    pub on_escape: Option<Msg>,
    pub position: MenuPosition,
    pub decoration: Option<String>,
    pub is_fullscreen: bool,
    /// A label changed since the menu was last drawn: whoever keeps drawn labels
    /// draws them afresh, then calls `labels_drawn`.
    pub is_dirty: bool,
}

/// The selection after "up": one back, from the first to the last; it stays
/// at zero in an empty menu.
pub open spec fn selected_up(sel: int, len: int) -> int {
    if len == 0 {
        0
    } else if sel == 0 {
        len - 1
    } else {
        sel - 1
    }
}

/// The selection after "down": one on, from the last to the first; it stays
/// at zero in an empty menu.
pub open spec fn selected_down(sel: int, len: int) -> int {
    if len == 0 {
        0
    } else if sel == len - 1 {
        0
    } else {
        sel + 1
    }
}

/// The selection moves round a list of `len` choices: "up" from the first goes to
/// the last, "down" from the last goes to the first, each stays within the list,
/// and one undoes the other.
pub proof fn selection_wraps(sel: int, len: int)
    requires
        0 <= sel < len,
    ensures
        0 <= selected_up(sel, len) < len,
        0 <= selected_down(sel, len) < len,
        selected_up(0, len) == len - 1,
        selected_down(len - 1, len) == 0,
        selected_down(selected_up(sel, len), len) == sel,
        selected_up(selected_down(sel, len), len) == sel,
{
}

/// How a menu handles one message, from `m0` to `m1` with result `r`: ticks and
/// key releases are swallowed, a key press acts as `process_button` says, and
/// anything else passes unchanged. Only the selection ever changes.
pub open spec fn menu_handled(m0: MenuState, msg: Msg, m1: MenuState, r: Option<Msg>) -> bool {
    &&& m1.menu_items@ == m0.menu_items@
    &&& m1.on_escape == m0.on_escape
    &&& m1.is_fullscreen == m0.is_fullscreen
    &&& m1.is_dirty == m0.is_dirty
    &&& m1.position == m0.position
    &&& m1.decoration == m0.decoration
    &&& match msg {
        Msg::Tick(_) | Msg::ButtonReleased(_) => r is None && m1.currently_selected
            == m0.currently_selected,
        Msg::ButtonPressed(k) => {
            &&& m1.currently_selected == if k.0 == KEY_UP {
                selected_up(m0.currently_selected as int, m0.menu_items@.len() as int)
            } else if k.0 == KEY_DOWN {
                selected_down(m0.currently_selected as int, m0.menu_items@.len() as int)
            } else {
                m0.currently_selected as int
            }
            &&& r == if k.0 == KEY_RETURN {
                if m0.menu_items@.len() == 0 { None } else { Some(m0.messages()[m0.currently_selected as int]) }
            } else if k.0 == KEY_ESCAPE {
                m0.on_escape
            } else {
                None
            }
        },
        _ => r == Some(msg) && m1.currently_selected == m0.currently_selected,
    }
}

impl MenuState {
    /// The selection is one of the choices, or zero when there are none.
    pub open spec fn wf(&self) -> bool {
        self.currently_selected < self.menu_items.len() || self.menu_items.len() == 0
            && self.currently_selected == 0
    }

    /// The message each choice sends, in order.
    pub open spec fn messages(&self) -> Seq<Msg> {
        self.menu_items@.map_values(|it: MenuItem| it.msg)
    }

    /// The label of each choice, in order.
    pub open spec fn labels(&self) -> Seq<Seq<char>> {
        self.menu_items@.map_values(|it: MenuItem| it.text@)
    }

    /// A menu of `choices` (label and message) with the first selected.
    pub fn new(
        choices: Vec<(String, Msg)>,
        on_escape: Option<Msg>,
        position: MenuPosition,
        decoration: Option<String>,
        is_fullscreen: bool,
    ) -> (r: MenuState)
        ensures
            r.wf(),
            r.currently_selected == 0,
            r.menu_items.len() == choices.len(),
            r.messages() == choices@.map_values(|c: (String, Msg)| c.1),
            r.labels() == choices@.map_values(|c: (String, Msg)| c.0@),
            r.on_escape == on_escape,
            r.position == position,
            r.decoration == decoration,
            r.is_fullscreen == is_fullscreen,
            !r.is_dirty,
    {
        let mut menu_items: Vec<MenuItem> = Vec::new();
        let mut i: usize = 0;
        while i < choices.len()
            invariant
                i <= choices.len(),
                menu_items.len() == i,
                forall|j: int| 0 <= j < i ==> (#[trigger] menu_items@[j]).msg == choices@[j].1
                    && menu_items@[j].text@ == choices@[j].0@,
            decreases choices.len() - i,
        {
            let text = choices[i].0.clone();
            menu_items.push(MenuItem { text, msg: choices[i].1 });
            i = i + 1;
        }
        let r = MenuState {
            menu_items,
            currently_selected: 0,
            on_escape,
            position,
            decoration,
            is_fullscreen,
            is_dirty: false,
        };
        assert(r.messages() =~= choices@.map_values(|c: (String, Msg)| c.1));
        assert(r.labels() =~= choices@.map_values(|c: (String, Msg)| c.0@));
        r
    }

    /// Gives choice `idx` a new label, to be drawn afresh.
    pub fn change_item_text(&mut self, idx: usize, new_text: String)
        requires
            old(self).wf(),
            idx < old(self).menu_items.len(),
        ensures
            final(self).wf(),
            final(self).labels() == old(self).labels().update(idx as int, new_text@),
            final(self).messages() == old(self).messages(),
            final(self).currently_selected == old(self).currently_selected,
            final(self).on_escape == old(self).on_escape,
            final(self).is_fullscreen == old(self).is_fullscreen,
            final(self).is_dirty,
    {
        let msg = self.menu_items[idx].msg;
        self.menu_items.set(idx, MenuItem { text: new_text, msg });
        self.is_dirty = true;
        assert(self.labels() =~= old(self).labels().update(idx as int, new_text@));
        assert(self.messages() =~= old(self).messages());
    }

    /// A key press: up and down move the selection round the list, return sends
    /// the selected choice's message, escape sends `on_escape`; other keys do nothing.
    pub fn process_button(&mut self, k: Key) -> (r: Option<Msg>)
        requires
            old(self).wf(),
        ensures
            final(self).wf(),
            final(self).menu_items@ == old(self).menu_items@,
            final(self).on_escape == old(self).on_escape,
            final(self).is_fullscreen == old(self).is_fullscreen,
            final(self).is_dirty == old(self).is_dirty,
            final(self).position == old(self).position,
            final(self).decoration == old(self).decoration,
            final(self).currently_selected == if k.0 == KEY_UP {
                selected_up(old(self).currently_selected as int, old(self).menu_items.len() as int)
            } else if k.0 == KEY_DOWN {
                selected_down(old(self).currently_selected as int, old(self).menu_items.len() as int)
            } else {
                old(self).currently_selected as int
            },
            r == if k.0 == KEY_RETURN {
                if old(self).menu_items@.len() == 0 { None } else { Some(old(self).messages()[old(self).currently_selected as int]) }
            } else if k.0 == KEY_ESCAPE {
                old(self).on_escape
            } else {
                None
            },
    {
        if self.menu_items.len() == 0 {
            if k.0 == KEY_ESCAPE {
                return self.on_escape;
            } else {
                return None;
            }
        }
        if k.0 == KEY_UP {
            if self.currently_selected == 0 {
                self.currently_selected = self.menu_items.len() - 1;
            } else {
                self.currently_selected = self.currently_selected - 1;
            }
            None
        } else if k.0 == KEY_DOWN {
            if self.currently_selected == self.menu_items.len() - 1 {
                self.currently_selected = 0;
            } else {
                self.currently_selected = self.currently_selected + 1;
            }
            None
        } else if k.0 == KEY_RETURN {
            Some(self.menu_items[self.currently_selected].msg)
        } else if k.0 == KEY_ESCAPE {
            self.on_escape
        } else {
            None
        }
    }

    /// Handles one message: ticks and key releases are swallowed, key presses go
    /// to `process_button`, anything else passes unchanged.
    pub fn process_message(&mut self, msg: Msg) -> (r: Option<Msg>)
        requires
            old(self).wf(),
        ensures
            final(self).wf(),
            menu_handled(*old(self), msg, *final(self), r),
    {
        match msg {
            Msg::Tick(_) | Msg::ButtonReleased(_) => None,
            Msg::ButtonPressed(k) => self.process_button(k),
            _ => Some(msg),
        }
    }

    /// Records that the labels as they stand have been drawn.
    pub fn labels_drawn(&mut self)
        requires
            old(self).wf(),
        ensures
            final(self).wf(),
            !final(self).is_dirty,
            final(self).menu_items@ == old(self).menu_items@,
            final(self).currently_selected == old(self).currently_selected,
            final(self).on_escape == old(self).on_escape,
            final(self).position == old(self).position,
            final(self).decoration == old(self).decoration,
            final(self).is_fullscreen == old(self).is_fullscreen,
    {
        self.is_dirty = false;
    }

    /// Whether this menu hides the screens below it.
    pub fn is_fullscreen(&self) -> (r: bool)
        ensures
            r == self.is_fullscreen,
    {
        self.is_fullscreen
    }
}

} // verus!
