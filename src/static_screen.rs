use vstd::prelude::*;
use crate::font::RenderableText;
use crate::msg::Msg;

verus! {

/// A screen of text lines shown for at least `time_left` milliseconds; after
/// that any key press sends `next_msg`.
#[derive(Clone, Debug)]
pub struct StaticState {
    pub time_left: i64,
    pub skippable: bool,
    pub lines: Vec<RenderableText>,
    pub next_msg: Msg,
    /// The lines are set in the large font.
    pub large_text: bool,
}

/// The countdown may run below zero by at most one tick.
pub open spec fn countdown_ok(time_left: int, skippable: bool) -> bool {
    &&& time_left >= -(u32::MAX as int)
    &&& time_left <= u32::MAX
    &&& (!skippable ==> time_left >= 0)
}

/// How a text screen handles one message, from `s0` to `s1` with result `r`: a
/// tick counts down until the screen may be skipped, a key press on a skippable
/// screen sends `next_msg`, and every message is swallowed.
pub open spec fn static_handled(s0: StaticState, msg: Msg, s1: StaticState, r: Option<Msg>) -> bool {
    &&& s1.lines@ == s0.lines@
    &&& s1.next_msg == s0.next_msg
    &&& match msg {
        Msg::Tick(dt) => {
            &&& r is None
            &&& if s0.skippable {
                s1.time_left == s0.time_left && s1.skippable
            } else {
                &&& s1.time_left == s0.time_left - dt
                &&& s1.skippable == (s0.time_left - dt <= 0)
            }
        },
        Msg::ButtonPressed(_) => {
            &&& r == if s0.skippable { Some(s0.next_msg) } else { None }
            &&& s1.time_left == s0.time_left
            &&& s1.skippable == s0.skippable
        },
        _ => {
            &&& r is None
            &&& s1.time_left == s0.time_left
            &&& s1.skippable == s0.skippable
        }
    }
}

impl StaticState {
    pub open spec fn wf(&self) -> bool {
        countdown_ok(self.time_left as int, self.skippable)
    }

    /// The lines, shown for `pause` milliseconds before `next` may be sent.
    pub fn new(lines: Vec<RenderableText>, pause: u32, next: Msg) -> (r: StaticState)
        ensures
            r.time_left == pause,
            !r.skippable,
            r.lines@ == lines@,
            r.next_msg == next,
            !r.large_text,
            r.wf(),
    {
        StaticState { time_left: pause as i64, skippable: false, lines, next_msg: next, large_text: false }
    }

    /// Handles one message: a tick counts down until the screen may be skipped; a
    /// key press on a skippable screen sends `next_msg`; everything is swallowed.
    pub fn process_message(&mut self, msg: Msg) -> (r: Option<Msg>)
        requires
            old(self).wf(),
        ensures
            final(self).wf(),
            static_handled(*old(self), msg, *final(self), r),
    {
        match msg {
            Msg::Tick(dt) => {
                if !self.skippable {
                    self.time_left = self.time_left - dt as i64;
                    self.skippable = self.time_left <= 0;
                }
                None
            },
            Msg::ButtonPressed(_) => {
                if self.skippable {
                    Some(self.next_msg)
                } else {
                    None
                }
            },
            _ => None,
        }
    }

    /// Whether this screen hides the screens below it: always.
    pub fn is_fullscreen(&self) -> (r: bool)
        ensures
            r,
    {
        true
    }
}

} // verus!
