use vstd::prelude::*;

verus! {

/// A raw key, identified by its keycode as the platform layer reports it.
#[derive(Clone, Copy, Debug, PartialEq, Eq, Structural)]
pub struct Key(pub i32);

/// Keycode of the arrow key "up".
pub const KEY_UP: i32 = 0x4000_0052;
/// Keycode of the arrow key "down".
pub const KEY_DOWN: i32 = 0x4000_0051;
/// Keycode of the arrow key "left".
pub const KEY_LEFT: i32 = 0x4000_0050;
/// Keycode of the arrow key "right".
pub const KEY_RIGHT: i32 = 0x4000_004F;
/// Keycode of the return (enter) key.
pub const KEY_RETURN: i32 = 13;
/// Keycode of the escape key.
pub const KEY_ESCAPE: i32 = 27;
/// Keycode of the letter "p".
pub const KEY_P: i32 = 112;
/// Keycode of the pause key.
pub const KEY_PAUSE: i32 = 0x4000_0048;

/// Message type: the one unit of communication between input, screens and engine.
#[derive(Clone, Copy, Debug, PartialEq, Eq, Structural)]
pub enum Msg {
    NoOp,
    Exit,
    Tick(u32),
    StartGame,
    MenuCommand(MenuMsg),
    ButtonPressed(Key),
    ButtonReleased(Key),
    Command(GameCommand),
    PopState(usize),
    ShowGameOver,
    ShowWinScreen,
    ShowCredits,
    ShowOptions,
    OptionsSelect(Movement),
    OptionsSet(Key),
}

#[derive(Clone, Copy, Debug, PartialEq, Eq, Structural)]
pub enum MenuMsg {
    ToMainMenu,
    ShowGameMenu,
    ResumeGame,
}

#[derive(Clone, Copy, Debug, PartialEq, Eq, Structural)]
pub enum GameCommand {
    StartMovement(Movement),
    StopMovement(Movement),
    Pause,
    Resume,
    Menu,
}

#[derive(Clone, Copy, Debug, PartialEq, Eq, Structural)]
pub enum Movement {
    Up,
    Down,
    Left,
    Right,
}

/// The display name of a movement.
pub open spec fn movement_name(m: Movement) -> Seq<char> {
    match m {
        Movement::Up => "Up"@,
        Movement::Down => "Down"@,
        Movement::Left => "Left"@,
        Movement::Right => "Right"@,
    }
}

impl Movement {
    /// The name shown for this movement ("Up", "Down", "Left", "Right").
    pub fn name(&self) -> (r: &'static str)
        ensures
            r@ == movement_name(*self),
    {
        match *self {
            Movement::Up => "Up",
            Movement::Down => "Down",
            Movement::Left => "Left",
            Movement::Right => "Right",
        }
    }
}

} // verus!
