use vstd::prelude::*;

verus! {

/// The phases of a game.
#[derive(Clone, Copy, Debug, PartialEq, Eq, Hash, Structural)]
pub enum GameState {
    Startup,
    Playing,
    GameOver,
}

pub struct Score {
    pub value: i32,
    pub max: i32,
}

pub struct CurrentLevel {
    pub name: String,
}

pub struct PerfDebug {
    pub spotlight_updates: i32,
}

/// What the start screen does with the keys pressed this frame.
#[derive(Clone, Copy, Debug, PartialEq, Eq, Structural)]
pub struct StartgameAction {
    /// Switch to `GameState::Playing`.
    pub start_playing: bool,
    /// Quit the application.
    pub exit: bool,
}

/// Space starts the game, Escape quits; both may happen in one frame.
pub fn startgame_action(space_pressed: bool, escape_pressed: bool) -> (r: StartgameAction)
    ensures
        r.start_playing == space_pressed,
        r.exit == escape_pressed,
{
    StartgameAction { start_playing: space_pressed, exit: escape_pressed }
}

} // verus!
