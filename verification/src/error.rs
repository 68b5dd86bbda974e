//! What can go wrong while the game is stepped.

use vstd::prelude::*;
use crate::player::Player;
use crate::units::WindowSize;

verus! {

/// The two failures the game knows.
#[derive(Debug, Clone, Copy, PartialEq, Eq, Structural)]
pub enum GameError {
    /// A rule needed the size of the primary window and there was none.
    MissingWindow,
    /// A paddle of this identity was to be spawned while one already exists.
    DuplicatePlayer(Player),
}

impl GameError {
    /// A line of text for the diagnostics of whoever drives the game.
    pub fn message(&self) -> (text: &'static str)
        ensures
            text@ == self.message_text(),
    {
        match self {
            GameError::MissingWindow => "No primary window to take the field size from",
            GameError::DuplicatePlayer(_) => "Can not create the same player twice",
        }
    }

    /// The characters of [`GameError::message`].
    pub open spec fn message_text(&self) -> Seq<char> {
        match self {
            GameError::MissingWindow => "No primary window to take the field size from"@,
            GameError::DuplicatePlayer(_) => "Can not create the same player twice"@,
        }
    }
}

/// What a rule that reads the size of the window reports: the window must
/// be there.
pub open spec fn need_window(window: Option<WindowSize>) -> Result<(), GameError> {
    match window {
        Some(_) => Ok(()),
        None => Err(GameError::MissingWindow),
    }
}

/// The first failure of two steps taken one after the other, if any.
pub open spec fn first_failure(
    first: Result<(), GameError>,
    second: Result<(), GameError>,
) -> Result<(), GameError> {
    if first is Err {
        first
    } else {
        second
    }
}

} // verus!
