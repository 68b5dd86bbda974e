//! The coarse phase the game is in.

use vstd::prelude::*;

verus! {

/// Which of the two phases is active. Exactly one value is current at a time.
#[derive(Debug, Clone, Copy, PartialEq, Eq, Hash, Structural)]
pub enum AppState {
    MainMenu,
    InGame,
}

impl Default for AppState {
    /// The game opens on the main menu.
    fn default() -> (state: AppState)
        ensures
            state == AppState::MainMenu,
    {
        AppState::MainMenu
    }
}

} // verus!
