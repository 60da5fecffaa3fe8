use vstd::prelude::*;
use crate::command::Command;
use crate::game::Game;

verus! {

/// An interface for types that can present the game and collect input.
pub trait UI {
    /// Initializes the UI once, before the loop starts.
    fn init(&mut self, game: &Game);

    /// Renders one UI cycle.
    fn render(&mut self, game: &Game);

    /// Restores the UI (closes windows, etc) and reports the final state.
    fn shutdown(&mut self, game: &Game);

    /// Waits up to `wait_ms` milliseconds for a game command, returning
    /// `None` on timeout or unrecognized input.
    fn get_command(&self, wait_ms: u64) -> Option<Command>;
}

} // verus!
