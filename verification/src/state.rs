//! The three states that the status label can show.

use vstd::prelude::*;

verus! {

/// What the player shows of the playback. The audio backend holds the true
/// state; this mirrors it for display.
#[derive(Debug, Clone, Copy, PartialEq, Eq, PartialOrd, Structural)]
pub enum PlayerState {
    Playing,
    Paused,
    Stopped,
}

impl PlayerState {
    /// The text of the status label for this state.
    pub open spec fn label(self) -> Seq<char> {
        match self {
            PlayerState::Playing => "playing"@,
            PlayerState::Paused => "paused"@,
            PlayerState::Stopped => "stopped"@,
        }
    }

    /// The state that a freshly started player shows.
    pub fn initial() -> (state: PlayerState)
        ensures
            state == PlayerState::Stopped,
    {
        PlayerState::Stopped
    }

    /// Returns the text of the status label for this state.
    pub fn as_str(&self) -> (text: &'static str)
        ensures
            text@ == self.label(),
    {
        match self {
            PlayerState::Playing => "playing",
            PlayerState::Paused => "paused",
            PlayerState::Stopped => "stopped",
        }
    }
}

} // verus!
