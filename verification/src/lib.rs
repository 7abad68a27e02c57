//! The decision logic of a small desktop music player.
//!
//! The player shows one track: its title, artist, album and cover art, and a
//! status label that follows the play, pause and stop buttons. This library
//! holds what the player decides and computes; opening the window and
//! driving the audio device is left to the program around it.

pub mod state;
pub mod dispatch;
pub mod cover;
pub mod metadata;
