//! From a button's action token to the next status and the backend call.

use vstd::prelude::*;
use crate::state::PlayerState;

verus! {

/// A call on the audio backend's playback handle.
#[derive(Debug, Clone, Copy, PartialEq, Eq, Structural)]
pub enum SinkCommand {
    Play,
    Pause,
    Stop,
}

/// What one button event leads to: the status to show and the call to make.
#[derive(Debug, Clone, Copy, PartialEq, Eq, Structural)]
pub struct Transition {
    pub status: PlayerState,
    pub command: SinkCommand,
}

/// The backend call that an action token stands for by itself.
pub open spec fn command_for(action: Seq<char>) -> Option<SinkCommand> {
    if action == "play"@ {
        Some(SinkCommand::Play)
    } else if action == "pause"@ {
        Some(SinkCommand::Pause)
    } else if action == "stop"@ {
        Some(SinkCommand::Stop)
    } else {
        None
    }
}

/// The play button toggles: a player that shows "playing" is paused, any
/// other is set playing.
pub open spec fn toggled(status: Seq<char>) -> Transition {
    if status == PlayerState::Playing.label() {
        Transition { status: PlayerState::Paused, command: SinkCommand::Pause }
    } else {
        Transition { status: PlayerState::Playing, command: SinkCommand::Play }
    }
}

/// The transition that `action` causes in a player showing `status`, or
/// `None` for a token that is not an action.
pub open spec fn step(status: Seq<char>, action: Seq<char>) -> Option<Transition> {
    match command_for(action) {
        Some(SinkCommand::Play) => Some(toggled(status)),
        Some(SinkCommand::Pause) => Some(
            Transition { status: PlayerState::Paused, command: SinkCommand::Pause },
        ),
        Some(SinkCommand::Stop) => Some(
            Transition { status: PlayerState::Stopped, command: SinkCommand::Stop },
        ),
        None => None,
    }
}

/// The status label after `action` arrived at a player showing `status`.
pub open spec fn status_after(status: Seq<char>, action: Seq<char>) -> Seq<char> {
    match step(status, action) {
        Some(t) => t.status.label(),
        None => status,
    }
}

/// Whether two texts hold the same characters.
fn same_text(a: &str, b: &str) -> (same: bool)
    ensures
        same == (a@ == b@),
{
    let left = a.to_owned();
    let right = b.to_owned();
    left == right
}

/// Maps an action token to the backend call of the same name.
pub fn apply_action(action: &str) -> (command: Option<SinkCommand>)
    ensures
        command == command_for(action@),
{
    if same_text(action, "play") {
        Some(SinkCommand::Play)
    } else if same_text(action, "pause") {
        Some(SinkCommand::Pause)
    } else if same_text(action, "stop") {
        Some(SinkCommand::Stop)
    } else {
        None
    }
}

/// The play button, pressed while the label shows `status`.
pub fn play_button(status: &str) -> (t: Transition)
    ensures
        t == toggled(status@),
{
    if same_text(status, PlayerState::Playing.as_str()) {
        Transition { status: PlayerState::Paused, command: SinkCommand::Pause }
    } else {
        Transition { status: PlayerState::Playing, command: SinkCommand::Play }
    }
}

/// The pause button: whatever was shown, the player is paused.
pub fn pause_button() -> (t: Transition)
    ensures
        t == (Transition { status: PlayerState::Paused, command: SinkCommand::Pause }),
{
    Transition { status: PlayerState::Paused, command: SinkCommand::Pause }
}

/// The stop button: whatever was shown, the player is stopped.
pub fn stop_button() -> (t: Transition)
    ensures
        t == (Transition { status: PlayerState::Stopped, command: SinkCommand::Stop }),
{
    Transition { status: PlayerState::Stopped, command: SinkCommand::Stop }
}

/// Handles one event of the window: `action` arrived while the label shows
/// `status`. A token that is no action is ignored.
pub fn dispatch(status: &str, action: &str) -> (outcome: Option<Transition>)
    ensures
        outcome == step(status@, action@),
{
    match apply_action(action) {
        Some(SinkCommand::Play) => Some(play_button(status)),
        Some(SinkCommand::Pause) => Some(pause_button()),
        Some(SinkCommand::Stop) => Some(stop_button()),
        None => None,
    }
}

/// The text of the status label once `action` has been handled: the new
/// state's label, or `status` as it was for a token that is no action.
pub fn next_status(status: &str, action: &str) -> (shown: String)
    ensures
        shown@ == status_after(status@, action@),
{
    match dispatch(status, action) {
        Some(t) => t.status.as_str().to_owned(),
        None => status.to_owned(),
    }
}

/// The three action tokens are three different texts.
pub proof fn lemma_tokens_distinct()
    ensures
        "play"@ != "pause"@,
        "play"@ != "stop"@,
        "pause"@ != "stop"@,
{
    reveal_strlit("play");
    reveal_strlit("pause");
    reveal_strlit("stop");
    assert("play"@.len() == 4 && "pause"@.len() == 5 && "stop"@.len() == 4);
    assert("play"@[0] == 'p' && "stop"@[0] == 's');
}

/// After an action the label shows that action's target: "pause" gives
/// "paused", "stop" gives "stopped", and "play" gives "paused" where the
/// label showed "playing" and "playing" everywhere else.
pub proof fn lemma_action_reaches_target(status: Seq<char>, action: Seq<char>)
    ensures
        action == "pause"@ ==> status_after(status, action) == "paused"@,
        action == "stop"@ ==> status_after(status, action) == "stopped"@,
        action == "play"@ && status == "playing"@ ==> status_after(status, action) == "paused"@,
        action == "play"@ && status != "playing"@ ==> status_after(status, action) == "playing"@,
{
    lemma_tokens_distinct();
}

/// Stopping twice is stopping once: the label shows "stopped" after the
/// first "stop" and after the second.
pub proof fn lemma_stop_idempotent(status: Seq<char>)
    ensures
        status_after(status, "stop"@) == "stopped"@,
        status_after(status_after(status, "stop"@), "stop"@) == "stopped"@,
{
    lemma_tokens_distinct();
}

/// From any label but "playing", "play" leads to "playing", and a second
/// "play" leads on to "paused".
pub proof fn lemma_play_toggles(status: Seq<char>)
    requires
        status != "playing"@,
    ensures
        status_after(status, "play"@) == "playing"@,
        status_after(status_after(status, "play"@), "play"@) == "paused"@,
{
    lemma_tokens_distinct();
}

/// A token other than the three actions changes nothing and asks nothing of
/// the backend.
pub proof fn lemma_unknown_ignored(status: Seq<char>, action: Seq<char>)
    requires
        action != "play"@,
        action != "pause"@,
        action != "stop"@,
    ensures
        step(status, action).is_none(),
        status_after(status, action) == status,
{
}

} // verus!
