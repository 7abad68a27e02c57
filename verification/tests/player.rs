use music_player::dispatch::{
    apply_action, dispatch, next_status, pause_button, play_button, stop_button, SinkCommand,
    Transition,
};
use music_player::state::PlayerState;

#[test]
fn labels_are_lower_case_names() {
    assert_eq!(PlayerState::Playing.as_str(), "playing");
    assert_eq!(PlayerState::Paused.as_str(), "paused");
    assert_eq!(PlayerState::Stopped.as_str(), "stopped");
}

#[test]
fn player_starts_stopped() {
    assert_eq!(PlayerState::initial(), PlayerState::Stopped);
    assert_eq!(PlayerState::initial().as_str(), "stopped");
}

#[test]
fn tokens_map_to_backend_calls() {
    assert_eq!(apply_action("play"), Some(SinkCommand::Play));
    assert_eq!(apply_action("pause"), Some(SinkCommand::Pause));
    assert_eq!(apply_action("stop"), Some(SinkCommand::Stop));
    assert_eq!(apply_action("seek"), None);
    assert_eq!(apply_action(""), None);
    assert_eq!(apply_action("PLAY"), None);
    assert_eq!(apply_action("play "), None);
}

#[test]
fn pause_reaches_paused_from_every_state() {
    for status in ["playing", "paused", "stopped", "", "anything"] {
        assert_eq!(next_status(status, "pause"), "paused");
        assert_eq!(
            dispatch(status, "pause"),
            Some(Transition { status: PlayerState::Paused, command: SinkCommand::Pause })
        );
    }
}

#[test]
fn stop_reaches_stopped_from_every_state() {
    for status in ["playing", "paused", "stopped", "", "anything"] {
        assert_eq!(next_status(status, "stop"), "stopped");
        assert_eq!(
            dispatch(status, "stop"),
            Some(Transition { status: PlayerState::Stopped, command: SinkCommand::Stop })
        );
    }
}

#[test]
fn stop_twice_stays_stopped() {
    let first = next_status("playing", "stop");
    assert_eq!(first, "stopped");
    let second = next_status(&first, "stop");
    assert_eq!(second, "stopped");
}

#[test]
fn play_toggles_between_playing_and_paused() {
    let first = next_status("stopped", "play");
    assert_eq!(first, "playing");
    let second = next_status(&first, "play");
    assert_eq!(second, "paused");
    let third = next_status(&second, "play");
    assert_eq!(third, "playing");
}

#[test]
fn play_sends_the_matching_backend_call() {
    assert_eq!(
        dispatch("stopped", "play"),
        Some(Transition { status: PlayerState::Playing, command: SinkCommand::Play })
    );
    assert_eq!(
        dispatch("playing", "play"),
        Some(Transition { status: PlayerState::Paused, command: SinkCommand::Pause })
    );
    assert_eq!(
        dispatch("Playing", "play"),
        Some(Transition { status: PlayerState::Playing, command: SinkCommand::Play })
    );
}

#[test]
fn unknown_tokens_change_nothing() {
    for status in ["playing", "paused", "stopped"] {
        for action in ["seek", "", "PLAY"] {
            assert_eq!(dispatch(status, action), None);
            assert_eq!(next_status(status, action), status);
        }
    }
}

#[test]
fn buttons_give_their_transitions() {
    assert_eq!(
        play_button("playing"),
        Transition { status: PlayerState::Paused, command: SinkCommand::Pause }
    );
    assert_eq!(
        play_button("paused"),
        Transition { status: PlayerState::Playing, command: SinkCommand::Play }
    );
    assert_eq!(
        play_button("stopped"),
        Transition { status: PlayerState::Playing, command: SinkCommand::Play }
    );
    assert_eq!(
        pause_button(),
        Transition { status: PlayerState::Paused, command: SinkCommand::Pause }
    );
    assert_eq!(
        stop_button(),
        Transition { status: PlayerState::Stopped, command: SinkCommand::Stop }
    );
}
