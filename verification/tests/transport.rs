use rustysound::model::RepeatMode;
use rustysound::transport::{
    details_can_skip, details_loop_mode, details_next_action, details_prev_action, bookmark_due, bookmark_limit, next_button_action, next_repeat_mode, parse_remote_command,
    prev_button_action, remote_action, repeat_mode_from_name, repeat_mode_name, EndedTracker, PlayStateSync, RemoteCommand,
    TransportAction, PAUSED_BOOKMARK_GAP_MS, PLAYING_BOOKMARK_GAP_MS,
};

#[test]
fn repeat_button_cycles_through_three_modes() {
    assert_eq!(next_repeat_mode(RepeatMode::Off), RepeatMode::All);
    assert_eq!(next_repeat_mode(RepeatMode::All), RepeatMode::One);
    assert_eq!(next_repeat_mode(RepeatMode::One), RepeatMode::Off);
    for mode in [RepeatMode::Off, RepeatMode::All, RepeatMode::One] {
        assert_eq!(next_repeat_mode(next_repeat_mode(next_repeat_mode(mode))), mode);
    }
}

#[test]
fn repeat_mode_names() {
    assert_eq!(repeat_mode_name(RepeatMode::Off), "off");
    assert_eq!(repeat_mode_name(RepeatMode::All), "all");
    assert_eq!(repeat_mode_name(RepeatMode::One), "one");
    for mode in [RepeatMode::Off, RepeatMode::All, RepeatMode::One] {
        assert_eq!(repeat_mode_from_name(repeat_mode_name(mode)), mode);
    }
    assert_eq!(repeat_mode_from_name("shuffle"), RepeatMode::Off);
}

#[test]
fn next_button_moves_forward_and_wraps_under_repeat_all() {
    assert_eq!(
        next_button_action(false, true, RepeatMode::Off, false, 0, 3),
        TransportAction::Select { index: 1, playing: true }
    );
    assert_eq!(next_button_action(false, true, RepeatMode::Off, false, 2, 3), TransportAction::Stay);
    assert_eq!(
        next_button_action(false, false, RepeatMode::All, false, 2, 3),
        TransportAction::Select { index: 0, playing: false }
    );
    assert_eq!(
        next_button_action(false, true, RepeatMode::One, false, 1, 3),
        TransportAction::Restart { playing: true }
    );
    assert_eq!(next_button_action(true, true, RepeatMode::All, false, 0, 3), TransportAction::Stay);
}

#[test]
fn next_button_under_shuffle_generates_a_queue_at_the_end() {
    assert_eq!(
        next_button_action(false, true, RepeatMode::Off, true, 2, 3),
        TransportAction::GenerateQueue { playing: true }
    );
    assert_eq!(
        next_button_action(false, false, RepeatMode::Off, true, 0, 0),
        TransportAction::GenerateQueue { playing: false }
    );
    assert_eq!(
        next_button_action(false, true, RepeatMode::Off, true, 0, 3),
        TransportAction::Select { index: 1, playing: true }
    );
}

#[test]
fn previous_button_never_wraps() {
    assert_eq!(
        prev_button_action(false, true, 2, 3),
        TransportAction::Select { index: 1, playing: true }
    );
    assert_eq!(prev_button_action(false, true, 0, 3), TransportAction::Stay);
    assert_eq!(prev_button_action(true, true, 2, 3), TransportAction::Stay);
    assert_eq!(prev_button_action(false, true, 5, 3), TransportAction::Stay);
}

#[test]
fn remote_commands_are_parsed() {
    assert!(matches!(parse_remote_command("toggle_play"), RemoteCommand::TogglePlay));
    assert!(matches!(parse_remote_command("playpause"), RemoteCommand::TogglePlay));
    assert!(matches!(parse_remote_command("play"), RemoteCommand::Play));
    assert!(matches!(parse_remote_command("pause"), RemoteCommand::Pause));
    assert!(matches!(parse_remote_command("next"), RemoteCommand::Next));
    assert!(matches!(parse_remote_command("previous"), RemoteCommand::Previous));
    assert!(matches!(parse_remote_command("ended"), RemoteCommand::Ended));
    assert!(matches!(parse_remote_command("rewind"), RemoteCommand::Unknown));
    match parse_remote_command("seek:12.5") {
        RemoteCommand::Seek { target } => assert_eq!(target, "12.5"),
        other => panic!("unexpected {:?}", other),
    }
}

#[test]
fn remote_next_and_previous_resume_playback() {
    let next = RemoteCommand::Next;
    let previous = RemoteCommand::Previous;
    assert_eq!(
        remote_action(&next, false, false, RepeatMode::Off, false, 0, 3),
        TransportAction::Select { index: 1, playing: true }
    );
    assert_eq!(
        remote_action(&next, false, true, RepeatMode::Off, false, 2, 3),
        TransportAction::Restart { playing: false }
    );
    assert_eq!(
        remote_action(&next, false, true, RepeatMode::Off, false, 0, 1),
        TransportAction::GenerateQueue { playing: true }
    );
    assert_eq!(
        remote_action(&next, false, true, RepeatMode::Off, false, 0, 0),
        TransportAction::GenerateQueue { playing: true }
    );
    assert_eq!(
        remote_action(&previous, false, false, RepeatMode::All, false, 0, 4),
        TransportAction::Select { index: 3, playing: true }
    );
    assert_eq!(
        remote_action(&previous, false, false, RepeatMode::Off, false, 0, 4),
        TransportAction::Restart { playing: true }
    );
    assert_eq!(remote_action(&previous, true, false, RepeatMode::Off, false, 2, 4), TransportAction::Stay);
}

#[test]
fn remote_play_state_commands() {
    assert_eq!(
        remote_action(&RemoteCommand::TogglePlay, false, true, RepeatMode::Off, false, 0, 1),
        TransportAction::SetPlaying { playing: false }
    );
    assert_eq!(
        remote_action(&RemoteCommand::Play, false, false, RepeatMode::Off, false, 0, 1),
        TransportAction::SetPlaying { playing: true }
    );
    assert_eq!(
        remote_action(&RemoteCommand::Pause, false, true, RepeatMode::Off, false, 0, 1),
        TransportAction::SetPlaying { playing: false }
    );
    assert_eq!(
        remote_action(&RemoteCommand::Ended, false, true, RepeatMode::Off, false, 0, 1),
        TransportAction::Stay
    );
}

#[test]
fn an_end_is_handled_once() {
    let mut tracker = EndedTracker::new();
    let id = Some("a".to_string());
    let first = tracker.on_ended(&id, false, true, RepeatMode::Off, false, 0, 3);
    assert!(first.scrobble);
    assert_eq!(first.action, TransportAction::Select { index: 1, playing: true });
    let again = tracker.on_ended(&id, false, true, RepeatMode::Off, false, 0, 3);
    assert!(!again.scrobble);
    assert_eq!(again.action, TransportAction::Stay);
    tracker.on_not_ended();
    let after_poll = tracker.on_ended(&id, false, true, RepeatMode::Off, false, 0, 3);
    assert!(after_poll.scrobble);
}

#[test]
fn repeat_one_replays_once_then_stops() {
    let mut tracker = EndedTracker::new();
    let id = Some("a".to_string());
    let first = tracker.on_ended(&id, false, true, RepeatMode::One, false, 0, 3);
    assert_eq!(first.action, TransportAction::Restart { playing: true });
    tracker.on_not_ended();
    let second = tracker.on_ended(&id, false, true, RepeatMode::One, false, 0, 3);
    assert_eq!(second.action, TransportAction::SetPlaying { playing: false });
    assert!(second.scrobble);
}

#[test]
fn end_of_queue_follows_repeat_and_shuffle() {
    let id = Some("z".to_string());
    let mut t = EndedTracker::new();
    assert_eq!(
        t.on_ended(&id, false, true, RepeatMode::All, false, 2, 3).action,
        TransportAction::Select { index: 0, playing: true }
    );
    let mut t = EndedTracker::new();
    assert_eq!(
        t.on_ended(&id, false, true, RepeatMode::Off, true, 2, 3).action,
        TransportAction::GenerateQueue { playing: true }
    );
    let mut t = EndedTracker::new();
    assert_eq!(
        t.on_ended(&id, false, true, RepeatMode::Off, false, 2, 3).action,
        TransportAction::SetPlaying { playing: false }
    );
    let mut t = EndedTracker::new();
    assert_eq!(
        t.on_ended(&id, false, true, RepeatMode::Off, false, 0, 0).action,
        TransportAction::SetPlaying { playing: false }
    );
}

#[test]
fn preview_end_does_nothing() {
    let mut t = EndedTracker::new();
    let outcome = t.on_ended(&Some("p".to_string()), true, true, RepeatMode::All, false, 0, 3);
    assert!(!outcome.scrobble);
    assert_eq!(outcome.action, TransportAction::Stay);
}

#[test]
fn three_paused_polls_stop_playback() {
    let mut s = PlayStateSync::new();
    assert_eq!(s.observe(true, true, false, true, true), None);
    assert_eq!(s.observe(true, true, false, true, true), None);
    assert_eq!(s.observe(true, true, false, true, true), Some(false));
}

#[test]
fn paused_polls_during_startup_or_at_the_end_change_nothing() {
    let mut s = PlayStateSync::new();
    for _ in 0..4 {
        assert_eq!(s.observe(true, true, false, true, false), None);
    }
    let mut s = PlayStateSync::new();
    for _ in 0..4 {
        assert_eq!(s.observe(true, true, true, true, true), None);
    }
}

#[test]
fn two_playing_polls_report_playing() {
    let mut s = PlayStateSync::new();
    assert_eq!(s.observe(true, false, false, false, true), None);
    assert_eq!(s.observe(true, false, false, false, true), Some(true));
}

#[test]
fn no_song_stops_playback() {
    let mut s = PlayStateSync::new();
    s.observe(true, true, false, true, true);
    assert_eq!(s.observe(false, false, false, true, true), Some(false));
    assert_eq!(s.paused_streak, 0);
    assert_eq!(s.observe(false, false, false, false, true), None);
}

#[test]
fn bookmarks_are_spaced_out() {
    let id = "s1".to_string();
    assert!(!bookmark_due(&None, &id, 1500, PLAYING_BOOKMARK_GAP_MS));
    assert!(bookmark_due(&None, &id, 1501, PLAYING_BOOKMARK_GAP_MS));
    let last = Some(("s1".to_string(), 10_000u64));
    assert!(!bookmark_due(&last, &id, 20_000, PLAYING_BOOKMARK_GAP_MS));
    assert!(bookmark_due(&last, &id, 25_000, PLAYING_BOOKMARK_GAP_MS));
    assert!(bookmark_due(&last, &id, 12_000, PAUSED_BOOKMARK_GAP_MS));
    assert!(!bookmark_due(&last, &id, 11_999, PAUSED_BOOKMARK_GAP_MS));
    assert!(bookmark_due(&last, &"other".to_string(), 10_100, PLAYING_BOOKMARK_GAP_MS));
}

#[test]
fn bookmark_limit_is_clamped() {
    assert_eq!(bookmark_limit(0), 1);
    assert_eq!(bookmark_limit(25), 25);
    assert_eq!(bookmark_limit(9999), 5000);
}

#[test]
fn details_panel_skip_buttons() {
    assert_eq!(details_prev_action(false, 2, 3), TransportAction::Select { index: 1, playing: true });
    assert_eq!(details_prev_action(false, 0, 3), TransportAction::Stay);
    assert_eq!(details_prev_action(true, 2, 3), TransportAction::Stay);
    assert_eq!(details_next_action(false, false, RepeatMode::One, 0, 3), TransportAction::Restart { playing: false });
    assert_eq!(details_next_action(false, true, RepeatMode::Off, 2, 3), TransportAction::GenerateQueue { playing: true });
    assert_eq!(details_next_action(false, false, RepeatMode::Off, 0, 3), TransportAction::Select { index: 1, playing: true });
    assert_eq!(details_next_action(false, true, RepeatMode::All, 2, 3), TransportAction::Select { index: 0, playing: true });
    assert_eq!(details_next_action(false, true, RepeatMode::All, 0, 0), TransportAction::Stay);
    assert_eq!(details_can_skip(false, 0, 3, RepeatMode::All, true), (false, true));
    assert_eq!(details_can_skip(false, 2, 3, RepeatMode::All, true), (true, true));
    assert_eq!(details_can_skip(true, 2, 3, RepeatMode::Off, true), (false, false));
    assert_eq!(details_can_skip(false, 2, 3, RepeatMode::One, false), (true, false));
    assert_eq!(details_loop_mode(RepeatMode::One), RepeatMode::Off);
    assert_eq!(details_loop_mode(RepeatMode::All), RepeatMode::One);
    assert_eq!(details_loop_mode(RepeatMode::Off), RepeatMode::One);
}
