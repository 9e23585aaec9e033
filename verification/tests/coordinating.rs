use polyglot::coordinator::{AppState, AudioCommand, Plan};
use polyglot::status::{Direction, Speech, StatusUpdate, TranscriptUpdate};

fn start_outgoing() -> AudioCommand {
    AudioCommand::StartOutgoing {
        target: "fr".to_string(),
        output_device: Some("BlackHole 2ch".to_string()),
    }
}

fn start_incoming() -> AudioCommand {
    AudioCommand::StartIncoming { output_device: None }
}

#[test]
fn start_opens_a_session() {
    let mut state = AppState::new();
    match state.plan(start_outgoing()) {
        Plan::Open { direction, target, output_device } => {
            assert_eq!(direction, Direction::Outgoing);
            assert_eq!(target, "fr");
            assert_eq!(output_device.as_deref(), Some("BlackHole 2ch"));
        }
        other => panic!("{other:?}"),
    }
    let report = state.opened(Direction::Outgoing, "fr".to_string(), Ok(()));
    assert_eq!(report.reply, Ok(()));
    assert_eq!(report.status.direction, "outgoing");
    assert!(report.status.running);
    assert_eq!(report.status.target.as_deref(), Some("fr"));
    assert_eq!(report.status.message, None);
    assert!(state.status().outgoing);
    assert!(!state.status().incoming);
}

#[test]
fn incoming_speech_comes_in_english() {
    match AppState::new().plan(start_incoming()) {
        Plan::Open { direction, target, output_device } => {
            assert_eq!(direction, Direction::Incoming);
            assert_eq!(target, "en");
            assert_eq!(output_device, None);
        }
        other => panic!("{other:?}"),
    }
}

#[test]
fn second_start_is_refused() {
    let mut state = AppState::new();
    state.opened(Direction::Outgoing, "fr".to_string(), Ok(()));
    state.opened(Direction::Incoming, "en".to_string(), Ok(()));
    match state.plan(start_outgoing()) {
        Plan::Refuse { message } => assert_eq!(message, "Outgoing session already running"),
        other => panic!("{other:?}"),
    }
    match state.plan(start_incoming()) {
        Plan::Refuse { message } => assert_eq!(message, "Incoming session already running"),
        other => panic!("{other:?}"),
    }
}

#[test]
fn failed_start_leaves_the_direction_free() {
    let mut state = AppState::new();
    let report = state.opened(Direction::Incoming, "en".to_string(), Err("no key".to_string()));
    assert_eq!(report.reply, Err("no key".to_string()));
    assert_eq!(report.status.direction, "incoming");
    assert!(!report.status.running);
    assert_eq!(report.status.target, None);
    assert_eq!(report.status.message.as_deref(), Some("Failed to start incoming: no key"));
    assert_eq!(state, AppState::new());
    let report = state.opened(Direction::Outgoing, "fr".to_string(), Err("no mic".to_string()));
    assert_eq!(report.status.message.as_deref(), Some("Failed to start outgoing: no mic"));
}

#[test]
fn stop_frees_the_direction_and_leaves_the_other() {
    let mut state = AppState::new();
    state.opened(Direction::Outgoing, "fr".to_string(), Ok(()));
    state.opened(Direction::Incoming, "en".to_string(), Ok(()));
    match state.plan(AudioCommand::StopOutgoing) {
        Plan::Close { direction, running } => {
            assert_eq!(direction, Direction::Outgoing);
            assert!(running);
        }
        other => panic!("{other:?}"),
    }
    let status = state.closed(Direction::Outgoing);
    assert_eq!(status.direction, "outgoing");
    assert!(!status.running);
    assert_eq!(status.target, None);
    assert_eq!(status.message, None);
    assert!(state.incoming_running);
    assert!(!state.outgoing_running);
    assert!(matches!(state.plan(start_outgoing()), Plan::Open { .. }));
    match state.plan(AudioCommand::StopOutgoing) {
        Plan::Close { running, .. } => assert!(!running),
        other => panic!("{other:?}"),
    }
    assert!(matches!(
        state.plan(AudioCommand::StopIncoming),
        Plan::Close { direction: Direction::Incoming, running: true }
    ));
}

/// Carries a command out; `ready` tells whether a session can be opened.
fn carry_out(state: &mut AppState, command: AudioCommand, ready: bool) {
    match state.plan(command) {
        Plan::Refuse { .. } => {}
        Plan::Open { direction, target, .. } => {
            let outcome = if ready { Ok(()) } else { Err("no".to_string()) };
            state.opened(direction, target, outcome);
        }
        Plan::Close { direction, .. } => {
            state.closed(direction);
        }
    }
}

#[test]
fn sessions_run_until_they_are_stopped() {
    let mut state = AppState::new();
    let mut seen: Vec<(bool, bool)> = Vec::new();
    let run = vec![
        (start_outgoing(), false),
        (start_outgoing(), true),
        (start_incoming(), true),
        (start_outgoing(), false),
        (AudioCommand::StopIncoming, true),
        (AudioCommand::StopIncoming, false),
        (AudioCommand::StopOutgoing, false),
        (start_outgoing(), true),
    ];
    for (command, ready) in run {
        carry_out(&mut state, command, ready);
        seen.push((state.status().outgoing, state.status().incoming));
    }
    assert_eq!(seen, vec![
        (false, false),
        (true, false),
        (true, true),
        (true, true),
        (true, false),
        (true, false),
        (false, false),
        (true, false),
    ]);
}

#[test]
fn broken_sessions_are_reported() {
    let status = StatusUpdate::session_failed(Direction::Outgoing, "gone");
    assert_eq!(status.message.as_deref(), Some("Session error: gone"));
    assert!(!status.running);
    let status = StatusUpdate::session_failed(Direction::Incoming, "gone");
    assert_eq!(status.message.as_deref(), Some("Incoming session error: gone"));
    assert_eq!(status.direction, "incoming");
    assert_eq!(status.target, None);
}

#[test]
fn transcripts_name_their_side() {
    let piece = TranscriptUpdate::piece(Direction::Incoming, Speech::Source, "hola".to_string());
    assert_eq!(
        (piece.direction.as_str(), piece.kind.as_str(), piece.delta.as_str(), piece.done),
        ("incoming", "source", "hola", false)
    );
    let end = TranscriptUpdate::end(Direction::Outgoing, Speech::Translated);
    assert_eq!(
        (end.direction.as_str(), end.kind.as_str(), end.delta.as_str(), end.done),
        ("outgoing", "translated", "", true)
    );
}
