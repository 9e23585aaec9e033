use polyglot::console::{print_event, take_event, Print};
use polyglot::playback::{playback_ring, HoldState, TARGET_SAMPLE_RATE};
use polyglot::protocol::{append_audio, append_samples, read_event, ServerEvent};
use polyglot::ring::SampleRing;
use polyglot::session::{Action, Session, Signal, Summary};
use polyglot::status::Direction;

fn outgoing() -> Session {
    Session::new(Direction::Outgoing, "es".to_string())
}

fn incoming() -> Session {
    Session::new(Direction::Incoming, "en".to_string())
}

fn audio(base64: &str) -> String {
    format!("{{\"type\":\"session.output_audio.delta\",\"delta\":\"{base64}\"}}")
}

fn message(session: &mut Session, ring: &mut SampleRing, text: &str) -> Action {
    session.step(Signal::Message(text.to_string()), ring, 0)
}

#[test]
fn speech_is_sent() {
    let (mut session, mut ring) = (outgoing(), playback_ring());
    match session.step(Signal::Spoken(vec![1, -2]), &mut ring, 40) {
        Action::Send(text) => assert_eq!(text, append_samples(&[1, -2])),
        other => panic!("{other:?}"),
    }
    session.step(Signal::Spoken(vec![3]), &mut ring, 50);
    assert_eq!(session.stats.first_in_ns, Some(40));
    assert_eq!(session.stats.bytes_in, 0);
}

#[test]
fn captured_bytes_are_sent_and_counted() {
    let (mut session, mut ring) = (incoming(), playback_ring());
    match session.step(Signal::Captured(vec![0, 128, 5, 0, 9]), &mut ring, 7) {
        Action::Send(text) => assert_eq!(text, append_audio(&[0, 128, 5, 0, 9])),
        other => panic!("{other:?}"),
    }
    assert_eq!(session.stats.bytes_in, 5);
    assert_eq!(session.stats.peak_in, 32768);
    assert_eq!(session.stats.first_in_ns, Some(7));
}

#[test]
fn signals_that_end_a_session() {
    let mut ring = playback_ring();
    for signal in [
        Signal::Captured(vec![]),
        Signal::CaptureFailed,
        Signal::Closed,
        Signal::Broken,
        Signal::Exhausted,
    ] {
        assert!(matches!(incoming().step(signal, &mut ring, 0), Action::Stop));
    }
    assert!(matches!(outgoing().step(Signal::Cancelled, &mut ring, 0), Action::CloseAndStop));
    assert!(matches!(outgoing().step(Signal::Ignored, &mut ring, 0), Action::Wait));
}

#[test]
fn received_audio_is_queued() {
    let (mut session, mut ring) = (incoming(), playback_ring());
    session.step(Signal::Captured(vec![1, 0]), &mut ring, 100_000_000);
    match session.step(Signal::Message(audio("AAEC/w==")), &mut ring, 350_999_999) {
        Action::Played { dropped, latency_ms } => {
            assert_eq!((dropped, latency_ms), (0, Some(250)));
        }
        other => panic!("{other:?}"),
    }
    match session.step(Signal::Message(audio("AAE=")), &mut ring, 400) {
        Action::Played { latency_ms, .. } => assert_eq!(latency_ms, None),
        other => panic!("{other:?}"),
    }
    assert_eq!(session.stats.bytes_out, 6);
    assert_eq!(session.stats.peak_out, 256);
    assert_eq!(session.stats.first_out_ns, Some(350_999_999));
    assert_eq!(HoldState::new().hold_block(3, TARGET_SAMPLE_RATE, &mut ring), vec![256, -254, 256]);
}

#[test]
fn outgoing_sessions_do_not_count_received_audio() {
    let (mut session, mut ring) = (outgoing(), playback_ring());
    match message(&mut session, &mut ring, &audio("AAE=")) {
        Action::Played { dropped, latency_ms } => assert_eq!((dropped, latency_ms), (0, Some(0))),
        other => panic!("{other:?}"),
    }
    assert_eq!((session.stats.bytes_out, session.stats.peak_out), (0, 0));
    assert_eq!(ring.buffered(), 1);
}

#[test]
fn audio_without_room_is_dropped() {
    let mut session = incoming();
    let mut ring = SampleRing::with_capacity(1);
    match message(&mut session, &mut ring, &audio("AAEC/w==")) {
        Action::Played { dropped, .. } => assert_eq!(dropped, 1),
        other => panic!("{other:?}"),
    }
    assert_eq!(session.stats.bytes_out, 4);
}

#[test]
fn audio_that_does_not_decode_is_passed_over() {
    let (mut session, mut ring) = (incoming(), playback_ring());
    for text in [
        audio("AAE"),
        audio("*"),
        "{\"type\":\"output_audio.delta\"}".to_string(),
        "no json".to_string(),
    ] {
        assert!(matches!(message(&mut session, &mut ring, &text), Action::Wait));
    }
    assert_eq!(session.stats, incoming().stats);
    assert_eq!(ring.buffered(), 0);
}

#[test]
fn transcripts_are_published() {
    let (mut session, mut ring) = (incoming(), playback_ring());
    let text = "{\"type\":\"session.output_transcript.delta\",\"delta\":\"hi\"}";
    match message(&mut session, &mut ring, text) {
        Action::Transcript(update) => assert_eq!(
            (update.direction.as_str(), update.kind.as_str(), update.delta.as_str(), update.done),
            ("incoming", "translated", "hi", false)
        ),
        other => panic!("{other:?}"),
    }
    let text = "{\"type\":\"conversation.item.input_audio_transcription.completed\"}";
    match message(&mut session, &mut ring, text) {
        Action::Transcript(update) => assert_eq!(
            (update.kind.as_str(), update.delta.as_str(), update.done),
            ("source", "", true)
        ),
        other => panic!("{other:?}"),
    }
    let text = "{\"type\":\"session.output_transcript.delta\"}";
    assert!(matches!(message(&mut session, &mut ring, text), Action::Wait));
}

#[test]
fn errors_of_the_service_are_published_by_the_outgoing_direction() {
    let mut ring = playback_ring();
    let text = "{\"type\":\"error\",\"error\":\"full\"}";
    match message(&mut outgoing(), &mut ring, text) {
        Action::Status { update: status, detail } => {
            assert_eq!(detail, "\"full\"");
            assert_eq!(status.direction, "outgoing");
            assert!(status.running);
            assert_eq!(status.target.as_deref(), Some("es"));
            assert_eq!(status.message.as_deref(), Some("Server error: \"full\""));
        }
        other => panic!("{other:?}"),
    }
    assert!(matches!(
        message(&mut incoming(), &mut ring, text),
        Action::Notice(ServerEvent::Error { .. })
    ));
}

#[test]
fn other_messages_are_noticed() {
    let (mut session, mut ring) = (outgoing(), playback_ring());
    assert!(matches!(
        message(&mut session, &mut ring, "{\"type\":\"session.created\"}"),
        Action::Notice(ServerEvent::Session { .. })
    ));
    assert!(matches!(
        message(&mut session, &mut ring, "{\"type\":\"ping\"}"),
        Action::Notice(ServerEvent::Other { .. })
    ));
}

#[test]
fn summaries_come_every_five_seconds() {
    let (mut session, mut ring) = (incoming(), playback_ring());
    session.step(Signal::Captured(vec![3; 4096]), &mut ring, 0);
    message(&mut session, &mut ring, &audio("AAE="));
    assert_eq!(session.summary(4), None);
    let expected = Summary { in_kb: 4, out_kb: 0, peak_in: 771, peak_out: 256 };
    assert_eq!(session.totals(), expected);
    assert_eq!(session.summary(5), Some(expected));
    assert_eq!((session.stats.peak_in, session.stats.peak_out), (0, 0));
    assert_eq!((session.stats.bytes_in, session.stats.bytes_out), (4096, 2));
}

fn printed(text: &str, debug: bool) -> Print {
    print_event("1.5", &read_event(text).unwrap(), debug)
}

#[test]
fn console_lines() {
    match printed("{\"type\":\"session.created\",\"session\":{\"model\":\"m\"}}", false) {
        Print::Line(line) => {
            assert_eq!(line, "[1.5s] session.created | server target lang=? | model=m");
        }
        other => panic!("{other:?}"),
    }
    match printed("{\"type\":\"error\",\"error\":1}", false) {
        Print::Complaint(line) => assert_eq!(line, "\n[1.5s] ERROR: 1"),
        other => panic!("{other:?}"),
    }
    match printed(
        "{\"type\":\"session.input_transcript.completed\",\"transcript\":{\"language\":\"hi\"}}",
        false,
    ) {
        Print::Line(line) => assert_eq!(line, "\n[1.5s] Source language detected: hi"),
        other => panic!("{other:?}"),
    }
    match printed("{\"type\":\"session.output_transcript.done\"}", false) {
        Print::Line(line) => assert_eq!(line, ""),
        other => panic!("{other:?}"),
    }
    match printed("{\"type\":\"ping\"}", true) {
        Print::Line(line) => assert_eq!(line, "[ws] ping"),
        other => panic!("{other:?}"),
    }
    assert!(matches!(printed("{\"type\":\"ping\"}", false), Print::Nothing));
    assert!(matches!(
        printed("{\"type\":\"session.input_transcript.completed\"}", false),
        Print::Nothing
    ));
}

#[test]
fn console_pieces() {
    match printed("{\"type\":\"session.output_transcript.delta\",\"delta\":\"a\"}", false) {
        Print::Piece(piece) => assert_eq!(piece, "a"),
        other => panic!("{other:?}"),
    }
    match printed("{\"type\":\"session.input_transcript.delta\",\"delta\":\"b\"}", false) {
        Print::Piece(piece) => assert_eq!(piece, "\u{1b}[90mb\u{1b}[0m"),
        other => panic!("{other:?}"),
    }
    assert!(matches!(
        printed("{\"type\":\"session.input_transcript.delta\"}", false),
        Print::Nothing
    ));
}

#[test]
fn latency_is_not_told_again_whatever_happens_between() {
    let (mut session, mut ring) = (incoming(), playback_ring());
    session.step(Signal::Captured(vec![1, 0]), &mut ring, 1_000_000);
    match session.step(Signal::Message(audio("AAE=")), &mut ring, 4_000_000) {
        Action::Played { latency_ms, .. } => assert_eq!(latency_ms, Some(3)),
        other => panic!("{other:?}"),
    }
    session.step(Signal::Ignored, &mut ring, 5_000_000);
    session.step(Signal::Captured(vec![2, 0]), &mut ring, 6_000_000);
    session.summary(5);
    session.step(Signal::Message("{}".to_string()), &mut ring, 7_000_000);
    match session.step(Signal::Message(audio("AAE=")), &mut ring, 9_000_000) {
        Action::Played { latency_ms, .. } => assert_eq!(latency_ms, None),
        other => panic!("{other:?}"),
    }
    assert_eq!(session.stats.first_out_ns, Some(4_000_000));
}

#[test]
fn only_whole_base64_is_played() {
    let mut ring = playback_ring();
    for text in [
        "AAE", "AAE==", "AB==", "AAEC/x==", "A===", "====", "AA=A", "AA==AAAA", "AA E", "AAE=\\n", "AA-_", "é",
    ] {
        assert!(matches!(message(&mut incoming(), &mut ring, &audio(text)), Action::Wait), "{text}");
    }
    assert_eq!(ring.buffered(), 0);
    for (text, samples) in [("", 0), ("AA==", 0), ("AAE=", 1), ("AAEC", 1), ("+/+/", 1)] {
        let before = ring.buffered();
        match message(&mut incoming(), &mut ring, &audio(text)) {
            Action::Played { dropped, .. } => assert_eq!(dropped, 0),
            other => panic!("{text}: {other:?}"),
        }
        assert_eq!(ring.buffered(), before + samples);
    }
}

#[test]
fn console_tells_of_the_first_audio_only() {
    let (mut session, mut ring) = (outgoing(), playback_ring());
    session.step(Signal::Spoken(vec![1]), &mut ring, 10_900_000);
    let event = || read_event(&audio("AAE=")).unwrap();
    match take_event(&mut session, event(), &mut ring, 134_200_000, "0.1", false) {
        Print::Line(line) => {
            assert_eq!(line, "[0.1s] First translated audio out (123ms after first audio in)");
        }
        other => panic!("{other:?}"),
    }
    let again = take_event(&mut session, event(), &mut ring, 200, "0.2", false);
    assert!(matches!(again, Print::Nothing));
    assert_eq!(ring.buffered(), 2);
    let other = read_event("{\"type\":\"ping\"}").unwrap();
    let line = take_event(&mut session, other, &mut ring, 300, "0.3", true);
    assert!(matches!(line, Print::Line(_)));
}

#[test]
fn captured_bytes_are_counted_whatever_else_happens() {
    let (mut session, mut ring) = (incoming(), playback_ring());
    session.step(Signal::Captured(vec![1; 10]), &mut ring, 1);
    session.step(Signal::Message(audio("AAE=")), &mut ring, 2);
    session.step(Signal::Ignored, &mut ring, 3);
    session.step(Signal::Captured(vec![2; 5]), &mut ring, 4);
    session.step(Signal::Captured(vec![]), &mut ring, 5);
    assert_eq!(session.stats.bytes_in, 15);
    assert_eq!(session.stats.first_in_ns, Some(1));
}
