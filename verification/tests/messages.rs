use polyglot::pcm::bytes_to_samples;
use polyglot::protocol::{
    append_audio, append_message, append_samples, authorization, classify, interpret, read_event,
    session_update, EventKind, Fields, ServerEvent, SERVICE_URL,
};
use polyglot::status::Speech;

#[test]
fn request_for_a_session() {
    assert_eq!(
        session_update("es"),
        "{\"session\":{\"audio\":{\"input\":{\"noise_reduction\":{\"type\":\"near_field\"},\"transcription\":{\"model\":\"gpt-realtime-whisper\"}},\"output\":{\"language\":\"es\"}}},\"type\":\"session.update\"}"
    );
}

/// The language that the library reads in a request sent back as a message of the service.
fn language_sent_back(language: &str) -> String {
    let request = session_update(language);
    let answer = request.replace("\"type\":\"session.update\"", "\"type\":\"session.updated\"");
    assert_ne!(request, answer);
    match read_event(&answer) {
        Some(ServerEvent::Session { name, language, model }) => {
            assert_eq!(name, "session.updated");
            assert_eq!(model, "?");
            language
        }
        other => panic!("{other:?}"),
    }
}

#[test]
fn request_names_its_language_where_the_service_does() {
    assert_eq!(language_sent_back("ja"), "ja");
    let value: serde_json::Value = serde_json::from_str(&session_update("ja")).unwrap();
    assert_eq!(value.get("type").and_then(|name| name.as_str()), Some("session.update"));
}

#[test]
fn connection_is_authorized() {
    assert_eq!(authorization("sk-1"), "Bearer sk-1");
    assert_eq!(
        SERVICE_URL,
        "wss://api.openai.com/v1/realtime/translations?model=gpt-realtime-translate"
    );
}

#[test]
fn captured_audio_is_handed_on_in_base64() {
    assert_eq!(
        append_audio(&[0, 1, 2, 255]),
        "{\"audio\":\"AAEC/w==\",\"type\":\"session.input_audio_buffer.append\"}"
    );
    assert_eq!(append_samples(&[256, -254]), append_audio(&[0, 1, 2, 255]));
    assert_eq!(append_message("AAEC/w=="), append_audio(&[0, 1, 2, 255]));
}

#[test]
fn base64_takes_three_bytes_at_a_time() {
    let symbols: Vec<char> =
        "ABCDEFGHIJKLMNOPQRSTUVWXYZabcdefghijklmnopqrstuvwxyz0123456789+/".chars().collect();
    for len in 0..80usize {
        let bytes: Vec<u8> = (0..len).map(|i| (i * 89 + len * 31) as u8).collect();
        let mut text = String::new();
        for group in bytes.chunks(3) {
            let byte = |i: usize| group.get(i).map_or(0, |b| *b as usize);
            let bits = 65536 * byte(0) + 256 * byte(1) + byte(2);
            for (i, part) in [bits / 262144, bits / 4096 % 64, bits / 64 % 64, bits % 64].iter().enumerate() {
                text.push(if i <= group.len() { symbols[*part] } else { '=' });
            }
        }
        assert_eq!(append_audio(&bytes), append_message(&text));
    }
}

#[test]
fn captured_samples_can_be_recovered() {
    let samples: Vec<i16> = vec![0, 1, -1, i16::MAX, i16::MIN, 1234];
    let value: serde_json::Value = serde_json::from_str(&append_samples(&samples)).unwrap();
    let audio = value.get("audio").and_then(|text| text.as_str()).unwrap();
    let bytes = base64::Engine::decode(&base64::engine::general_purpose::STANDARD, audio).unwrap();
    assert_eq!(bytes_to_samples(&bytes), samples);
}

#[test]
fn special_characters_survive() {
    assert_eq!(language_sent_back("\"\\\n\u{7}é\u{1f600}"), "\"\\\n\u{7}é\u{1f600}");
}

#[test]
fn types_are_told_apart() {
    let expected = [
        ("session.created", EventKind::Session),
        ("session.updated", EventKind::Session),
        ("session.output_audio.delta", EventKind::Audio),
        ("response.output_audio.delta", EventKind::Audio),
        ("output_audio.delta", EventKind::Audio),
        ("session.output_transcript.delta", EventKind::TranslatedDelta),
        ("response.output_audio_transcript.delta", EventKind::TranslatedDelta),
        ("session.output_transcript.done", EventKind::TranslatedDone),
        ("response.output_audio_transcript.done", EventKind::TranslatedDone),
        ("session.input_transcript.delta", EventKind::SourceDelta),
        ("conversation.item.input_audio_transcription.delta", EventKind::SourceDelta),
        ("session.input_transcript.completed", EventKind::SourceDone),
        ("conversation.item.input_audio_transcription.completed", EventKind::SourceDone),
        ("error", EventKind::Error),
        ("", EventKind::Other),
        ("Error", EventKind::Other),
        ("session.closed", EventKind::Other),
    ];
    for (name, kind) in expected {
        assert_eq!(classify(name), kind, "{name}");
    }
}

#[test]
fn session_message_is_read() {
    let text = "{\"type\":\"session.updated\",\"session\":{\"model\":\"m\",\"audio\":{\"output\":{\"language\":\"fr\"}}}}";
    match read_event(text) {
        Some(ServerEvent::Session { name, language, model }) => {
            assert_eq!((name.as_str(), language.as_str(), model.as_str()), ("session.updated", "fr", "m"));
        }
        other => panic!("{other:?}"),
    }
    match read_event("{\"type\":\"session.created\",\"session\":{\"audio\":[{\"output\":1}]}}") {
        Some(ServerEvent::Session { language, model, .. }) => {
            assert_eq!((language.as_str(), model.as_str()), ("?", "?"));
        }
        other => panic!("{other:?}"),
    }
}

#[test]
fn deltas_are_read() {
    match read_event("{\"type\":\"output_audio.delta\",\"delta\":\"AAE=\"}") {
        Some(ServerEvent::Audio { delta }) => assert_eq!(delta.as_deref(), Some("AAE=")),
        other => panic!("{other:?}"),
    }
    match read_event("{\"type\":\"session.input_transcript.delta\",\"delta\":5}") {
        Some(ServerEvent::Transcript { speech, delta }) => {
            assert_eq!((speech, delta), (Speech::Source, None));
        }
        other => panic!("{other:?}"),
    }
    match read_event("{\"type\":\"session.output_transcript.delta\",\"delta\":\"h\\u00e9\"}") {
        Some(ServerEvent::Transcript { speech, delta }) => {
            assert_eq!((speech, delta.as_deref()), (Speech::Translated, Some("hé")));
        }
        other => panic!("{other:?}"),
    }
}

#[test]
fn ends_of_transcripts_are_read() {
    match read_event(
        "{\"type\":\"session.input_transcript.completed\",\"transcript\":{\"language\":\"pt\"}}",
    ) {
        Some(ServerEvent::TranscriptDone { speech, spoken }) => {
            assert_eq!((speech, spoken.as_deref()), (Speech::Source, Some("pt")));
        }
        other => panic!("{other:?}"),
    }
    match read_event("{\"type\":\"response.output_audio_transcript.done\"}") {
        Some(ServerEvent::TranscriptDone { speech, spoken }) => {
            assert_eq!((speech, spoken), (Speech::Translated, None));
        }
        other => panic!("{other:?}"),
    }
}

#[test]
fn errors_are_read_as_json() {
    match read_event("{\"type\":\"error\",\"error\":{ \"code\" : 7, \"a\": [true, null] }}") {
        Some(ServerEvent::Error { detail }) => {
            assert_eq!(detail, "{\"a\":[true,null],\"code\":7}");
        }
        other => panic!("{other:?}"),
    }
    match read_event("{\"type\":\"error\"}") {
        Some(ServerEvent::Error { detail }) => assert_eq!(detail, ""),
        other => panic!("{other:?}"),
    }
}

#[test]
fn other_messages_keep_their_type() {
    match read_event("{\"type\":\"rate_limits\"}") {
        Some(ServerEvent::Other { name }) => assert_eq!(name, "rate_limits"),
        other => panic!("{other:?}"),
    }
    for text in ["{}", "[]", "5", "\"error\"", "{\"type\":3}"] {
        match read_event(text) {
            Some(ServerEvent::Other { name }) => assert_eq!(name, ""),
            other => panic!("{other:?}"),
        }
    }
}

#[test]
fn text_that_is_no_json_is_not_read() {
    for text in ["", "{", "{\"type\":}", "{} {}"] {
        assert!(read_event(text).is_none());
    }
}

#[test]
fn parts_decide_what_a_message_says() {
    let fields = Fields {
        name: Some("error".to_string()),
        delta: None,
        language: None,
        model: None,
        spoken: None,
        error: Some("\"down\"".to_string()),
    };
    match interpret(fields) {
        ServerEvent::Error { detail } => assert_eq!(detail, "\"down\""),
        other => panic!("{other:?}"),
    }
}
