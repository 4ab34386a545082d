use dictato::stream::audio_append_message;
use dictato::stream::classify_event;
use dictato::stream::realtime_endpoint;
use dictato::stream::session_update_message;
use dictato::stream::ServerEvent;
use dictato::stream::SessionNotice;
use dictato::stream::StreamingSession;

#[test]
fn append_message_holds_base64_payload() {
    // "abc" encodes to "YWJj"; a wrapper handing its input back unchanged
    // would fail this
    let msg = audio_append_message(&vec![b'a', b'b', b'c']);
    assert_eq!(
        msg,
        "{\"type\":\"input_audio_buffer.append\",\"audio\":\"YWJj\"}"
    );
    let msg = audio_append_message(&vec![]);
    assert_eq!(msg, "{\"type\":\"input_audio_buffer.append\",\"audio\":\"\"}");
}

#[test]
fn session_configuration_message() {
    assert_eq!(
        session_update_message(),
        "{\"type\":\"session.update\",\"session\":{\"modalities\":[\"text\"],\"input_audio_transcription\":{\"model\":\"whisper-1\"},\"turn_detection\":{\"type\":\"server_vad\"}}}"
    );
    assert_eq!(
        realtime_endpoint(),
        "wss://api.openai.com/v1/realtime?model=gpt-4o-mini-realtime-preview"
    );
}

#[test]
fn events_classify_by_type() {
    assert!(matches!(
        classify_event("session.created", None, None, None),
        ServerEvent::SessionReady
    ));
    assert!(matches!(
        classify_event("input_audio_buffer.speech_started", None, None, None),
        ServerEvent::SpeechStarted
    ));
    assert!(matches!(
        classify_event("input_audio_buffer.speech_stopped", None, None, None),
        ServerEvent::SpeechStopped
    ));
    match classify_event(
        "response.audio_transcript.delta",
        None,
        Some("hi".to_string()),
        None,
    ) {
        ServerEvent::Delta { delta } => assert_eq!(delta, "hi"),
        _ => panic!("expected a delta event"),
    }
    match classify_event("error", None, None, Some("bad key".to_string())) {
        ServerEvent::ErrorEvent { message } => assert_eq!(message, "bad key"),
        _ => panic!("expected an error event"),
    }
    // unknown types, and known types missing their payload, are ignored
    assert!(matches!(
        classify_event("response.created", None, None, None),
        ServerEvent::Ignored
    ));
    assert!(matches!(
        classify_event("response.audio_transcript.delta", None, None, None),
        ServerEvent::Ignored
    ));
}

#[test]
fn deltas_accumulate_to_trimmed_transcript() {
    let mut session = StreamingSession::new();
    session.open();
    for d in ["Hel", "lo wor", "ld"] {
        let notice = session.apply_event(ServerEvent::Delta {
            delta: d.to_string(),
        });
        assert!(matches!(
            notice,
            Some(SessionNotice::TranscriptUpdate { .. })
        ));
    }
    assert_eq!(session.close(), "Hello world");
}

#[test]
fn completed_segment_appends_verbatim_plus_space() {
    let mut session = StreamingSession::new();
    session.open();
    let notice = session.apply_event(ServerEvent::Completed {
        transcript: "hi there ".to_string(),
    });
    match notice {
        Some(SessionNotice::TranscriptUpdate { text }) => assert_eq!(text, "hi there"),
        _ => panic!("expected a transcript update"),
    }
    session.apply_event(ServerEvent::Completed {
        transcript: "ok".to_string(),
    });
    // "hi there " plus its trailing space, then the next fragment
    assert_eq!(session.close(), "hi there  ok");
}

#[test]
fn send_queues_only_while_open() {
    let mut session = StreamingSession::new();
    session.send(vec![1]);
    assert_eq!(session.take_outbound(), Vec::<Vec<u8>>::new());
    session.open();
    assert!(session.is_connected());
    session.send(vec![1]);
    session.send(vec![2, 3]);
    assert_eq!(session.take_outbound(), vec![vec![1], vec![2, 3]]);
    session.close();
    assert!(!session.is_connected());
    session.send(vec![4]);
    assert_eq!(session.take_outbound(), Vec::<Vec<u8>>::new());
}

#[test]
fn speech_and_error_events_republish() {
    let mut session = StreamingSession::new();
    session.open();
    assert!(matches!(
        session.apply_event(ServerEvent::SpeechStarted),
        Some(SessionNotice::SpeechStarted)
    ));
    assert!(matches!(
        session.apply_event(ServerEvent::SpeechStopped),
        Some(SessionNotice::SpeechStopped)
    ));
    match session.apply_event(ServerEvent::ErrorEvent {
        message: "rate limited".to_string(),
    }) {
        Some(SessionNotice::ErrorNotice { message }) => assert_eq!(message, "rate limited"),
        _ => panic!("expected an error notice"),
    }
    assert!(session.apply_event(ServerEvent::Ignored).is_none());
    // none of those grew the transcript
    assert_eq!(session.close(), "");
}
