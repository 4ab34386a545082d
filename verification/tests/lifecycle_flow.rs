use dictato::errors::TranscribeError;
use dictato::lifecycle::Backend;
use dictato::lifecycle::LifecycleAction;
use dictato::lifecycle::LifecycleError;
use dictato::lifecycle::RecordingLifecycle;
use dictato::lifecycle::RecordingState;
use dictato::lifecycle::SttProvider;
use dictato::lifecycle::TranscribeInput;

#[test]
fn provider_from_store_value() {
    assert_eq!(SttProvider::from_store_value("parakeet"), SttProvider::Parakeet);
    assert_eq!(SttProvider::from_store_value("groq"), SttProvider::Groq);
    assert_eq!(SttProvider::from_store_value(""), SttProvider::Groq);
}

#[test]
fn batch_recording_happy_path() {
    let mut lc = RecordingLifecycle::new();
    let actions = lc.start("groq").unwrap();
    assert_eq!(actions, vec![LifecycleAction::StartCapture]);
    assert_eq!(lc.state, RecordingState::Recording);
    assert_eq!(lc.backend, Backend::Batch);
    assert!(lc.get_recording_state());

    lc.append_chunk(vec![1, 2]).unwrap();
    lc.append_chunk(vec![3]).unwrap();

    let actions = lc.begin_stop();
    assert_eq!(actions, vec![LifecycleAction::StopCapture]);
    assert_eq!(lc.state, RecordingState::Draining);

    match lc.finish_drain() {
        TranscribeInput::Batch { audio } => assert_eq!(audio, vec![1, 2, 3]),
        _ => panic!("expected batch input"),
    }
    assert_eq!(lc.state, RecordingState::Transcribing);
    assert_eq!(lc.batch.buffer_size(), 0);

    lc.finish_transcription(Ok("hello there".to_string()));
    assert_eq!(lc.state, RecordingState::PostProcessing);

    let (text, notice) = lc.finish_post_processing(Ok("Hello there.".to_string()));
    assert_eq!(text, "Hello there.");
    assert!(notice.is_none());
    assert_eq!(lc.state, RecordingState::Done);
}

#[test]
fn streaming_recording_routes_chunks() {
    let mut lc = RecordingLifecycle::new();
    let actions = lc.start("openai").unwrap();
    assert_eq!(
        actions,
        vec![LifecycleAction::StartCapture, LifecycleAction::OpenSession]
    );
    assert_eq!(lc.backend, Backend::Streaming);
    assert!(lc.session.is_connected());

    lc.append_chunk(vec![9, 9]).unwrap();
    assert_eq!(lc.session.take_outbound(), vec![vec![9, 9]]);
    assert_eq!(lc.batch.buffer_size(), 0);

    lc.begin_stop();
    match lc.finish_drain() {
        TranscribeInput::Streaming { transcript } => assert_eq!(transcript, ""),
        _ => panic!("expected streaming input"),
    }
    assert!(!lc.session.is_connected());
}

#[test]
fn cancel_discards_audio_and_requests_nothing() {
    let mut lc = RecordingLifecycle::new();
    lc.start("groq").unwrap();
    lc.append_chunk(vec![1, 2, 3, 4]).unwrap();
    let actions = lc.cancel();
    // capture stops; nothing asks for a transcription
    assert_eq!(actions, vec![LifecycleAction::StopCapture]);
    assert_eq!(lc.state, RecordingState::Cancelled);
    assert_eq!(lc.batch.buffer_size(), 0);
    assert!(!lc.session.is_connected());
}

#[test]
fn second_start_rejected_while_recording() {
    let mut lc = RecordingLifecycle::new();
    lc.start("groq").unwrap();
    assert_eq!(lc.start("groq"), Err(LifecycleError::Busy));
    assert_eq!(lc.state, RecordingState::Recording);
}

#[test]
fn error_is_terminal_but_restartable() {
    let mut lc = RecordingLifecycle::new();
    lc.start("groq").unwrap();
    lc.begin_stop();
    lc.finish_drain();
    lc.finish_transcription(Err(TranscribeError::Transport {
        detail: "connection reset".to_string(),
    }));
    assert_eq!(lc.state, RecordingState::Error);
    // a fresh start is still allowed from the error state
    assert!(lc.start("openai").is_ok());
    assert_eq!(lc.state, RecordingState::Recording);
}

#[test]
fn post_processing_failure_keeps_raw_transcript() {
    let mut lc = RecordingLifecycle::new();
    lc.start("groq").unwrap();
    lc.append_chunk(vec![1]).unwrap();
    lc.begin_stop();
    lc.finish_drain();
    lc.finish_transcription(Ok("raw words".to_string()));
    let (text, notice) = lc.finish_post_processing(Err("rewriter offline".to_string()));
    assert_eq!(text, "raw words");
    assert_eq!(notice, Some("rewriter offline".to_string()));
    assert_eq!(lc.state, RecordingState::Done);
}

#[test]
fn cancel_from_draining_still_discards() {
    let mut lc = RecordingLifecycle::new();
    lc.start("groq").unwrap();
    lc.append_chunk(vec![8; 16]).unwrap();
    lc.begin_stop();
    let actions = lc.cancel();
    assert_eq!(actions, vec![LifecycleAction::StopCapture]);
    assert_eq!(lc.state, RecordingState::Cancelled);
    assert_eq!(lc.batch.buffer_size(), 0);
    // and a fresh recording can begin
    assert!(lc.start("groq").is_ok());
}

#[test]
fn chunks_outside_recording_are_dropped() {
    let mut lc = RecordingLifecycle::new();
    lc.append_chunk(vec![1, 2]).unwrap();
    assert_eq!(lc.batch.buffer_size(), 0);
}
