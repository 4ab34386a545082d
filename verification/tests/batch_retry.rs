use dictato::batch::batch_outcome;
use dictato::batch::build_batch_request;
use dictato::batch::join_transcripts;
use dictato::batch::needs_chunking;
use dictato::batch::MAX_DIRECT_UPLOAD_SIZE;
use dictato::errors::TranscribeError;
use dictato::retry::retry_verdict;
use dictato::retry::RetryDecision;
use dictato::retry::RetryPolicy;
use dictato::retry::RetrySession;

#[test]
fn empty_buffer_short_circuits() {
    // no request is built, so no network call is made
    assert!(build_batch_request(&vec![], "en").is_none());
}

#[test]
fn request_frames_audio_and_fields() {
    let req = build_batch_request(&vec![1, 2, 3], "en").unwrap();
    assert_eq!(req.body.len(), 47);
    assert_eq!(&req.body[0..4], b"RIFF");
    assert_eq!(&req.body[44..], &[1, 2, 3]);
    assert_eq!(req.model, "whisper-large-v3-turbo");
    assert_eq!(req.response_format, "json");
    assert_eq!(req.language, Some("en".to_string()));
}

#[test]
fn language_omitted_for_auto_detect() {
    assert_eq!(build_batch_request(&vec![1], "auto").unwrap().language, None);
    assert_eq!(build_batch_request(&vec![1], "").unwrap().language, None);
    assert_eq!(
        build_batch_request(&vec![1], "de").unwrap().language,
        Some("de".to_string())
    );
}

#[test]
fn non_2xx_surfaces_status_and_body() {
    let r = batch_outcome(429, "slow down".to_string(), Some("ignored".to_string()));
    match r {
        Err(TranscribeError::Http { status, body }) => {
            assert_eq!(status, 429);
            assert_eq!(body, "slow down");
        }
        _ => panic!("expected an http error"),
    }
}

#[test]
fn success_returns_parsed_text() {
    let r = batch_outcome(200, "{}".to_string(), Some("hello".to_string()));
    assert_eq!(r.unwrap(), "hello");
    let r = batch_outcome(204, "{}".to_string(), None);
    assert!(matches!(r, Err(TranscribeError::Parse)));
}

#[test]
fn retry_succeeds_on_third_attempt() {
    let policy = RetryPolicy::new();
    // fails twice, succeeds on the third attempt: three attempts, success
    assert_eq!(retry_verdict(&vec![false, false, true], &policy), (3, true));
    assert_eq!(retry_verdict(&vec![true, false, false], &policy), (1, true));
}

#[test]
fn retry_exhaustion_bounded_by_maximum() {
    let policy = RetryPolicy::new();
    // every attempt fails: exactly max attempts, the last error wins
    assert_eq!(retry_verdict(&vec![false, false, false], &policy), (3, false));
    assert_eq!(
        retry_verdict(&vec![false, false, false, true], &policy),
        (3, false)
    );
}

#[test]
fn backoff_grows_exponentially() {
    let policy = RetryPolicy::new();
    assert_eq!(policy.backoff_delay(0), 1);
    assert_eq!(policy.backoff_delay(1), 2);
    assert_eq!(policy.backoff_delay(2), 4);
    assert_eq!(policy.backoff_delay(3), 8);
    let mut session = RetrySession::new();
    assert_eq!(
        session.record_failure(&policy),
        RetryDecision::Retry { delay_secs: 2 }
    );
    assert_eq!(
        session.record_failure(&policy),
        RetryDecision::Retry { delay_secs: 4 }
    );
    assert_eq!(session.record_failure(&policy), RetryDecision::GiveUp);
    assert!(session.finished);
    assert_eq!(session.attempts_made, 3);
}

#[test]
fn chunk_threshold() {
    assert!(!needs_chunking(MAX_DIRECT_UPLOAD_SIZE));
    assert!(needs_chunking(MAX_DIRECT_UPLOAD_SIZE + 1));
}

#[test]
fn segment_transcripts_join_in_order() {
    let parts = vec![
        "seg one".to_string(),
        "seg two".to_string(),
        "seg three".to_string(),
    ];
    assert_eq!(join_transcripts(&parts), "seg one seg two seg three");
    assert_eq!(join_transcripts(&vec![]), "");
    assert_eq!(join_transcripts(&vec!["only".to_string()]), "only");
}
