use dictato::device::devices_from_names;
use dictato::device::select_input_device;
use dictato::device::AudioDevice;
use dictato::errors::DeviceError;
use dictato::local::is_model_downloaded;
use dictato::local::pad_silence;
use dictato::local::TranscribingFlag;
use dictato::media::check_dependencies;
use dictato::media::get_audio_encoding_args;
use dictato::media::get_extension;
use dictato::media::is_supported_audio;
use dictato::media::is_supported_format;
use dictato::media::is_supported_video;
use dictato::media::is_valid_youtube_url;
use dictato::media::mime_for_path;
use dictato::progress::ProgressStage;
use dictato::progress::ProgressTracker;
use dictato::rules::enabled_rules;
use dictato::rules::TranscriptionRule;

fn device(name: &str, is_default: bool) -> AudioDevice {
    AudioDevice {
        id: name.to_string(),
        name: name.to_string(),
        is_default,
    }
}

#[test]
fn enumeration_marks_default() {
    let names = vec!["USB Mic".to_string(), "Built-in".to_string()];
    let devices = devices_from_names(&names, &"Built-in".to_string());
    assert_eq!(devices.len(), 2);
    assert!(!devices[0].is_default);
    assert!(devices[1].is_default);
    assert_eq!(devices[0].id, "USB Mic");
}

#[test]
fn selection_prefers_requested_then_default() {
    let devices = vec![device("a", false), device("b", true), device("c", false)];
    assert_eq!(select_input_device(&Some("c".to_string()), &devices), Ok(2));
    // unknown id falls back to the default device
    assert_eq!(select_input_device(&Some("zz".to_string()), &devices), Ok(1));
    // empty id means no request
    assert_eq!(select_input_device(&Some(String::new()), &devices), Ok(1));
    assert_eq!(select_input_device(&None, &devices), Ok(1));
}

#[test]
fn selection_fails_without_default() {
    let devices = vec![device("a", false)];
    assert_eq!(
        select_input_device(&None, &devices),
        Err(DeviceError::NoInputDevice)
    );
    // but a matching requested id still wins
    assert_eq!(select_input_device(&Some("a".to_string()), &devices), Ok(0));
    // no devices at all: nothing to select
    assert_eq!(
        select_input_device(&None, &Vec::new()),
        Err(DeviceError::NoInputDevice)
    );
}

#[test]
fn extensions_and_supported_formats() {
    assert_eq!(get_extension("dir/track.MP3"), Some("MP3".to_string()));
    assert_eq!(get_extension("noext"), None);
    assert_eq!(get_extension("dir.d/noext"), None);
    assert_eq!(get_extension("/a/.hidden"), None);
    assert!(is_supported_audio("x/y/track.MP3"));
    assert!(is_supported_audio("voice.flac"));
    assert!(!is_supported_audio("clip.mp4"));
    assert!(is_supported_video("clip.mp4"));
    assert!(is_supported_video("movie.MKV"));
    assert!(!is_supported_video("voice.ogg"));
    assert!(is_supported_format("clip.webm"));
    assert!(!is_supported_format("notes.txt"));
}

#[test]
fn mime_type_from_extension() {
    assert_eq!(mime_for_path("a/voice.WAV"), "audio/wav");
    assert_eq!(mime_for_path("song.m4a"), "audio/mp4");
    assert_eq!(mime_for_path("clip.webm"), "audio/webm");
    // unknown and missing extensions fall back to the generic audio type
    assert_eq!(mime_for_path("mystery.xyz"), "audio/mpeg");
    assert_eq!(mime_for_path("noext"), "audio/mpeg");
}

#[test]
fn youtube_url_validation() {
    assert!(is_valid_youtube_url("https://www.youtube.com/watch?v=abc123"));
    assert!(is_valid_youtube_url("http://youtu.be/Q"));
    assert!(is_valid_youtube_url("youtube.com/shorts/x_y-1"));
    assert!(is_valid_youtube_url("www.youtube.com/watch?v=dQw4w9WgXcQ&t=1"));
    assert!(!is_valid_youtube_url("https://youtube.com/watch?v="));
    assert!(!is_valid_youtube_url("https://vimeo.com/12345"));
    assert!(!is_valid_youtube_url("youtube.com/feed"));
}

#[test]
fn dependency_report_carries_probe_results() {
    let r = check_dependencies((true, Some("2025.01.01".to_string())), (false, None));
    assert!(r.yt_dlp_installed);
    assert_eq!(r.yt_dlp_version, Some("2025.01.01".to_string()));
    assert!(!r.ffmpeg_installed);
    assert_eq!(r.ffmpeg_version, None);
}

#[test]
fn encoding_args_fixed() {
    let args = get_audio_encoding_args();
    assert_eq!(
        args,
        vec!["-acodec", "libmp3lame", "-ar", "24000", "-ac", "1", "-q:a", "2"]
    );
}

#[test]
fn model_download_check() {
    assert!(is_model_downloaded(&vec![10, 20, 30]));
    assert!(!is_model_downloaded(&vec![10, 0, 30]));
    assert!(!is_model_downloaded(&vec![10, 20]));
}

#[test]
fn transcribing_guard() {
    let mut flag = TranscribingFlag::new();
    assert!(!flag.is_transcribing());
    flag.set_transcribing(true);
    assert!(flag.is_transcribing());
    flag.set_transcribing(false);
    assert!(!flag.is_transcribing());
}

#[test]
fn silence_padding_appends_half_second() {
    let padded = pad_silence(vec![5, -5]);
    assert_eq!(padded.len(), 2 + 12000);
    assert_eq!(&padded[0..2], &[5, -5]);
    assert!(padded[2..].iter().all(|&s| s == 0));
}

#[test]
fn progress_percent_never_decreases() {
    let mut tracker = ProgressTracker::new();
    let r = tracker.report(ProgressStage::Preparing, 10, "preparing".to_string());
    assert_eq!(r.percent, 10);
    // a stage reporting a lower figure cannot move the bar backwards
    let r = tracker.report(ProgressStage::Downloading, 5, "downloading".to_string());
    assert_eq!(r.percent, 10);
    let r = tracker.report(ProgressStage::Transcribing, 80, "transcribing".to_string());
    assert_eq!(r.percent, 80);
    // out-of-range reports are clamped
    let r = tracker.report(ProgressStage::Complete, 250, "done".to_string());
    assert_eq!(r.percent, 100);
    assert_eq!(r.stage, ProgressStage::Complete);
    assert_eq!(r.message, "done");
}

fn rule(id: &str, enabled: bool) -> TranscriptionRule {
    TranscriptionRule {
        id: id.to_string(),
        title: id.to_string(),
        description: "d".to_string(),
        enabled,
        is_built_in: false,
    }
}

#[test]
fn only_enabled_rules_take_part() {
    let rules = vec![rule("a", true), rule("b", false), rule("c", true)];
    let kept = enabled_rules(rules);
    let ids: Vec<&str> = kept.iter().map(|r| r.id.as_str()).collect();
    assert_eq!(ids, vec!["a", "c"]);
}
