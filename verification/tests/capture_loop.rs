use dictato::capture::CaptureActor;
use dictato::capture::CaptureCommand;
use dictato::capture::CaptureEffect;
use dictato::process::chunk_frames;
use dictato::process::needs_resample;
use dictato::process::DrainPhase;
use dictato::process::ProcessingLoop;

fn start_cmd() -> CaptureCommand {
    CaptureCommand::Start { device_id: None }
}

#[test]
fn start_opens_one_stream() {
    let mut actor = CaptureActor::new();
    let effects = actor.handle_command(&start_cmd(), true);
    assert_eq!(effects, vec![CaptureEffect::StreamOpened]);
    assert!(actor.stream_open);
}

#[test]
fn restart_tears_down_before_opening() {
    let mut actor = CaptureActor::new();
    actor.handle_command(&start_cmd(), true);
    // starting again: signal, drop, join — then, and only then, open anew
    let effects = actor.handle_command(&start_cmd(), true);
    assert_eq!(
        effects,
        vec![
            CaptureEffect::SignalStop,
            CaptureEffect::DropStream,
            CaptureEffect::JoinThread,
            CaptureEffect::StreamOpened,
        ]
    );
    assert!(actor.stream_open);
}

#[test]
fn stop_and_shutdown_sequences() {
    let mut actor = CaptureActor::new();
    actor.handle_command(&start_cmd(), true);
    let effects = actor.handle_command(&CaptureCommand::Stop, false);
    assert_eq!(
        effects,
        vec![
            CaptureEffect::SignalStop,
            CaptureEffect::DropStream,
            CaptureEffect::JoinThread,
        ]
    );
    assert!(!actor.stream_open);
    // a second stop finds nothing to tear down
    let effects = actor.handle_command(&CaptureCommand::Stop, false);
    assert_eq!(effects, Vec::<CaptureEffect>::new());
    let effects = actor.handle_command(&CaptureCommand::Shutdown, false);
    assert_eq!(effects, vec![CaptureEffect::ExitLoop]);
    assert!(actor.shut_down);
}

#[test]
fn refused_open_leaves_no_stream() {
    let mut actor = CaptureActor::new();
    let effects = actor.handle_command(&start_cmd(), false);
    assert_eq!(effects, Vec::<CaptureEffect>::new());
    assert!(!actor.stream_open);
}

#[test]
fn at_most_one_stream_over_interleavings() {
    // replay an interleaving and count open streams at every instant
    let mut actor = CaptureActor::new();
    let commands = [
        (start_cmd(), true),
        (start_cmd(), true),
        (CaptureCommand::Stop, false),
        (start_cmd(), false),
        (start_cmd(), true),
        (CaptureCommand::Shutdown, false),
    ];
    let mut alive: i64 = 0;
    for (cmd, ok) in commands {
        for e in actor.handle_command(&cmd, ok) {
            match e {
                CaptureEffect::StreamOpened => alive += 1,
                CaptureEffect::DropStream => alive -= 1,
                _ => {}
            }
            assert!(alive == 0 || alive == 1);
        }
        if actor.shut_down {
            break;
        }
    }
    assert_eq!(alive, 0);
}

#[test]
fn exactly_one_final_flush_pass() {
    // the capturing flag reads true twice, then false: three passes run,
    // the third being the single residual flush after the stop signal
    let flags = [true, true, false, false, false];
    let mut ctl = ProcessingLoop::new();
    let mut passes = 0;
    for f in flags {
        passes += 1; // one drain/resample/encode/emit pass per tick
        if !ctl.tick(f) {
            break;
        }
    }
    assert_eq!(passes, 3);
    assert_eq!(ctl.phase, DrainPhase::Finished);
}

#[test]
fn tick_frame_counts() {
    assert_eq!(chunk_frames(48000), 4800);
    assert_eq!(chunk_frames(24000), 2400);
    assert!(needs_resample(48000));
    assert!(!needs_resample(24000));
}
