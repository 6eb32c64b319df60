use xsay::audio::{AudioCmd, Recorder, RecorderAction};

#[test]
fn start_plays_and_clears() {
    let mut r = Recorder { recording: false, buffered: 500, silent_chunks: 3 };
    assert_eq!(r.on_command(AudioCmd::StartRecording, false), RecorderAction::Play);
    assert_eq!(r, Recorder { recording: true, buffered: 0, silent_chunks: 0 });
}

#[test]
fn pause_chunk_after_silence() {
    let mut r = Recorder::new();
    r.on_command(AudioCmd::StartRecording, false);
    assert!(!r.on_samples(10000, false, 2));
    assert!(!r.on_samples(4000, true, 2));
    assert_eq!(r.silent_chunks, 1);
    // second silent block, more than one second buffered
    assert!(r.on_samples(4000, true, 2));
    assert_eq!(r, Recorder { recording: true, buffered: 0, silent_chunks: 0 });
}

#[test]
fn no_pause_chunk_under_one_second() {
    let mut r = Recorder::new();
    r.on_command(AudioCmd::StartRecording, false);
    assert!(!r.on_samples(8000, true, 1));
    assert!(!r.on_samples(8000, true, 1));
    assert_eq!(r.buffered, 16000);
    assert!(r.on_samples(1, true, 1));
}

#[test]
fn loud_block_resets_silence() {
    let mut r = Recorder::new();
    r.on_command(AudioCmd::StartRecording, false);
    r.on_samples(100, true, 5);
    r.on_samples(100, true, 5);
    r.on_samples(100, false, 5);
    assert_eq!(r.silent_chunks, 0);
    assert_eq!(r.buffered, 300);
}

#[test]
fn stop_sends_final_and_warns_on_silent_mic() {
    let mut r = Recorder::new();
    r.on_command(AudioCmd::StartRecording, false);
    r.on_samples(6400, false, 100);
    assert_eq!(r.on_command(AudioCmd::StopRecording, true), RecorderAction::SendFinal { warn_silent: true });
    assert!(!r.recording);
    let mut short = Recorder::new();
    short.on_command(AudioCmd::StartRecording, false);
    short.on_samples(6399, false, 100);
    assert_eq!(short.on_command(AudioCmd::StopRecording, true), RecorderAction::SendFinal { warn_silent: false });
}

#[test]
fn abort_discards() {
    let mut r = Recorder::new();
    r.on_command(AudioCmd::StartRecording, false);
    r.on_samples(30000, false, 100);
    assert_eq!(r.on_command(AudioCmd::Abort, false), RecorderAction::Discard);
    assert_eq!(r, Recorder { recording: false, buffered: 0, silent_chunks: 0 });
}

#[test]
fn length_limit_stops_recording() {
    let mut r = Recorder::new();
    r.on_command(AudioCmd::StartRecording, false);
    assert_eq!(r.on_tick(29, 30), RecorderAction::Nothing);
    assert_eq!(r.on_tick(30, 30), RecorderAction::SendFinal { warn_silent: false });
    assert!(!r.recording);
    assert_eq!(r.on_tick(31, 30), RecorderAction::Nothing);
}

#[test]
fn stopped_recorder_ignores_samples() {
    let mut r = Recorder::new();
    assert!(!r.on_samples(50000, true, 0));
    assert_eq!(r, Recorder::new());
}

#[test]
fn a_run_of_blocks_loses_no_samples() {
    let mut r = Recorder::new();
    r.on_command(AudioCmd::StartRecording, false);
    let blocks = [(9000, false), (5000, true), (4000, true), (1024, false), (3000, true), (20000, true), (777, false)];
    let mut sent = 0;
    let mut total = 0;
    for (n, silent) in blocks {
        let before = r.buffered;
        total += n;
        if r.on_samples(n, silent, 2) {
            sent += before + n;
        }
    }
    assert!(r.recording);
    assert_eq!(sent, 18000 + 24024);
    assert_eq!(sent + r.buffered, total);
}
