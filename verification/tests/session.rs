use xsay::audio::AudioCmd;
use xsay::hotkey::AppEvent;
use xsay::ipc::dispatch;
use xsay::state::{
    handle_audio_chunk, handle_hotkey_event, handle_inject_done, handle_transcript, new_shared_state,
    AppState, ChunkDecision,
};

#[test]
fn full_session_goes_round() {
    let mut s = new_shared_state();
    assert!(matches!(s, AppState::Idle));
    assert_eq!(handle_hotkey_event(&mut s, AppEvent::HotkeyPressed), Some(AudioCmd::StartRecording));
    assert!(matches!(s, AppState::Recording { .. }));
    assert_eq!(handle_hotkey_event(&mut s, AppEvent::HotkeyReleased), Some(AudioCmd::StopRecording));
    assert!(matches!(s, AppState::Transcribing));
    assert_eq!(handle_audio_chunk(&mut s, 16000, true, false, false), ChunkDecision::Transcribe);
    assert!(matches!(s, AppState::Transcribing));
    assert_eq!(handle_transcript(&mut s, "  你好，世界 "), Some("你好，世界".to_string()));
    assert!(matches!(s, AppState::Injecting));
    handle_inject_done(&mut s);
    assert!(matches!(s, AppState::Idle));
}

#[test]
fn escape_cancels_from_anywhere() {
    let mut s = AppState::Transcribing;
    assert_eq!(handle_hotkey_event(&mut s, AppEvent::EscapePressed), Some(AudioCmd::Abort));
    assert!(matches!(s, AppState::Idle));
    assert_eq!(handle_hotkey_event(&mut s, AppEvent::EscapePressed), None);
    assert!(matches!(s, AppState::Idle));
    let mut r = AppState::Injecting;
    assert_eq!(handle_hotkey_event(&mut r, AppEvent::EscapePressed), Some(AudioCmd::Abort));
    assert!(matches!(r, AppState::Idle));
}

#[test]
fn presses_outside_idle_are_ignored() {
    let mut s = AppState::Injecting;
    assert_eq!(handle_hotkey_event(&mut s, AppEvent::HotkeyPressed), None);
    assert!(matches!(s, AppState::Injecting));
    let mut t = AppState::Idle;
    assert_eq!(handle_hotkey_event(&mut t, AppEvent::HotkeyReleased), None);
    assert!(matches!(t, AppState::Idle));
}

#[test]
fn cancelled_transcript_is_dropped() {
    let mut s = AppState::Idle;
    assert_eq!(handle_transcript(&mut s, "迟到的结果"), None);
    assert!(matches!(s, AppState::Idle));
}

#[test]
fn empty_transcript_ends_the_session() {
    let mut s = AppState::Transcribing;
    assert_eq!(handle_transcript(&mut s, "   "), None);
    assert!(matches!(s, AppState::Idle));
    let mut inj = AppState::Injecting;
    assert_eq!(handle_transcript(&mut inj, ""), None);
    assert!(matches!(inj, AppState::Injecting));
}

#[test]
fn short_final_chunk_ends_the_session() {
    let mut s = AppState::Transcribing;
    assert_eq!(handle_audio_chunk(&mut s, 7999, true, false, false), ChunkDecision::TooShort);
    assert!(matches!(s, AppState::Idle));
}

#[test]
fn pause_chunks_while_recording() {
    let mut s = AppState::Idle;
    handle_hotkey_event(&mut s, AppEvent::HotkeyPressed);
    assert_eq!(handle_audio_chunk(&mut s, 20000, false, true, false), ChunkDecision::Transcribe);
    assert_eq!(handle_audio_chunk(&mut s, 20000, false, true, true), ChunkDecision::DropBackedUp);
    assert_eq!(handle_audio_chunk(&mut s, 100, false, true, false), ChunkDecision::TooShort);
    assert!(matches!(s, AppState::Recording { .. }));
    assert_eq!(handle_audio_chunk(&mut s, 20000, true, false, false), ChunkDecision::Ignore);
    assert_eq!(handle_audio_chunk(&mut s, 0, false, true, false), ChunkDecision::TooShort);
    assert!(matches!(s, AppState::Recording { .. }));
}

#[test]
fn empty_final_chunk_ends_the_session() {
    let mut s = AppState::Transcribing;
    assert_eq!(handle_audio_chunk(&mut s, 0, true, false, false), ChunkDecision::TooShort);
    assert!(matches!(s, AppState::Idle));
}

#[test]
fn pause_transcript_keeps_recording() {
    let mut s = AppState::Idle;
    handle_hotkey_event(&mut s, AppEvent::HotkeyPressed);
    assert_eq!(handle_transcript(&mut s, " 第一段 "), Some("第一段".to_string()));
    assert!(matches!(s, AppState::Recording { .. }));
    assert_eq!(handle_hotkey_event(&mut s, AppEvent::HotkeyReleased), Some(AudioCmd::StopRecording));
    assert!(matches!(s, AppState::Transcribing));
    assert_eq!(handle_transcript(&mut s, "第二段"), Some("第二段".to_string()));
    assert!(matches!(s, AppState::Injecting));
    assert_eq!(handle_transcript(&mut s, "第三段"), Some("第三段".to_string()));
    assert!(matches!(s, AppState::Injecting));
}

#[test]
fn final_chunk_goes_through_even_when_backed_up() {
    let mut s = AppState::Transcribing;
    assert_eq!(handle_audio_chunk(&mut s, 8000, true, false, true), ChunkDecision::Transcribe);
}

#[test]
fn ipc_toggle_and_cancel() {
    let idle = AppState::Idle;
    assert_eq!(dispatch("toggle", &idle), Some(AppEvent::HotkeyPressed));
    assert_eq!(dispatch("toggle\n", &idle), Some(AppEvent::HotkeyPressed));
    let mut s = AppState::Idle;
    handle_hotkey_event(&mut s, AppEvent::HotkeyPressed);
    assert_eq!(dispatch("toggle", &s), Some(AppEvent::HotkeyReleased));
    assert_eq!(dispatch("toggle", &AppState::Transcribing), None);
    assert_eq!(dispatch("toggle", &AppState::Injecting), None);
    assert_eq!(dispatch(" cancel ", &AppState::Injecting), Some(AppEvent::EscapePressed));
    assert_eq!(dispatch("press", &idle), None);
    assert_eq!(dispatch("", &idle), None);
}
