use xsay::speech_windows::{active_stats, speech_span, window_gain, WindowGain};
use xsay::sensevoice::{onnx_layout, sensevoice_variant, OnnxOptions};
use xsay::transcribe::{
    is_onnx_backend, join_segments, noise_filter, onnx_options, onnx_transcript, recogniser_threads,
    strip_markers, warmup_options, whisper_initial_prompt, whisper_language, whisper_transcript,
    FilterDecision,
};

#[test]
fn backends() {
    assert!(is_onnx_backend("sensevoice"));
    assert!(is_onnx_backend("sensevoice-fp32"));
    assert!(is_onnx_backend("paraformer"));
    assert!(!is_onnx_backend("whisper"));
    assert_eq!(sensevoice_variant("sensevoice"), Some(("sensevoice", "model.int8.onnx")));
    assert_eq!(sensevoice_variant("sensevoice-fp32"), Some(("sensevoice-fp32", "model.onnx")));
    assert_eq!(sensevoice_variant("paraformer"), None);
    assert_eq!(onnx_layout("paraformer"), Some(("paraformer", "model.int8.onnx")));
    assert_eq!(onnx_layout("whisper"), None);
}

#[test]
fn options() {
    let d = OnnxOptions::default();
    assert_eq!(d.language, "auto");
    assert!(d.use_itn);
    assert_eq!(d.provider, "cpu");
    assert_eq!(d.num_threads, 4);
    let o = onnx_options("zh", 0, true);
    assert_eq!(o.language, "zh");
    assert_eq!(o.provider, "cuda");
    assert_eq!(o.num_threads, 1);
    assert_eq!(warmup_options(false).num_threads, 4);
    assert_eq!(recogniser_threads(-3), 1);
    assert_eq!(recogniser_threads(8), 8);
}

#[test]
fn whisper_settings() {
    assert_eq!(whisper_language("auto"), None);
    assert_eq!(whisper_language(""), None);
    assert_eq!(whisper_language("yue"), Some("yue".to_string()));
    assert_eq!(whisper_initial_prompt("zh"), Some("以下是普通话的简体中文内容。"));
    assert_eq!(whisper_initial_prompt("en"), None);
}

#[test]
fn filter_decisions() {
    assert_eq!(noise_filter(0, None), FilterDecision::Nothing);
    assert_eq!(noise_filter(16000, None), FilterDecision::EmptyTranscript);
    assert_eq!(noise_filter(16000, Some(7999)), FilterDecision::EmptyTranscript);
    assert_eq!(noise_filter(16000, Some(8000)), FilterDecision::Transcribe);
}

#[test]
fn markers_are_stripped() {
    assert_eq!(strip_markers("<|zh|><|NEUTRAL|><|Speech|>你好世界"), "你好世界");
    assert_eq!(strip_markers("a<b>c"), "ac");
    assert_eq!(strip_markers("plain"), "plain");
    assert_eq!(onnx_transcript("<|zh|><|withitn|>明天见。", "zh"), "明天见。");
    assert_eq!(onnx_transcript("<|en|>you.", "zh"), "");
}

#[test]
fn whisper_segments_joined() {
    let segs = vec![" 今天开会 ".to_string(), "[BLANK_AUDIO]".to_string(), "讨论预算".to_string(), "  ".to_string()];
    assert_eq!(join_segments(&segs, "zh"), "今天开会 讨论预算 ");
    assert_eq!(whisper_transcript(&segs, "zh"), "今天开会 讨论预算");
    let silent = vec!["(silence)".to_string()];
    assert_eq!(whisper_transcript(&silent, "zh"), "");
}

#[test]
fn filter_window_bookkeeping() {
    let a = vec![false, true, true, false, true, true, true, false];
    assert_eq!(active_stats(&a), (5, 3));
    assert_eq!(active_stats(&vec![]), (0, 0));
    // first active 1 → start 0; last active 6 → end (6+1+5)*320 = 3840, capped by the audio
    assert_eq!(speech_span(&a, 2560), Some((0, 2560)));
    let mut b = vec![false; 20];
    b[10] = true;
    b[12] = true;
    assert_eq!(speech_span(&b, 6400), Some((5 * 320, 18 * 320)));
    assert_eq!(speech_span(&vec![false; 3], 960), Some((0, 960)));
    assert_eq!(speech_span(&vec![], 960), None);
    assert_eq!(window_gain(false, false), WindowGain::Quiet);
    assert_eq!(window_gain(true, false), WindowGain::Weak);
    assert_eq!(window_gain(true, true), WindowGain::Full);
}
