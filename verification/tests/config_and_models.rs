use xsay::config::{hotkey_internal_listener_missing, Config};
use xsay::model::{ensure_model_step, find_local, find_local_plan, EnsureStep, LocalModel};
use xsay::model_catalog::{backend_for_filename, by_filename, default_model, models, DEFAULT_MODEL_FILENAME};

#[test]
fn catalogue_lookups() {
    let all = models();
    assert_eq!(all.len(), 3);
    assert_eq!(all[0].filename, "sensevoice");
    assert_eq!(by_filename("paraformer").unwrap().name, "Paraformer-zh");
    assert_eq!(by_filename("sensevoice-fp32").unwrap().onnx_model_file, "model.onnx");
    assert!(by_filename("ggml-base.bin").is_none());
    assert_eq!(backend_for_filename("sensevoice"), Some("sensevoice"));
    assert_eq!(backend_for_filename("ggml-tiny.bin"), None);
    assert_eq!(default_model().filename, DEFAULT_MODEL_FILENAME);
}

#[test]
fn defaults() {
    let c = Config::default();
    assert_eq!(c.hotkey.key, "F2");
    assert!(c.hotkey.modifiers.is_empty());
    assert_eq!(c.hotkey.mode, "hold");
    assert!(c.hotkey.internal_listener);
    assert_eq!(c.audio.silence_frames, 24);
    assert_eq!(c.audio.max_record_seconds, 30);
    assert_eq!(c.model.hf_repo, "k2-fsa/sherpa-onnx");
    assert_eq!(c.model.hf_filename, "sensevoice");
    assert_eq!(c.transcription.language, "zh");
    assert_eq!(c.transcription.backend, "sensevoice");
    assert_eq!(c.overlay.position, "top-right");
    assert_eq!(c.injection.paste_shortcut, "ctrl-shift-v");
    assert_eq!(c.injection.clipboard_delay_ms, 120);
}

#[test]
fn migration_moves_whisper_configs_onto_catalogue() {
    let mut c = Config::default();
    c.model.hf_filename = "ggml-base.bin".to_string();
    c.model.path = "/models/ggml-base.bin".to_string();
    c.model.hf_repo = "ggerganov/whisper.cpp".to_string();
    c.transcription.backend = "whisper".to_string();
    c.transcription.language = "en".to_string();
    c.hotkey.key = "Z".to_string();
    c.hotkey.mode = "toggle".to_string();
    c.injection.paste_shortcut = "both".to_string();
    c.injection.clipboard_delay_ms = 50;
    assert!(c.normalize_for_chinese_service());
    assert_eq!(c.model.hf_filename, "sensevoice");
    assert_eq!(c.model.path, "");
    assert_eq!(c.model.hf_repo, "k2-fsa/sherpa-onnx");
    assert_eq!(c.transcription.backend, "sensevoice");
    assert_eq!(c.transcription.language, "zh");
    assert_eq!(c.hotkey.mode, "hold");
    assert_eq!(c.injection.paste_shortcut, "ctrl-shift-v");
    assert_eq!(c.injection.clipboard_delay_ms, 120);
    // a second pass changes nothing
    assert!(!c.normalize_for_chinese_service());
}

#[test]
fn migration_keeps_catalogue_model_and_fixes_backend() {
    let mut c = Config::default();
    c.model.hf_filename = "paraformer".to_string();
    c.transcription.backend = "sensevoice".to_string();
    c.hotkey.key = "F2".to_string();
    c.hotkey.mode = "toggle".to_string();
    assert!(c.normalize_for_chinese_service());
    assert_eq!(c.model.hf_filename, "paraformer");
    assert_eq!(c.transcription.backend, "paraformer");
    assert_eq!(c.hotkey.mode, "toggle");
}

#[test]
fn first_run_and_load() {
    let c = Config::first_run();
    assert_eq!(c.hotkey.key, "F2");
    assert!(c.hotkey.modifiers.is_empty());
    let mut d = Config::default();
    d.hotkey.internal_listener = false;
    assert!(d.after_load(true));
    assert!(d.hotkey.internal_listener);
    let mut e = Config::default();
    e.hotkey.internal_listener = false;
    assert!(!e.after_load(false));
    assert!(!e.hotkey.internal_listener);
}

#[test]
fn legacy_listener_setting() {
    assert!(hotkey_internal_listener_missing("[hotkey]\nkey = \"F2\"\n"));
    assert!(hotkey_internal_listener_missing("[model]\npath = \"\"\n"));
    assert!(!hotkey_internal_listener_missing("[hotkey]\ninternal_listener = false\n"));
    assert!(!hotkey_internal_listener_missing("this is = = not toml"));
}

#[test]
fn local_model_lookup() {
    let mut m = Config::default().model;
    let plan = find_local_plan(&m);
    assert_eq!(plan.explicit, None);
    assert_eq!(plan.cached, "sensevoice");
    assert_eq!(plan.onnx_files, Some(("model.int8.onnx", "tokens.txt")));
    m.path = "/opt/m".to_string();
    m.hf_filename = "ggml-base.bin".to_string();
    let plan = find_local_plan(&m);
    assert_eq!(plan.explicit, Some("/opt/m".to_string()));
    assert_eq!(plan.onnx_files, None);
    assert_eq!(find_local(Some(true), false, false), LocalModel::Explicit);
    assert_eq!(find_local(Some(false), true, true), LocalModel::Cached);
    assert_eq!(find_local(None, false, true), LocalModel::Missing);
    assert!(matches!(ensure_model_step(&m, false, true, true), EnsureStep::ExplicitMissing(p) if p == "/opt/m"));
    m.path.clear();
    assert!(matches!(ensure_model_step(&m, false, false, false), EnsureStep::NoCacheDir));
    assert!(matches!(ensure_model_step(&m, false, true, false), EnsureStep::DownloadFile));
    m.hf_filename = "paraformer".to_string();
    assert!(matches!(ensure_model_step(&m, false, true, false), EnsureStep::DownloadArchive));
    assert!(matches!(ensure_model_step(&m, false, true, true), EnsureStep::UseCached));
}

#[test]
fn capital_z_hotkey_is_held() {
    let mut c = Config::default();
    c.hotkey.key = "Z".to_string();
    c.hotkey.mode = "toggle".to_string();
    assert!(c.normalize_for_chinese_service());
    assert_eq!(c.hotkey.mode, "hold");
    assert_eq!(c.hotkey.key, "Z");
}
