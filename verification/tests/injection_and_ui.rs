use xsay::settings::{hotkey_parts, mode_hint};
use xsay::autostart::{render_entry, Platform};
use xsay::config::InjectionConfig;
use xsay::fonts::{cjk_font_candidates, find_system_cjk_font};
use xsay::hotkey::{key_name_to_evdev, parse_key, Key};
use xsay::inject::{
    keystroke_fallback, paste_notification, paste_sequences, paste_succeeded, plan_injection,
    preview_for_notification, restores_clipboard, InjectPlan, PasteKey,
};
use xsay::settings::{
    capture_from_listener, capture_from_window, download_completion, egui_key_to_rdev,
    hotkey_changed, hotkey_saved_message, model_row_actions, pretty_key, pretty_mod,
    switched_message, update_badge, CaptureOutcome, CompletionStep, Modifiers, RowAction, RowState,
    UpdateBadge,
};
use xsay::download::DlState;
use xsay::tray::{TrayAction, TrayActions};

fn inj(method: &str) -> InjectionConfig {
    InjectionConfig { method: method.to_string(), clipboard_delay_ms: 150, paste_shortcut: "ctrl-v".to_string() }
}

#[test]
fn injection_plans() {
    assert!(matches!(plan_injection("", &inj("clipboard")), InjectPlan::Skip));
    assert!(matches!(plan_injection("你好", &inj("type")), InjectPlan::Keystrokes));
    match plan_injection("你好", &inj("clipboard")) {
        InjectPlan::Clipboard { delay_ms, shortcut } => {
            assert_eq!(delay_ms, 150);
            assert_eq!(shortcut, "ctrl-v");
        }
        other => panic!("unexpected {:?}", other),
    }
    match keystroke_fallback() {
        InjectPlan::Clipboard { delay_ms, shortcut } => {
            assert_eq!(delay_ms, 80);
            assert_eq!(shortcut, "both");
        }
        other => panic!("unexpected {:?}", other),
    }
    assert!(restores_clipboard(false));
    assert!(!restores_clipboard(true));
}

#[test]
fn paste_key_sequences() {
    let (ctrl, shift, v) = (PasteKey::LeftCtrl, PasteKey::LeftShift, PasteKey::V);
    assert_eq!(paste_sequences("ctrl-v"), vec![vec![(ctrl, 1), (v, 1), (v, 0), (ctrl, 0)]]);
    assert_eq!(paste_sequences("whatever"), paste_sequences("ctrl-v"));
    assert_eq!(
        paste_sequences("ctrl-shift-v"),
        vec![vec![(ctrl, 1), (shift, 1), (v, 1), (v, 0), (shift, 0), (ctrl, 0)]]
    );
    assert_eq!(paste_sequences("both").len(), 2);
    assert!(paste_succeeded(&vec![false, true]));
    assert!(!paste_succeeded(&vec![false]));
    assert!(!paste_succeeded(&vec![]));
}

#[test]
fn notification_preview() {
    assert_eq!(preview_for_notification("短句"), "短句");
    let long: String = std::iter::repeat('字').take(100).collect();
    let p = preview_for_notification(&long);
    assert_eq!(p.chars().count(), 81);
    assert!(p.ends_with('…'));
    let exact: String = std::iter::repeat('a').take(80).collect();
    assert_eq!(preview_for_notification(&exact), exact);
    assert_eq!(paste_notification(false, false, "x"), None);
    assert_eq!(paste_notification(true, true, "x"), None);
    let (title, body) = paste_notification(true, false, "你好").unwrap();
    assert_eq!(title, "xsay 识别完成（请按 Ctrl+V 粘贴）");
    assert_eq!(body, "你好\n自动粘贴失败（见 /tmp/xsay.log）");
}

#[test]
fn tray_queue_in_order() {
    let mut q = TrayActions::new();
    q.request_show_settings();
    q.request_quit();
    assert_eq!(q.poll_events(), vec![TrayAction::ShowSettings, TrayAction::Quit]);
    assert!(q.poll_events().is_empty());
}

#[test]
fn autostart_entries() {
    let linux = render_entry(Platform::Linux, "/usr/bin/xsay");
    assert!(linux.starts_with("[Desktop Entry]\n"));
    assert!(linux.contains("Exec=/usr/bin/xsay\n"));
    assert!(linux.ends_with("Categories=Utility;\n"));
    let mac = render_entry(Platform::MacOs, "/Applications/xsay");
    assert!(mac.contains("<string>/Applications/xsay</string>"));
    assert_eq!(
        render_entry(Platform::Windows, "C:\\xsay.exe"),
        "@echo off\r\nstart \"\" \"C:\\xsay.exe\"\r\n"
    );
}

#[test]
fn font_candidates() {
    let linux = cjk_font_candidates(Platform::Linux);
    assert_eq!(linux[0], ("/usr/share/fonts/opentype/noto/NotoSansCJK-Regular.ttc", 2));
    assert_eq!(linux[4].1, 0);
    assert_eq!(linux[10], ("/usr/share/fonts/google-noto-cjk/NotoSansCJK-Regular.ttc", 2));
    assert_eq!(cjk_font_candidates(Platform::Windows)[0], ("msyh.ttc", 0));
    assert_eq!(find_system_cjk_font(&vec![false, true, true]), Some(1));
    assert_eq!(find_system_cjk_font(&vec![false, false]), None);
}

#[test]
fn hotkey_labels_and_capture() {
    assert_eq!(pretty_mod("ctrl"), "Ctrl");
    assert_eq!(pretty_mod("super"), "Super");
    assert_eq!(pretty_mod("hyper"), "hyper");
    assert_eq!(pretty_key("z"), "Z");
    assert_eq!(pretty_key("F9"), "F9");
    assert_eq!(egui_key_to_rdev(Key::F3), Some("F3".to_string()));
    assert_eq!(egui_key_to_rdev(Key::Letter('q')), Some("q".to_string()));
    assert_eq!(egui_key_to_rdev(Key::CapsLock), None);
    for k in [Key::F1, Key::Home, Key::Insert, Key::Tab, Key::Letter('w')] {
        let n = egui_key_to_rdev(k).unwrap();
        assert_eq!(key_name_to_evdev(&n), Some(k));
    }
    assert_eq!(parse_key(&egui_key_to_rdev(Key::PageDown).unwrap()), Key::PageDown);
    assert_eq!(parse_key(&egui_key_to_rdev(Key::Insert).unwrap()), Key::F9);
    let m = Modifiers { ctrl: true, alt: false, shift: true, command: false };
    match capture_from_window(Key::F2, m) {
        CaptureOutcome::Captured(k, mods) => {
            assert_eq!(k, "F2");
            assert_eq!(mods, vec!["ctrl".to_string(), "shift".to_string()]);
        }
        other => panic!("unexpected {:?}", other),
    }
    assert!(matches!(capture_from_window(Key::Escape, m), CaptureOutcome::Cancelled));
    assert!(matches!(capture_from_window(Key::Space, m), CaptureOutcome::Waiting));
    assert!(matches!(capture_from_listener(None), CaptureOutcome::Waiting));
    assert!(matches!(
        capture_from_listener(Some(("__cancel__".to_string(), vec![]))),
        CaptureOutcome::Cancelled
    ));
    assert!(matches!(
        capture_from_listener(Some(("F7".to_string(), vec!["alt".to_string()]))),
        CaptureOutcome::Captured(k, _) if k == "F7"
    ));
}

#[test]
fn hotkey_save_state() {
    let mods = vec!["ctrl".to_string()];
    assert!(!hotkey_changed("F2", &mods, "hold", "F2", &mods, "hold"));
    assert!(hotkey_changed("F3", &mods, "hold", "F2", &mods, "hold"));
    assert!(hotkey_changed("F2", &vec![], "hold", "F2", &mods, "hold"));
    assert!(hotkey_changed("F2", &mods, "toggle", "F2", &mods, "hold"));
    assert_eq!(hotkey_saved_message("F2", "toggle"), "快捷键已更新为 F2（点按切换）");
    assert_eq!(hotkey_saved_message("z", "hold"), "快捷键已更新为 z（按住说话）");
    assert_eq!(switched_message("Paraformer-zh", "paraformer"), "✓ 已切换到 Paraformer-zh（后端 = paraformer）");
}

fn row() -> RowState {
    RowState {
        is_this_download: false,
        paused: false,
        failed: false,
        is_downloaded: false,
        is_current: false,
        has_partial: false,
        is_whisper: true,
        installing: false,
        no_download: true,
    }
}

#[test]
fn model_row_action_lists() {
    let mut s = row();
    assert_eq!(model_row_actions(s), vec![RowAction::Download { resume: false, enabled: true }]);
    s.has_partial = true;
    s.no_download = false;
    assert_eq!(
        model_row_actions(s),
        vec![RowAction::Download { resume: true, enabled: false }, RowAction::DeletePartial]
    );
    let mut d = row();
    d.is_downloaded = true;
    assert_eq!(model_row_actions(d), vec![RowAction::Switch, RowAction::Delete]);
    d.is_current = true;
    assert_eq!(model_row_actions(d), vec![RowAction::Delete]);
    let mut a = row();
    a.is_whisper = false;
    a.installing = true;
    assert_eq!(model_row_actions(a), vec![RowAction::Install { installing: true }]);
    let mut dl = row();
    dl.is_this_download = true;
    dl.failed = true;
    assert_eq!(model_row_actions(dl), vec![RowAction::Pause, RowAction::Cancel, RowAction::Retry]);
    dl.paused = true;
    dl.failed = false;
    assert_eq!(model_row_actions(dl), vec![RowAction::Resume, RowAction::Cancel]);
}

#[test]
fn update_badges() {
    assert_eq!(update_badge(Some(10), true, 10), Some(UpdateBadge::UpToDate));
    assert_eq!(update_badge(Some(11), true, 10), Some(UpdateBadge::UpdateAvailable));
    assert_eq!(update_badge(Some(11), false, 10), None);
    assert_eq!(update_badge(None, true, 10), None);
}

#[test]
fn download_completion_steps() {
    let done = Some(DlState::Completed);
    let f = Some("paraformer".to_string());
    assert!(matches!(
        download_completion(&done, &f, &Some("paraformer".to_string()), "sensevoice", true, "Paraformer-zh"),
        CompletionStep::Extract
    ));
    match download_completion(&done, &f, &None, "sensevoice", true, "Paraformer-zh") {
        CompletionStep::Downloaded { message } => assert_eq!(message, "✓ Paraformer-zh 下载完成"),
        other => panic!("unexpected {:?}", other),
    }
    match download_completion(&done, &f, &None, "sensevoice", false, "Paraformer-zh") {
        CompletionStep::EnableAndReload { message } => assert_eq!(message, "✓ Paraformer-zh 下载完成并已启用"),
        other => panic!("unexpected {:?}", other),
    }
    assert!(matches!(
        download_completion(&Some(DlState::Cancelled), &f, &None, "", false, "x"),
        CompletionStep::Forget
    ));
    assert!(matches!(
        download_completion(&Some(DlState::Downloading), &f, &None, "", false, "x"),
        CompletionStep::Nothing
    ));
}

#[test]
fn hotkey_display_parts() {
    let mods = vec!["ctrl".to_string(), "super".to_string()];
    assert_eq!(hotkey_parts(&mods, "z"), vec!["Ctrl".to_string(), "Super".to_string(), "Z".to_string()]);
    assert_eq!(hotkey_parts(&vec![], "F9"), vec!["F9".to_string()]);
    assert!(mode_hint("toggle").starts_with("点按切换"));
    assert!(mode_hint("hold").starts_with("按住说话"));
}
