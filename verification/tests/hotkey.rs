use xsay::config::HotkeyConfig;
use xsay::hotkey::{
    evdev_code_to_name, key_name_to_evdev, modifier_to_evdev, parse_key, parse_modifier,
    rdev_key_to_name, AppEvent, HotkeyListener, Key,
};

fn cfg(key: &str, mods: &[&str], mode: &str) -> HotkeyConfig {
    HotkeyConfig {
        key: key.to_string(),
        modifiers: mods.iter().map(|m| m.to_string()).collect(),
        mode: mode.to_string(),
        internal_listener: true,
    }
}

#[test]
fn evdev_hold_press_release() {
    let c = cfg("F2", &[], "hold");
    let mut l = HotkeyListener::new();
    let r = l.handle_key(Key::F2, 1, false, &c);
    assert_eq!(r.events, vec![AppEvent::HotkeyPressed]);
    assert!(l.is_recording());
    let r = l.handle_key(Key::F2, 2, false, &c);
    assert!(r.events.is_empty());
    let r = l.handle_key(Key::F2, 0, false, &c);
    assert_eq!(r.events, vec![AppEvent::HotkeyReleased]);
    assert!(!l.is_recording());
    assert!(!l.is_held(Key::F2));
}

#[test]
fn evdev_toggle_two_taps() {
    let c = cfg("F9", &[], "toggle");
    let mut l = HotkeyListener::new();
    assert_eq!(l.handle_key(Key::F9, 1, false, &c).events, vec![AppEvent::HotkeyPressed]);
    assert!(l.handle_key(Key::F9, 0, false, &c).events.is_empty());
    assert!(l.is_recording());
    assert_eq!(l.handle_key(Key::F9, 1, false, &c).events, vec![AppEvent::HotkeyReleased]);
    assert!(l.handle_key(Key::F9, 0, false, &c).events.is_empty());
    assert!(!l.is_recording());
}

#[test]
fn evdev_modifiers_must_be_held() {
    let c = cfg("z", &["super"], "hold");
    let mut l = HotkeyListener::new();
    assert!(l.handle_key(Key::Letter('z'), 1, false, &c).events.is_empty());
    l.handle_key(Key::Letter('z'), 0, false, &c);
    l.handle_key(Key::MetaLeft, 1, false, &c);
    assert_eq!(l.handle_key(Key::Letter('z'), 1, false, &c).events, vec![AppEvent::HotkeyPressed]);
    assert_eq!(l.handle_key(Key::Letter('z'), 0, false, &c).events, vec![AppEvent::HotkeyReleased]);
}

#[test]
fn escape_is_reported() {
    let c = cfg("F2", &[], "hold");
    let mut l = HotkeyListener::new();
    assert_eq!(l.handle_key(Key::Escape, 1, false, &c).events, vec![AppEvent::EscapePressed]);
    assert!(l.handle_key(Key::Escape, 0, false, &c).events.is_empty());
    assert_eq!(l.handle_press(Key::Escape, false, &c).events, vec![AppEvent::EscapePressed]);
}

#[test]
fn capture_mode_records_key_and_modifiers() {
    let c = cfg("F2", &[], "hold");
    let mut l = HotkeyListener::new();
    let r = l.handle_key(Key::ControlRight, 1, true, &c);
    assert!(r.events.is_empty());
    assert_eq!(r.capture, None);
    let r = l.handle_key(Key::Letter('k'), 1, true, &c);
    assert_eq!(r.capture, Some(("k".to_string(), vec!["ctrl".to_string()])));
    let r = l.handle_key(Key::Escape, 1, true, &c);
    assert_eq!(r.capture, Some(("__cancel__".to_string(), vec![])));
    // the configured hotkey does not fire while capturing
    let r = l.handle_key(Key::F2, 1, true, &c);
    assert!(r.events.is_empty());
    assert!(!l.is_recording());
    assert_eq!(r.capture, Some(("F2".to_string(), vec!["ctrl".to_string()])));
}

#[test]
fn right_alt_counts_as_alt_on_linux_only() {
    let c = cfg("F2", &[], "hold");
    let mut l = HotkeyListener::new();
    l.handle_key(Key::RightAlt, 1, true, &c);
    let r = l.handle_key(Key::F5, 1, true, &c);
    assert_eq!(r.capture, Some(("F5".to_string(), vec!["alt".to_string()])));
    let mut m = HotkeyListener::new();
    m.handle_press(Key::RightAlt, true, &c);
    let r = m.handle_press(Key::F5, true, &c);
    assert_eq!(r.capture, Some(("F5".to_string(), vec![])));
}

#[test]
fn rdev_repeat_press_is_ignored() {
    let c = cfg("F8", &[], "hold");
    let mut l = HotkeyListener::new();
    assert_eq!(l.handle_press(Key::F8, false, &c).events, vec![AppEvent::HotkeyPressed]);
    assert!(l.handle_press(Key::F8, false, &c).events.is_empty());
    assert_eq!(l.handle_release(Key::F8, false, &c).events, vec![AppEvent::HotkeyReleased]);
}

#[test]
fn rdev_listener_off_sends_nothing() {
    let mut c = cfg("F8", &[], "hold");
    c.internal_listener = false;
    let mut l = HotkeyListener::new();
    assert!(l.handle_press(Key::F8, false, &c).events.is_empty());
    assert!(l.handle_release(Key::F8, false, &c).events.is_empty());
}

#[test]
fn evdev_listener_off_sends_no_hotkey_events() {
    let mut c = cfg("F2", &[], "hold");
    c.internal_listener = false;
    let mut l = HotkeyListener::new();
    assert!(l.handle_key(Key::F2, 1, false, &c).events.is_empty());
    assert!(!l.is_recording());
    assert!(l.handle_key(Key::F2, 0, false, &c).events.is_empty());
    assert_eq!(l.handle_key(Key::Escape, 1, false, &c).events, vec![AppEvent::EscapePressed]);
}

#[test]
fn reported_names_select_the_same_key() {
    for k in [Key::F1, Key::F12, Key::Insert, Key::Return, Key::NumLock, Key::Letter('u'), Key::Letter('x')] {
        let n = evdev_code_to_name(k).unwrap();
        assert_eq!(key_name_to_evdev(&n), Some(k));
    }
    for k in [Key::BackSlash, Key::RightAlt, Key::PageDown, Key::Letter('v'), Key::Letter('w')] {
        let n = rdev_key_to_name(k).unwrap();
        assert_eq!(parse_key(&n), k);
    }
}

#[test]
fn key_names() {
    assert_eq!(key_name_to_evdev("F2"), Some(Key::F2));
    assert_eq!(key_name_to_evdev("AltGr"), Some(Key::RightAlt));
    assert_eq!(key_name_to_evdev("Enter"), Some(Key::Return));
    assert_eq!(key_name_to_evdev("Q"), Some(Key::Letter('q')));
    assert_eq!(key_name_to_evdev("BackSlash"), None);
    assert_eq!(parse_key("Z"), Key::Letter('z'));
    assert_eq!(parse_key("BackSlash"), Key::BackSlash);
    assert_eq!(parse_key("nonsense"), Key::F9);
    assert_eq!(parse_key("u"), Key::Letter('u'));
    assert_eq!(parse_key("X"), Key::Letter('x'));
    assert_eq!(parse_key("Insert"), Key::F9);
    assert_eq!(evdev_code_to_name(Key::Return), Some("Return".to_string()));
    assert_eq!(evdev_code_to_name(Key::Letter('m')), Some("m".to_string()));
    assert_eq!(evdev_code_to_name(Key::RightAlt), None);
    assert_eq!(rdev_key_to_name(Key::RightAlt), Some("RightAlt".to_string()));
    assert_eq!(rdev_key_to_name(Key::Other), None);
}

#[test]
fn modifier_names() {
    assert_eq!(parse_modifier("control"), Some(Key::ControlLeft));
    assert_eq!(parse_modifier("meta"), Some(Key::MetaLeft));
    assert_eq!(modifier_to_evdev("alt"), Some(Key::AltLeft));
    assert_eq!(modifier_to_evdev("hyper"), None);
}
