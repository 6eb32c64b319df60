//! Global-hotkey logic shared by the keyboard backends: key names, modifier
//! matching, push-to-talk / toggle decisions and key capture for the settings UI.
//!
//! The backends (evdev on Linux, rdev on macOS / Windows) hand each key event to a
//! [`HotkeyListener`] as a [`Key`] and forward the [`AppEvent`]s it answers with.

use crate::config::HotkeyConfig;
use crate::text::{ascii_alpha, ascii_lower, chars_of, str_eq, string_of};
use std::collections::HashSet;
use vstd::prelude::*;

verus! {

/// Events sent from the hotkey backends to the coordinator.
#[derive(Clone, Copy, Debug, PartialEq, Eq, Structural)]
pub enum AppEvent {
    HotkeyPressed,
    HotkeyReleased,
    EscapePressed,
}

/// Which keyboard listener ended up running, shown by the settings window.
#[derive(Clone, Debug, PartialEq, Eq)]
pub enum Backend {
    /// No listener in the process: recording is triggered through `xsay toggle`
    /// bound to a desktop shortcut.
    SystemShortcutOnly,
    /// Linux: reading `/dev/input/event*` directly, on `devices` keyboards.
    Evdev { devices: usize },
    /// Linux: evdev could not be used (typically: not in the `input` group).
    EvdevUnavailable { reason: String },
    /// macOS / Windows: the native key-tap listener.
    Rdev,
}

/// A keyboard key, as far as the hotkey logic tells keys apart. Letters are
/// `Letter` with the small ASCII letter; keys the logic never names are `Other`.
#[derive(Clone, Copy, Debug, PartialEq, Eq, Structural)]
pub enum Key {
    F1, F2, F3, F4, F5, F6, F7, F8, F9, F10, F11, F12,
    CapsLock, ScrollLock, Pause, Home, End, PageUp, PageDown, Delete, Insert, Tab,
    BackSlash, Space, Return, PrintScreen, NumLock,
    /// Right Alt, also called AltGr.
    RightAlt,
    Escape,
    ControlLeft, ControlRight, ShiftLeft, ShiftRight,
    /// Left Alt.
    AltLeft,
    MetaLeft, MetaRight,
    Letter(char),
    Other,
}

// ---------------------------------------------------------------- name tables

/// A one-letter name (either case) stands for the letter key.
pub open spec fn letter_for_name(name: Seq<char>) -> Option<Key> {
    if name.len() == 1 && ascii_alpha(name[0]) {
        Some(Key::Letter(ascii_lower(name[0])))
    } else {
        None
    }
}

/// A letter key is named by its small letter.
pub open spec fn name_for_letter(key: Key) -> Option<Seq<char>> {
    match key {
        Key::Letter(c) => if 'a' <= c && c <= 'z' { Some(seq![c]) } else { None },
        _ => None,
    }
}

/// Key names both listeners understand, besides letters: the function keys, the
/// lock and navigation keys, `Return` (also `Enter`) and the right Alt key
/// (`RightAlt`, also `AltGr`).
pub open spec fn shared_key_for_name(name: Seq<char>) -> Option<Key> {
    if name == "F1"@ {
        Some(Key::F1)
    } else if name == "F2"@ {
        Some(Key::F2)
    } else if name == "F3"@ {
        Some(Key::F3)
    } else if name == "F4"@ {
        Some(Key::F4)
    } else if name == "F5"@ {
        Some(Key::F5)
    } else if name == "F6"@ {
        Some(Key::F6)
    } else if name == "F7"@ {
        Some(Key::F7)
    } else if name == "F8"@ {
        Some(Key::F8)
    } else if name == "F9"@ {
        Some(Key::F9)
    } else if name == "F10"@ {
        Some(Key::F10)
    } else if name == "F11"@ {
        Some(Key::F11)
    } else if name == "F12"@ {
        Some(Key::F12)
    } else if name == "CapsLock"@ {
        Some(Key::CapsLock)
    } else if name == "ScrollLock"@ {
        Some(Key::ScrollLock)
    } else if name == "Pause"@ {
        Some(Key::Pause)
    } else if name == "Home"@ {
        Some(Key::Home)
    } else if name == "End"@ {
        Some(Key::End)
    } else if name == "PageUp"@ {
        Some(Key::PageUp)
    } else if name == "PageDown"@ {
        Some(Key::PageDown)
    } else if name == "Delete"@ {
        Some(Key::Delete)
    } else if name == "Tab"@ {
        Some(Key::Tab)
    } else if name == "Space"@ {
        Some(Key::Space)
    } else if name == "Return"@ {
        Some(Key::Return)
    } else if name == "Enter"@ {
        Some(Key::Return)
    } else if name == "PrintScreen"@ {
        Some(Key::PrintScreen)
    } else if name == "NumLock"@ {
        Some(Key::NumLock)
    } else if name == "RightAlt"@ {
        Some(Key::RightAlt)
    } else if name == "AltGr"@ {
        Some(Key::RightAlt)
    } else {
        None
    }
}

/// The names both listeners report for captured keys, besides letters.
pub open spec fn shared_name_for_key(key: Key) -> Option<Seq<char>> {
    match key {
        Key::F1 => Some("F1"@),
        Key::F2 => Some("F2"@),
        Key::F3 => Some("F3"@),
        Key::F4 => Some("F4"@),
        Key::F5 => Some("F5"@),
        Key::F6 => Some("F6"@),
        Key::F7 => Some("F7"@),
        Key::F8 => Some("F8"@),
        Key::F9 => Some("F9"@),
        Key::F10 => Some("F10"@),
        Key::F11 => Some("F11"@),
        Key::F12 => Some("F12"@),
        Key::CapsLock => Some("CapsLock"@),
        Key::ScrollLock => Some("ScrollLock"@),
        Key::Pause => Some("Pause"@),
        Key::Home => Some("Home"@),
        Key::End => Some("End"@),
        Key::PageUp => Some("PageUp"@),
        Key::PageDown => Some("PageDown"@),
        Key::Delete => Some("Delete"@),
        Key::Tab => Some("Tab"@),
        Key::Space => Some("Space"@),
        Key::Return => Some("Return"@),
        Key::PrintScreen => Some("PrintScreen"@),
        Key::NumLock => Some("NumLock"@),
        _ => None,
    }
}

/// The key a configured name selects on Linux: a letter, `Insert`, or a shared name.
pub open spec fn evdev_key_for_name(name: Seq<char>) -> Option<Key> {
    match letter_for_name(name) {
        Some(k) => Some(k),
        None => if name == "Insert"@ { Some(Key::Insert) } else { shared_key_for_name(name) },
    }
}

/// The key a configured name selects on macOS / Windows: a letter, `BackSlash`, or
/// a shared name; unknown names select F9.
pub open spec fn rdev_key_for_name(name: Seq<char>) -> Key {
    match letter_for_name(name) {
        Some(k) => k,
        None => if name == "BackSlash"@ {
            Key::BackSlash
        } else {
            match shared_key_for_name(name) {
                Some(k) => k,
                None => Key::F9,
            }
        },
    }
}

/// The name the Linux listener reports for `key`.
pub open spec fn evdev_name_for_key(key: Key) -> Option<Seq<char>> {
    match name_for_letter(key) {
        Some(n) => Some(n),
        None => if key == Key::Insert { Some("Insert"@) } else { shared_name_for_key(key) },
    }
}

/// The name the macOS / Windows listener reports for `key`.
pub open spec fn rdev_name_for_key(key: Key) -> Option<Seq<char>> {
    match name_for_letter(key) {
        Some(n) => Some(n),
        None => if key == Key::BackSlash {
            Some("BackSlash"@)
        } else if key == Key::RightAlt {
            Some("RightAlt"@)
        } else {
            shared_name_for_key(key)
        },
    }
}

/// The key that a modifier name requires to be held.
pub open spec fn modifier_key(name: Seq<char>) -> Option<Key> {
    if name == "ctrl"@ || name == "control"@ {
        Some(Key::ControlLeft)
    } else if name == "alt"@ {
        Some(Key::AltLeft)
    } else if name == "shift"@ {
        Some(Key::ShiftLeft)
    } else if name == "super"@ || name == "meta"@ {
        Some(Key::MetaLeft)
    } else {
        None
    }
}

fn shared_key(name: &str) -> (r: Option<Key>)
    ensures
        r == shared_key_for_name(name@),
{
    if str_eq(name, "F1") {
        Some(Key::F1)
    } else if str_eq(name, "F2") {
        Some(Key::F2)
    } else if str_eq(name, "F3") {
        Some(Key::F3)
    } else if str_eq(name, "F4") {
        Some(Key::F4)
    } else if str_eq(name, "F5") {
        Some(Key::F5)
    } else if str_eq(name, "F6") {
        Some(Key::F6)
    } else if str_eq(name, "F7") {
        Some(Key::F7)
    } else if str_eq(name, "F8") {
        Some(Key::F8)
    } else if str_eq(name, "F9") {
        Some(Key::F9)
    } else if str_eq(name, "F10") {
        Some(Key::F10)
    } else if str_eq(name, "F11") {
        Some(Key::F11)
    } else if str_eq(name, "F12") {
        Some(Key::F12)
    } else if str_eq(name, "CapsLock") {
        Some(Key::CapsLock)
    } else if str_eq(name, "ScrollLock") {
        Some(Key::ScrollLock)
    } else if str_eq(name, "Pause") {
        Some(Key::Pause)
    } else if str_eq(name, "Home") {
        Some(Key::Home)
    } else if str_eq(name, "End") {
        Some(Key::End)
    } else if str_eq(name, "PageUp") {
        Some(Key::PageUp)
    } else if str_eq(name, "PageDown") {
        Some(Key::PageDown)
    } else if str_eq(name, "Delete") {
        Some(Key::Delete)
    } else if str_eq(name, "Tab") {
        Some(Key::Tab)
    } else if str_eq(name, "Space") {
        Some(Key::Space)
    } else if str_eq(name, "Return") {
        Some(Key::Return)
    } else if str_eq(name, "Enter") {
        Some(Key::Return)
    } else if str_eq(name, "PrintScreen") {
        Some(Key::PrintScreen)
    } else if str_eq(name, "NumLock") {
        Some(Key::NumLock)
    } else if str_eq(name, "RightAlt") {
        Some(Key::RightAlt)
    } else if str_eq(name, "AltGr") {
        Some(Key::RightAlt)
    } else {
        None
    }
}

fn shared_name(key: Key) -> (r: Option<&'static str>)
    ensures
        match r {
            Some(s) => shared_name_for_key(key) == Some(s@),
            None => shared_name_for_key(key) is None,
        },
{
    match key {
        Key::F1 => Some("F1"),
        Key::F2 => Some("F2"),
        Key::F3 => Some("F3"),
        Key::F4 => Some("F4"),
        Key::F5 => Some("F5"),
        Key::F6 => Some("F6"),
        Key::F7 => Some("F7"),
        Key::F8 => Some("F8"),
        Key::F9 => Some("F9"),
        Key::F10 => Some("F10"),
        Key::F11 => Some("F11"),
        Key::F12 => Some("F12"),
        Key::CapsLock => Some("CapsLock"),
        Key::ScrollLock => Some("ScrollLock"),
        Key::Pause => Some("Pause"),
        Key::Home => Some("Home"),
        Key::End => Some("End"),
        Key::PageUp => Some("PageUp"),
        Key::PageDown => Some("PageDown"),
        Key::Delete => Some("Delete"),
        Key::Tab => Some("Tab"),
        Key::Space => Some("Space"),
        Key::Return => Some("Return"),
        Key::PrintScreen => Some("PrintScreen"),
        Key::NumLock => Some("NumLock"),
        _ => None,
    }
}

fn letter_key(name: &str) -> (r: Option<Key>)
    ensures
        r == letter_for_name(name@),
{
    let v = chars_of(name);
    if v.len() == 1 && crate::text::is_ascii_alpha(v[0]) {
        Some(Key::Letter(crate::text::to_ascii_lower(v[0])))
    } else {
        None
    }
}

fn letter_name(key: Key) -> (r: Option<String>)
    ensures
        r matches Some(s) ==> name_for_letter(key) == Some(s@),
        r is None <==> name_for_letter(key) is None,
{
    match key {
        Key::Letter(c) => {
            if 'a' <= c && c <= 'z' {
                let v = vec![c];
                assert(v@ =~= seq![c]);
                Some(string_of(&v))
            } else {
                None
            }
        },
        _ => None,
    }
}

/// The key a configured hotkey name selects on Linux, if it names one.
pub fn key_name_to_evdev(name: &str) -> (r: Option<Key>)
    ensures
        r == evdev_key_for_name(name@),
{
    match letter_key(name) {
        Some(k) => Some(k),
        None => if str_eq(name, "Insert") { Some(Key::Insert) } else { shared_key(name) },
    }
}

/// The key a configured hotkey name selects on macOS / Windows; F9 when the name is
/// unknown.
pub fn parse_key(name: &str) -> (r: Key)
    ensures
        r == rdev_key_for_name(name@),
{
    match letter_key(name) {
        Some(k) => k,
        None => if str_eq(name, "BackSlash") {
            Key::BackSlash
        } else {
            match shared_key(name) {
                Some(k) => k,
                None => Key::F9,
            }
        },
    }
}

/// The name the Linux listener reports for a captured key.
pub fn evdev_code_to_name(key: Key) -> (r: Option<String>)
    ensures
        r matches Some(s) ==> evdev_name_for_key(key) == Some(s@),
        r is None <==> evdev_name_for_key(key) is None,
{
    match letter_name(key) {
        Some(n) => Some(n),
        None => if key == Key::Insert {
            Some(String::from_str("Insert"))
        } else {
            match shared_name(key) {
                Some(n) => Some(String::from_str(n)),
                None => None,
            }
        },
    }
}

/// The name the macOS / Windows listener reports for a captured key.
pub fn rdev_key_to_name(key: Key) -> (r: Option<String>)
    ensures
        r matches Some(s) ==> rdev_name_for_key(key) == Some(s@),
        r is None <==> rdev_name_for_key(key) is None,
{
    match letter_name(key) {
        Some(n) => Some(n),
        None => if key == Key::BackSlash {
            Some(String::from_str("BackSlash"))
        } else if key == Key::RightAlt {
            Some(String::from_str("RightAlt"))
        } else {
            match shared_name(key) {
                Some(n) => Some(String::from_str(n)),
                None => None,
            }
        },
    }
}

/// The key a modifier name (`ctrl`/`control`, `alt`, `shift`, `super`/`meta`)
/// requires to be held.
pub fn parse_modifier(name: &str) -> (r: Option<Key>)
    ensures
        r == modifier_key(name@),
{
    if str_eq(name, "ctrl") || str_eq(name, "control") {
        Some(Key::ControlLeft)
    } else if str_eq(name, "alt") {
        Some(Key::AltLeft)
    } else if str_eq(name, "shift") {
        Some(Key::ShiftLeft)
    } else if str_eq(name, "super") || str_eq(name, "meta") {
        Some(Key::MetaLeft)
    } else {
        None
    }
}

/// The key a modifier name requires to be held, on Linux (same names as
/// [`parse_modifier`]).
pub fn modifier_to_evdev(name: &str) -> (r: Option<Key>)
    ensures
        r == modifier_key(name@),
{
    parse_modifier(name)
}

// ---------------------------------------------------------------- listener

/// The modifier keys; a bare modifier press is never captured as a hotkey.
pub open spec fn is_modifier(k: Key) -> bool {
    k == Key::ControlLeft || k == Key::ControlRight || k == Key::ShiftLeft || k == Key::ShiftRight
        || k == Key::AltLeft || k == Key::RightAlt || k == Key::MetaLeft || k == Key::MetaRight
}

/// The modifier names of a captured hotkey, from the keys held. Linux counts either
/// Alt key as `alt`; macOS / Windows count the left one only.
pub open spec fn held_mods(held: Set<Key>, right_alt_is_alt: bool) -> Seq<Seq<char>> {
    (if held.contains(Key::ControlLeft) || held.contains(Key::ControlRight) {
        seq!["ctrl"@]
    } else {
        seq![]
    }) + (if held.contains(Key::AltLeft) || (right_alt_is_alt && held.contains(Key::RightAlt)) {
        seq!["alt"@]
    } else {
        seq![]
    }) + (if held.contains(Key::ShiftLeft) || held.contains(Key::ShiftRight) {
        seq!["shift"@]
    } else {
        seq![]
    }) + (if held.contains(Key::MetaLeft) || held.contains(Key::MetaRight) {
        seq!["super"@]
    } else {
        seq![]
    })
}

/// The name reported for Escape during capture: it cancels the capture.
pub open spec fn cancel_name() -> Seq<char> {
    "__cancel__"@
}

/// What the Linux listener captures for a press of `key` with `held` down.
pub open spec fn evdev_capture(key: Key, held: Set<Key>) -> Option<(Seq<char>, Seq<Seq<char>>)> {
    if is_modifier(key) {
        None
    } else if key == Key::Escape {
        Some((cancel_name(), seq![]))
    } else {
        match evdev_name_for_key(key) {
            Some(n) => Some((n, held_mods(held, true))),
            None => None,
        }
    }
}

/// What the macOS / Windows listener captures for a press of `key` with `held` down.
pub open spec fn rdev_capture(key: Key, held: Set<Key>) -> Option<(Seq<char>, Seq<Seq<char>>)> {
    if is_modifier(key) {
        None
    } else if key == Key::Escape {
        Some((cancel_name(), seq![]))
    } else {
        match rdev_name_for_key(key) {
            Some(n) => Some((n, held_mods(held, false))),
            None => None,
        }
    }
}

/// Every configured modifier that names a key has that key held.
pub open spec fn mods_held(mods: Seq<String>, held: Set<Key>) -> bool {
    forall|i: int| 0 <= i < mods.len() ==> match #[trigger] modifier_key(mods[i]@) {
        Some(k) => held.contains(k),
        None => true,
    }
}

/// Whether the hotkey is in toggle mode (tap to start, tap to stop).
pub open spec fn toggle_mode(cfg: HotkeyConfig) -> bool {
    cfg.mode@ == "toggle"@
}

/// The hotkey events that move the recording flag from `before` to `after`.
pub open spec fn transition_events(before: bool, after: bool) -> Seq<AppEvent> {
    if before == after {
        seq![]
    } else if after {
        seq![AppEvent::HotkeyPressed]
    } else {
        seq![AppEvent::HotkeyReleased]
    }
}

/// Recording flag after a (first) press of the hotkey: toggle mode flips it, hold
/// mode sets it.
pub open spec fn after_press(recording: bool, toggle: bool) -> bool {
    if toggle { !recording } else { true }
}

/// The effect of one key event on the listener.
pub struct HotkeyStep {
    pub held: Set<Key>,
    pub recording: bool,
    pub events: Seq<AppEvent>,
    pub capture: Option<(Seq<char>, Seq<Seq<char>>)>,
}

/// One Linux key event: `value` 1 is a press, 0 a release, anything else (auto-repeat)
/// is ignored. With the internal listener switched off the hotkey does nothing here
/// (recording is then driven by `xsay toggle`); Escape is still reported.
pub open spec fn evdev_step(
    held: Set<Key>,
    recording: bool,
    key: Key,
    value: i32,
    capture_active: bool,
    cfg: HotkeyConfig,
) -> HotkeyStep {
    let pressed = value == 1;
    let released = value == 0;
    if !pressed && !released {
        HotkeyStep { held, recording, events: seq![], capture: None }
    } else {
        let held2 = if pressed { held.insert(key) } else { held.remove(key) };
        if capture_active {
            HotkeyStep {
                held: held2,
                recording,
                events: seq![],
                capture: if pressed { evdev_capture(key, held2) } else { None },
            }
        } else {
            let esc = if pressed && key == Key::Escape { seq![AppEvent::EscapePressed] } else { seq![] };
            let rec2 = if !cfg.internal_listener || evdev_key_for_name(cfg.key@) != Some(key) {
                recording
            } else if pressed {
                if mods_held(cfg.modifiers@, held2) { after_press(recording, toggle_mode(cfg)) } else { recording }
            } else if !toggle_mode(cfg) {
                false
            } else {
                recording
            };
            HotkeyStep { held: held2, recording: rec2, events: esc + transition_events(recording, rec2), capture: None }
        }
    }
}

/// A macOS / Windows key press. Repeated presses of a key already held only report
/// Escape.
pub open spec fn rdev_press_step(
    held: Set<Key>,
    recording: bool,
    key: Key,
    capture_active: bool,
    cfg: HotkeyConfig,
) -> HotkeyStep {
    let already = held.contains(key);
    let held2 = held.insert(key);
    if capture_active {
        HotkeyStep {
            held: held2,
            recording,
            events: seq![],
            capture: if !already { rdev_capture(key, held2) } else { None },
        }
    } else {
        let esc = if key == Key::Escape { seq![AppEvent::EscapePressed] } else { seq![] };
        let rec2 = if already || !cfg.internal_listener || key != rdev_key_for_name(cfg.key@)
            || !mods_held(cfg.modifiers@, held2) {
            recording
        } else {
            after_press(recording, toggle_mode(cfg))
        };
        HotkeyStep { held: held2, recording: rec2, events: esc + transition_events(recording, rec2), capture: None }
    }
}

/// A macOS / Windows key release: in hold mode, releasing the hotkey stops recording.
pub open spec fn rdev_release_step(
    held: Set<Key>,
    recording: bool,
    key: Key,
    capture_active: bool,
    cfg: HotkeyConfig,
) -> HotkeyStep {
    let held2 = held.remove(key);
    let rec2 = if !capture_active && cfg.internal_listener && key == rdev_key_for_name(cfg.key@)
        && !toggle_mode(cfg) {
        false
    } else {
        recording
    };
    HotkeyStep { held: held2, recording: rec2, events: transition_events(recording, rec2), capture: None }
}

/// What a key event produces: events for the coordinator, and the hotkey captured
/// for the settings UI (`("__cancel__", [])` when Escape cancels the capture).
pub struct KeyReaction {
    pub events: Vec<AppEvent>,
    pub capture: Option<(String, Vec<String>)>,
}

/// The characters of a captured hotkey.
pub open spec fn capture_view(c: Option<(String, Vec<String>)>) -> Option<(Seq<char>, Seq<Seq<char>>)> {
    match c {
        Some((k, m)) => Some((k@, m@.map_values(|s: String| s@))),
        None => None,
    }
}

/// The number a held key is recorded under: one per key, letters after
/// `LETTER_CODES` by their character.
pub open spec fn key_code(key: Key) -> u32 {
    match key {
        Key::F1 => 1,
        Key::F2 => 2,
        Key::F3 => 3,
        Key::F4 => 4,
        Key::F5 => 5,
        Key::F6 => 6,
        Key::F7 => 7,
        Key::F8 => 8,
        Key::F9 => 9,
        Key::F10 => 10,
        Key::F11 => 11,
        Key::F12 => 12,
        Key::CapsLock => 13,
        Key::ScrollLock => 14,
        Key::Pause => 15,
        Key::Home => 16,
        Key::End => 17,
        Key::PageUp => 18,
        Key::PageDown => 19,
        Key::Delete => 20,
        Key::Insert => 21,
        Key::Tab => 22,
        Key::BackSlash => 23,
        Key::Space => 24,
        Key::Return => 25,
        Key::PrintScreen => 26,
        Key::NumLock => 27,
        Key::RightAlt => 28,
        Key::Escape => 29,
        Key::ControlLeft => 30,
        Key::ControlRight => 31,
        Key::ShiftLeft => 32,
        Key::ShiftRight => 33,
        Key::AltLeft => 34,
        Key::MetaLeft => 35,
        Key::MetaRight => 36,
        Key::Letter(c) => (LETTER_CODES + (c as u32)) as u32,
        Key::Other => 0,
    }
}

/// Where the letter codes start, above every other key's code.
pub const LETTER_CODES: u32 = 0x20_0000;

/// Different keys are recorded under different numbers.
pub proof fn lemma_key_code_injective(a: Key, b: Key)
    ensures
        key_code(a) == key_code(b) ==> a == b,
{
    if let Key::Letter(x) = a {
        if let Key::Letter(y) = b {
            if key_code(a) == key_code(b) {
                assert(x as u32 == y as u32);
            }
        }
    }
}

fn code_of(key: Key) -> (r: u32)
    ensures
        r == key_code(key),
{
    match key {
        Key::F1 => 1,
        Key::F2 => 2,
        Key::F3 => 3,
        Key::F4 => 4,
        Key::F5 => 5,
        Key::F6 => 6,
        Key::F7 => 7,
        Key::F8 => 8,
        Key::F9 => 9,
        Key::F10 => 10,
        Key::F11 => 11,
        Key::F12 => 12,
        Key::CapsLock => 13,
        Key::ScrollLock => 14,
        Key::Pause => 15,
        Key::Home => 16,
        Key::End => 17,
        Key::PageUp => 18,
        Key::PageDown => 19,
        Key::Delete => 20,
        Key::Insert => 21,
        Key::Tab => 22,
        Key::BackSlash => 23,
        Key::Space => 24,
        Key::Return => 25,
        Key::PrintScreen => 26,
        Key::NumLock => 27,
        Key::RightAlt => 28,
        Key::Escape => 29,
        Key::ControlLeft => 30,
        Key::ControlRight => 31,
        Key::ShiftLeft => 32,
        Key::ShiftRight => 33,
        Key::AltLeft => 34,
        Key::MetaLeft => 35,
        Key::MetaRight => 36,
        Key::Letter(c) => LETTER_CODES + (c as u32),
        Key::Other => 0,
    }
}

/// The listener's state: the keys held down (by their codes) and whether a
/// recording is running.
pub struct HotkeyListener {
    held: HashSet<u32>,
    recording: bool,
}

impl HotkeyListener {
    /// The keys currently held down.
    pub closed spec fn held_keys(&self) -> Set<Key> {
        Set::new(|k: Key| self.held@.contains(key_code(k)))
    }

    /// Whether a recording started by the hotkey is running.
    pub closed spec fn recording(&self) -> bool {
        self.recording
    }

    /// No key held, not recording.
    pub fn new() -> (r: Self)
        ensures
            r.held_keys() == Set::<Key>::empty(),
            !r.recording(),
    {
        let r = HotkeyListener { held: HashSet::new(), recording: false };
        assert(r.held_keys() =~= Set::<Key>::empty());
        r
    }

    /// Whether `key` is held down.
    pub fn is_held(&self, key: Key) -> (r: bool)
        ensures
            r == self.held_keys().contains(key),
    {
        let code = code_of(key);
        self.held.contains(&code)
    }

    /// Whether a recording started by the hotkey is running.
    pub fn is_recording(&self) -> (r: bool)
        ensures
            r == self.recording(),
    {
        self.recording
    }

    fn hold(&mut self, key: Key)
        ensures
            final(self).held_keys() == old(self).held_keys().insert(key),
            final(self).recording() == old(self).recording(),
    {
        let code = code_of(key);
        self.held.insert(code);
        assert forall|k: Key| key_code(k) == key_code(key) implies k == key by {
            lemma_key_code_injective(k, key);
        }
        assert(self.held_keys() =~= old(self).held_keys().insert(key));
    }

    fn release(&mut self, key: Key)
        ensures
            final(self).held_keys() == old(self).held_keys().remove(key),
            final(self).recording() == old(self).recording(),
    {
        let code = code_of(key);
        self.held.remove(&code);
        assert forall|k: Key| key_code(k) == key_code(key) implies k == key by {
            lemma_key_code_injective(k, key);
        }
        assert(self.held_keys() =~= old(self).held_keys().remove(key));
    }

    fn mods_ok(&self, mods: &Vec<String>) -> (r: bool)
        ensures
            r == mods_held(mods@, self.held_keys()),
    {
        let mut i: usize = 0;
        while i < mods.len()
            invariant
                i <= mods.len(),
                forall|j: int| 0 <= j < i ==> match #[trigger] modifier_key(mods@[j]@) {
                    Some(k) => self.held_keys().contains(k),
                    None => true,
                },
            decreases mods.len() - i,
        {
            match parse_modifier(&mods[i]) {
                Some(k) => {
                    if !self.is_held(k) {
                        assert(modifier_key(mods@[i as int]@) == Some(k));
                        return false;
                    }
                },
                None => {},
            }
            i = i + 1;
        }
        true
    }

    fn mods_of_held(&self, right_alt_is_alt: bool) -> (r: Vec<String>)
        ensures
            r@.map_values(|s: String| s@) == held_mods(self.held_keys(), right_alt_is_alt),
    {
        let mut r: Vec<String> = Vec::new();
        if self.is_held(Key::ControlLeft) || self.is_held(Key::ControlRight) {
            r.push(String::from_str("ctrl"));
        }
        if self.is_held(Key::AltLeft) || (right_alt_is_alt && self.is_held(Key::RightAlt)) {
            r.push(String::from_str("alt"));
        }
        if self.is_held(Key::ShiftLeft) || self.is_held(Key::ShiftRight) {
            r.push(String::from_str("shift"));
        }
        if self.is_held(Key::MetaLeft) || self.is_held(Key::MetaRight) {
            r.push(String::from_str("super"));
        }
        assert(r@.map_values(|s: String| s@) =~= held_mods(self.held_keys(), right_alt_is_alt));
        r
    }

    /// What a Linux key press captures for the settings UI.
    pub fn record_capture_evdev(&self, key: Key) -> (r: Option<(String, Vec<String>)>)
        ensures
            capture_view(r) == evdev_capture(key, self.held_keys()),
    {
        if key == Key::ControlLeft || key == Key::ControlRight || key == Key::ShiftLeft
            || key == Key::ShiftRight || key == Key::AltLeft || key == Key::RightAlt
            || key == Key::MetaLeft || key == Key::MetaRight {
            return None;
        }
        if key == Key::Escape {
            let v: Vec<String> = Vec::new();
            assert(v@.map_values(|s: String| s@) =~= Seq::<Seq<char>>::empty());
            return Some((String::from_str("__cancel__"), v));
        }
        match evdev_code_to_name(key) {
            Some(name) => Some((name, self.mods_of_held(true))),
            None => None,
        }
    }

    /// What a macOS / Windows key press captures for the settings UI.
    pub fn record_capture(&self, key: Key) -> (r: Option<(String, Vec<String>)>)
        ensures
            capture_view(r) == rdev_capture(key, self.held_keys()),
    {
        if key == Key::ControlLeft || key == Key::ControlRight || key == Key::ShiftLeft
            || key == Key::ShiftRight || key == Key::AltLeft || key == Key::RightAlt
            || key == Key::MetaLeft || key == Key::MetaRight {
            return None;
        }
        if key == Key::Escape {
            let v: Vec<String> = Vec::new();
            assert(v@.map_values(|s: String| s@) =~= Seq::<Seq<char>>::empty());
            return Some((String::from_str("__cancel__"), v));
        }
        match rdev_key_to_name(key) {
            Some(name) => Some((name, self.mods_of_held(false))),
            None => None,
        }
    }

    fn press_hotkey(&mut self, toggle: bool, events: &mut Vec<AppEvent>)
        ensures
            final(self).recording() == after_press(old(self).recording(), toggle),
            final(self).held_keys() == old(self).held_keys(),
            final(events)@ == old(events)@ + transition_events(old(self).recording(), final(self).recording()),
    {
        if toggle {
            if self.recording {
                self.recording = false;
                events.push(AppEvent::HotkeyReleased);
            } else {
                self.recording = true;
                events.push(AppEvent::HotkeyPressed);
            }
        } else if !self.recording {
            self.recording = true;
            events.push(AppEvent::HotkeyPressed);
        }
        assert(events@ =~= old(events)@ + transition_events(old(self).recording(), self.recording()));
    }

    /// Handles one Linux (evdev) key event: `value` 1 is a press, 0 a release, 2 an
    /// auto-repeat.
    pub fn handle_key(&mut self, key: Key, value: i32, capture_active: bool, cfg: &HotkeyConfig) -> (r: KeyReaction)
        ensures
            ({
                let st = evdev_step(old(self).held_keys(), old(self).recording(), key, value, capture_active, *cfg);
                &&& final(self).held_keys() == st.held
                &&& final(self).recording() == st.recording
                &&& r.events@ == st.events
                &&& capture_view(r.capture) == st.capture
            }),
    {
        let pressed = value == 1;
        let released = value == 0;
        let mut events: Vec<AppEvent> = Vec::new();
        if !pressed && !released {
            return KeyReaction { events, capture: None };
        }
        if pressed {
            self.hold(key);
        } else {
            self.release(key);
        }
        if capture_active {
            let capture = if pressed { self.record_capture_evdev(key) } else { None };
            return KeyReaction { events, capture };
        }
        if pressed && key == Key::Escape {
            events.push(AppEvent::EscapePressed);
        }
        let ghost esc = events@;
        let target = key_name_to_evdev(&cfg.key);
        let toggle = str_eq(&cfg.mode, "toggle");
        let ok = self.mods_ok(&cfg.modifiers);
        if !cfg.internal_listener || target != Some(key) {
            assert(events@ =~= esc + transition_events(self.recording, self.recording));
            return KeyReaction { events, capture: None };
        }
        if pressed && ok {
            self.press_hotkey(toggle, &mut events);
        }
        if released && !toggle && self.recording {
            self.recording = false;
            events.push(AppEvent::HotkeyReleased);
        }
        assert(events@ =~= esc + transition_events(old(self).recording(), self.recording));
        KeyReaction { events, capture: None }
    }

    /// Handles a macOS / Windows (rdev) key press.
    pub fn handle_press(&mut self, key: Key, capture_active: bool, cfg: &HotkeyConfig) -> (r: KeyReaction)
        ensures
            ({
                let st = rdev_press_step(old(self).held_keys(), old(self).recording(), key, capture_active, *cfg);
                &&& final(self).held_keys() == st.held
                &&& final(self).recording() == st.recording
                &&& r.events@ == st.events
                &&& capture_view(r.capture) == st.capture
            }),
    {
        let already_down = self.is_held(key);
        self.hold(key);
        let mut events: Vec<AppEvent> = Vec::new();
        if capture_active {
            let capture = if !already_down { self.record_capture(key) } else { None };
            return KeyReaction { events, capture };
        }
        if key == Key::Escape {
            events.push(AppEvent::EscapePressed);
        }
        let ghost esc = events@;
        if already_down || !cfg.internal_listener {
            assert(events@ =~= esc + transition_events(self.recording, self.recording));
            return KeyReaction { events, capture: None };
        }
        let target = parse_key(&cfg.key);
        let toggle = str_eq(&cfg.mode, "toggle");
        let ok = self.mods_ok(&cfg.modifiers);
        if key != target || !ok {
            assert(events@ =~= esc + transition_events(self.recording, self.recording));
            return KeyReaction { events, capture: None };
        }
        self.press_hotkey(toggle, &mut events);
        KeyReaction { events, capture: None }
    }

    /// Handles a macOS / Windows (rdev) key release.
    pub fn handle_release(&mut self, key: Key, capture_active: bool, cfg: &HotkeyConfig) -> (r: KeyReaction)
        ensures
            ({
                let st = rdev_release_step(old(self).held_keys(), old(self).recording(), key, capture_active, *cfg);
                &&& final(self).held_keys() == st.held
                &&& final(self).recording() == st.recording
                &&& r.events@ == st.events
                &&& capture_view(r.capture) == st.capture
            }),
    {
        self.release(key);
        let mut events: Vec<AppEvent> = Vec::new();
        if capture_active || !cfg.internal_listener {
            assert(events@ =~= transition_events(self.recording, self.recording));
            return KeyReaction { events, capture: None };
        }
        let target = parse_key(&cfg.key);
        let hold_mode = !str_eq(&cfg.mode, "toggle");
        if key == target && hold_mode && self.recording {
            self.recording = false;
            events.push(AppEvent::HotkeyReleased);
        }
        assert(events@ =~= transition_events(old(self).recording(), self.recording));
        KeyReaction { events, capture: None }
    }
}

} // verus!

verus! {

// ---------------------------------------------------------------- laws

/// The hotkey events a key event produces are exactly those that move the
/// recording flag from its old value to its new one, so over any run of events
/// `HotkeyPressed` and `HotkeyReleased` alternate, starting with `HotkeyPressed`.
pub proof fn law_hotkey_events_follow_recording(
    held: Set<Key>,
    recording: bool,
    key: Key,
    value: i32,
    capture_active: bool,
    cfg: HotkeyConfig,
)
    ensures
        ({
            let st = evdev_step(held, recording, key, value, capture_active, cfg);
            st.events.filter(|e: AppEvent| e != AppEvent::EscapePressed)
                == transition_events(recording, st.recording)
        }),
        ({
            let st = rdev_press_step(held, recording, key, capture_active, cfg);
            st.events.filter(|e: AppEvent| e != AppEvent::EscapePressed)
                == transition_events(recording, st.recording)
        }),
        ({
            let st = rdev_release_step(held, recording, key, capture_active, cfg);
            st.events.filter(|e: AppEvent| e != AppEvent::EscapePressed)
                == transition_events(recording, st.recording)
        }),
{
    let keep = |e: AppEvent| e != AppEvent::EscapePressed;
    reveal_with_fuel(Seq::filter, 3);
    let e1 = seq![AppEvent::EscapePressed];
    let e0 = Seq::<AppEvent>::empty();
    let p = seq![AppEvent::HotkeyPressed];
    let r = seq![AppEvent::HotkeyReleased];
    assert(e0.filter(keep) =~= e0);
    assert(e1.filter(keep) =~= e0);
    assert(p.filter(keep) =~= p);
    assert(r.filter(keep) =~= r);
    assert forall|a: Seq<AppEvent>, b: Seq<AppEvent>|
        (a == e0 || a == e1) && (b == e0 || b == p || b == r)
        implies (a + b).filter(keep) == b.filter(keep) by {
        Seq::<AppEvent>::filter_distributes_over_add(a, b, keep);
        assert(e0 + b =~= b);
    }
}

/// Key auto-repeat (an evdev value other than press or release) changes nothing and
/// produces nothing.
pub proof fn law_autorepeat_ignored(
    held: Set<Key>,
    recording: bool,
    key: Key,
    value: i32,
    capture_active: bool,
    cfg: HotkeyConfig,
)
    requires
        value != 0,
        value != 1,
    ensures
        evdev_step(held, recording, key, value, capture_active, cfg)
            == (HotkeyStep { held, recording, events: seq![], capture: None }),
{
}

/// While the settings UI captures a hotkey, key events never start or stop a
/// recording and send no events to the coordinator.
pub proof fn law_capture_is_silent(
    held: Set<Key>,
    recording: bool,
    key: Key,
    value: i32,
    cfg: HotkeyConfig,
)
    ensures
        evdev_step(held, recording, key, value, true, cfg).recording == recording,
        evdev_step(held, recording, key, value, true, cfg).events == Seq::<AppEvent>::empty(),
        rdev_press_step(held, recording, key, true, cfg).recording == recording,
        rdev_press_step(held, recording, key, true, cfg).events == Seq::<AppEvent>::empty(),
        rdev_release_step(held, recording, key, true, cfg).recording == recording,
        rdev_release_step(held, recording, key, true, cfg).events == Seq::<AppEvent>::empty(),
{
}

/// With the internal listener switched off, no key event starts or stops a recording
/// and none sends `HotkeyPressed` or `HotkeyReleased`: only the system shortcut
/// (`xsay toggle`) drives recording then.
pub proof fn law_listener_off_is_silent(
    held: Set<Key>,
    recording: bool,
    key: Key,
    value: i32,
    capture_active: bool,
    cfg: HotkeyConfig,
)
    requires
        !cfg.internal_listener,
    ensures
        evdev_step(held, recording, key, value, capture_active, cfg).recording == recording,
        !evdev_step(held, recording, key, value, capture_active, cfg).events.contains(AppEvent::HotkeyPressed),
        !evdev_step(held, recording, key, value, capture_active, cfg).events.contains(AppEvent::HotkeyReleased),
        rdev_press_step(held, recording, key, capture_active, cfg).recording == recording,
        !rdev_press_step(held, recording, key, capture_active, cfg).events.contains(AppEvent::HotkeyPressed),
        !rdev_press_step(held, recording, key, capture_active, cfg).events.contains(AppEvent::HotkeyReleased),
        rdev_release_step(held, recording, key, capture_active, cfg).recording == recording,
        rdev_release_step(held, recording, key, capture_active, cfg).events == Seq::<AppEvent>::empty(),
{
    let e = evdev_step(held, recording, key, value, capture_active, cfg);
    let p = rdev_press_step(held, recording, key, capture_active, cfg);
    assert(e.events.len() <= 1);
    assert(p.events.len() <= 1);
    if e.events.len() == 1 {
        assert(e.events =~= seq![AppEvent::EscapePressed]);
    }
    if p.events.len() == 1 {
        assert(p.events =~= seq![AppEvent::EscapePressed]);
    }
}

/// Push-to-talk on Linux: with the internal listener on, in hold mode, pressing the hotkey (its modifiers held)
/// starts recording with `HotkeyPressed`, and releasing it stops with
/// `HotkeyReleased`.
pub proof fn law_hold_press_release(held: Set<Key>, key: Key, cfg: HotkeyConfig)
    requires
        cfg.internal_listener,
        !toggle_mode(cfg),
        evdev_key_for_name(cfg.key@) == Some(key),
        key != Key::Escape,
        mods_held(cfg.modifiers@, held.insert(key)),
    ensures
        ({
            let down = evdev_step(held, false, key, 1, false, cfg);
            let up = evdev_step(down.held, down.recording, key, 0, false, cfg);
            &&& down.recording
            &&& down.events == seq![AppEvent::HotkeyPressed]
            &&& !up.recording
            &&& up.events == seq![AppEvent::HotkeyReleased]
        }),
{
    let down = evdev_step(held, false, key, 1, false, cfg);
    assert(down.events =~= seq![AppEvent::HotkeyPressed]);
    let up = evdev_step(down.held, down.recording, key, 0, false, cfg);
    assert(up.events =~= seq![AppEvent::HotkeyReleased]);
}

/// Toggle mode on Linux: with the internal listener on, a tap (press and release) of the hotkey starts recording,
/// a second tap stops it; the releases send nothing.
pub proof fn law_toggle_two_taps(held: Set<Key>, key: Key, cfg: HotkeyConfig)
    requires
        cfg.internal_listener,
        toggle_mode(cfg),
        evdev_key_for_name(cfg.key@) == Some(key),
        key != Key::Escape,
        mods_held(cfg.modifiers@, held.insert(key)),
        mods_held(cfg.modifiers@, held.remove(key).insert(key)),
    ensures
        ({
            let d1 = evdev_step(held, false, key, 1, false, cfg);
            let u1 = evdev_step(d1.held, d1.recording, key, 0, false, cfg);
            let d2 = evdev_step(u1.held, u1.recording, key, 1, false, cfg);
            let u2 = evdev_step(d2.held, d2.recording, key, 0, false, cfg);
            &&& d1.events == seq![AppEvent::HotkeyPressed]
            &&& u1.recording && u1.events == Seq::<AppEvent>::empty()
            &&& d2.events == seq![AppEvent::HotkeyReleased]
            &&& !u2.recording && u2.events == Seq::<AppEvent>::empty()
        }),
{
    let d1 = evdev_step(held, false, key, 1, false, cfg);
    assert(d1.events =~= seq![AppEvent::HotkeyPressed]);
    let u1 = evdev_step(d1.held, d1.recording, key, 0, false, cfg);
    assert(u1.events =~= Seq::<AppEvent>::empty());
    assert(u1.held =~= held.remove(key));
    let d2 = evdev_step(u1.held, u1.recording, key, 1, false, cfg);
    assert(d2.events =~= seq![AppEvent::HotkeyReleased]);
    let u2 = evdev_step(d2.held, d2.recording, key, 0, false, cfg);
    assert(u2.events =~= Seq::<AppEvent>::empty());
}

/// On macOS / Windows a key that is already held (auto-repeat) never starts or stops
/// a recording.
pub proof fn law_rdev_repeat_ignored(
    held: Set<Key>,
    recording: bool,
    key: Key,
    capture_active: bool,
    cfg: HotkeyConfig,
)
    requires
        held.contains(key),
    ensures
        rdev_press_step(held, recording, key, capture_active, cfg).recording == recording,
        rdev_press_step(held, recording, key, capture_active, cfg).capture is None,
{
}

} // verus!


verus! {

/// The characters of the key names, spelled out so that names can be told apart.
pub(crate) proof fn lemma_key_name_chars()
    ensures
        "F1"@.len() == 2 && "F1"@[0] == 'F' && "F1"@[1] == '1',
        "F2"@.len() == 2 && "F2"@[0] == 'F' && "F2"@[1] == '2',
        "F3"@.len() == 2 && "F3"@[0] == 'F' && "F3"@[1] == '3',
        "F4"@.len() == 2 && "F4"@[0] == 'F' && "F4"@[1] == '4',
        "F5"@.len() == 2 && "F5"@[0] == 'F' && "F5"@[1] == '5',
        "F6"@.len() == 2 && "F6"@[0] == 'F' && "F6"@[1] == '6',
        "F7"@.len() == 2 && "F7"@[0] == 'F' && "F7"@[1] == '7',
        "F8"@.len() == 2 && "F8"@[0] == 'F' && "F8"@[1] == '8',
        "F9"@.len() == 2 && "F9"@[0] == 'F' && "F9"@[1] == '9',
        "F10"@.len() == 3 && "F10"@[0] == 'F' && "F10"@[1] == '1' && "F10"@[2] == '0',
        "F11"@.len() == 3 && "F11"@[0] == 'F' && "F11"@[1] == '1' && "F11"@[2] == '1',
        "F12"@.len() == 3 && "F12"@[0] == 'F' && "F12"@[1] == '1' && "F12"@[2] == '2',
        "CapsLock"@.len() == 8 && "CapsLock"@[0] == 'C' && "CapsLock"@[1] == 'a' && "CapsLock"@[2] == 'p' && "CapsLock"@[3] == 's' && "CapsLock"@[4] == 'L' && "CapsLock"@[5] == 'o' && "CapsLock"@[6] == 'c' && "CapsLock"@[7] == 'k',
        "ScrollLock"@.len() == 10 && "ScrollLock"@[0] == 'S' && "ScrollLock"@[1] == 'c' && "ScrollLock"@[2] == 'r' && "ScrollLock"@[3] == 'o' && "ScrollLock"@[4] == 'l' && "ScrollLock"@[5] == 'l' && "ScrollLock"@[6] == 'L' && "ScrollLock"@[7] == 'o' && "ScrollLock"@[8] == 'c' && "ScrollLock"@[9] == 'k',
        "Pause"@.len() == 5 && "Pause"@[0] == 'P' && "Pause"@[1] == 'a' && "Pause"@[2] == 'u' && "Pause"@[3] == 's' && "Pause"@[4] == 'e',
        "Home"@.len() == 4 && "Home"@[0] == 'H' && "Home"@[1] == 'o' && "Home"@[2] == 'm' && "Home"@[3] == 'e',
        "End"@.len() == 3 && "End"@[0] == 'E' && "End"@[1] == 'n' && "End"@[2] == 'd',
        "PageUp"@.len() == 6 && "PageUp"@[0] == 'P' && "PageUp"@[1] == 'a' && "PageUp"@[2] == 'g' && "PageUp"@[3] == 'e' && "PageUp"@[4] == 'U' && "PageUp"@[5] == 'p',
        "PageDown"@.len() == 8 && "PageDown"@[0] == 'P' && "PageDown"@[1] == 'a' && "PageDown"@[2] == 'g' && "PageDown"@[3] == 'e' && "PageDown"@[4] == 'D' && "PageDown"@[5] == 'o' && "PageDown"@[6] == 'w' && "PageDown"@[7] == 'n',
        "Delete"@.len() == 6 && "Delete"@[0] == 'D' && "Delete"@[1] == 'e' && "Delete"@[2] == 'l' && "Delete"@[3] == 'e' && "Delete"@[4] == 't' && "Delete"@[5] == 'e',
        "Insert"@.len() == 6 && "Insert"@[0] == 'I' && "Insert"@[1] == 'n' && "Insert"@[2] == 's' && "Insert"@[3] == 'e' && "Insert"@[4] == 'r' && "Insert"@[5] == 't',
        "Tab"@.len() == 3 && "Tab"@[0] == 'T' && "Tab"@[1] == 'a' && "Tab"@[2] == 'b',
        "Space"@.len() == 5 && "Space"@[0] == 'S' && "Space"@[1] == 'p' && "Space"@[2] == 'a' && "Space"@[3] == 'c' && "Space"@[4] == 'e',
        "Return"@.len() == 6 && "Return"@[0] == 'R' && "Return"@[1] == 'e' && "Return"@[2] == 't' && "Return"@[3] == 'u' && "Return"@[4] == 'r' && "Return"@[5] == 'n',
        "Enter"@.len() == 5 && "Enter"@[0] == 'E' && "Enter"@[1] == 'n' && "Enter"@[2] == 't' && "Enter"@[3] == 'e' && "Enter"@[4] == 'r',
        "PrintScreen"@.len() == 11 && "PrintScreen"@[0] == 'P' && "PrintScreen"@[1] == 'r' && "PrintScreen"@[2] == 'i' && "PrintScreen"@[3] == 'n' && "PrintScreen"@[4] == 't' && "PrintScreen"@[5] == 'S' && "PrintScreen"@[6] == 'c' && "PrintScreen"@[7] == 'r' && "PrintScreen"@[8] == 'e' && "PrintScreen"@[9] == 'e' && "PrintScreen"@[10] == 'n',
        "NumLock"@.len() == 7 && "NumLock"@[0] == 'N' && "NumLock"@[1] == 'u' && "NumLock"@[2] == 'm' && "NumLock"@[3] == 'L' && "NumLock"@[4] == 'o' && "NumLock"@[5] == 'c' && "NumLock"@[6] == 'k',
        "RightAlt"@.len() == 8 && "RightAlt"@[0] == 'R' && "RightAlt"@[1] == 'i' && "RightAlt"@[2] == 'g' && "RightAlt"@[3] == 'h' && "RightAlt"@[4] == 't' && "RightAlt"@[5] == 'A' && "RightAlt"@[6] == 'l' && "RightAlt"@[7] == 't',
        "AltGr"@.len() == 5 && "AltGr"@[0] == 'A' && "AltGr"@[1] == 'l' && "AltGr"@[2] == 't' && "AltGr"@[3] == 'G' && "AltGr"@[4] == 'r',
        "BackSlash"@.len() == 9 && "BackSlash"@[0] == 'B' && "BackSlash"@[1] == 'a' && "BackSlash"@[2] == 'c' && "BackSlash"@[3] == 'k' && "BackSlash"@[4] == 'S' && "BackSlash"@[5] == 'l' && "BackSlash"@[6] == 'a' && "BackSlash"@[7] == 's' && "BackSlash"@[8] == 'h',
{
    reveal_strlit("F1");
    reveal_strlit("F2");
    reveal_strlit("F3");
    reveal_strlit("F4");
    reveal_strlit("F5");
    reveal_strlit("F6");
    reveal_strlit("F7");
    reveal_strlit("F8");
    reveal_strlit("F9");
    reveal_strlit("F10");
    reveal_strlit("F11");
    reveal_strlit("F12");
    reveal_strlit("CapsLock");
    reveal_strlit("ScrollLock");
    reveal_strlit("Pause");
    reveal_strlit("Home");
    reveal_strlit("End");
    reveal_strlit("PageUp");
    reveal_strlit("PageDown");
    reveal_strlit("Delete");
    reveal_strlit("Insert");
    reveal_strlit("Tab");
    reveal_strlit("Space");
    reveal_strlit("Return");
    reveal_strlit("Enter");
    reveal_strlit("PrintScreen");
    reveal_strlit("NumLock");
    reveal_strlit("RightAlt");
    reveal_strlit("AltGr");
    reveal_strlit("BackSlash");
}

/// Every name the Linux listener reports for a key (what the settings UI records
/// when that key is captured) selects that same key again as the configured hotkey.
pub proof fn law_evdev_names_round_trip(key: Key)
    ensures
        evdev_name_for_key(key) matches Some(n) ==> evdev_key_for_name(n) == Some(key),
{
    lemma_key_name_chars();
    if let Key::Letter(c) = key {
        if 'a' <= c && c <= 'z' {
            assert(letter_for_name(seq![c]) == Some(Key::Letter(c)));
        }
    }
}

/// Every name the macOS / Windows listener reports for a key selects that same key
/// again as the configured hotkey.
pub proof fn law_rdev_names_round_trip(key: Key)
    ensures
        rdev_name_for_key(key) matches Some(n) ==> rdev_key_for_name(n) == key,
{
    lemma_key_name_chars();
    if let Key::Letter(c) = key {
        if 'a' <= c && c <= 'z' {
            assert(letter_for_name(seq![c]) == Some(Key::Letter(c)));
        }
    }
}

/// A letter name selects its letter key in either case, on both platforms.
pub proof fn law_letter_names_either_case(c: char)
    requires
        'a' <= c <= 'z',
    ensures
        evdev_key_for_name(seq![c]) == Some(Key::Letter(c)),
        rdev_key_for_name(seq![c]) == Key::Letter(c),
        evdev_key_for_name(seq![((c as u32) - 32) as char]) == Some(Key::Letter(c)),
        rdev_key_for_name(seq![((c as u32) - 32) as char]) == Key::Letter(c),
{
    let up = ((c as u32) - 32) as char;
    assert(ascii_alpha(up));
    assert(ascii_lower(up) == c);
}

/// Toggle mode on macOS / Windows: a key release never starts or stops a recording
/// and sends nothing, so a tap keeps the recording running until the next tap.
pub proof fn law_rdev_toggle_release_silent(
    held: Set<Key>,
    recording: bool,
    key: Key,
    capture_active: bool,
    cfg: HotkeyConfig,
)
    requires
        cfg.mode@ == "toggle"@,
    ensures
        rdev_release_step(held, recording, key, capture_active, cfg).recording == recording,
        rdev_release_step(held, recording, key, capture_active, cfg).events == Seq::<AppEvent>::empty(),
        rdev_release_step(held, recording, key, capture_active, cfg).held == held.remove(key),
{
}

/// Toggle mode on macOS / Windows: with the listener on and the hotkey's modifiers
/// held, a tap of the hotkey starts recording and a second tap stops it; the
/// releases send nothing.
pub proof fn law_rdev_toggle_two_taps(held: Set<Key>, cfg: HotkeyConfig)
    requires
        cfg.mode@ == "toggle"@,
        cfg.internal_listener,
        !held.contains(rdev_key_for_name(cfg.key@)),
        rdev_key_for_name(cfg.key@) != Key::Escape,
        mods_held(cfg.modifiers@, held.insert(rdev_key_for_name(cfg.key@))),
        mods_held(cfg.modifiers@, held.insert(rdev_key_for_name(cfg.key@)).remove(rdev_key_for_name(cfg.key@)).insert(rdev_key_for_name(cfg.key@))),
    ensures
        ({
            let key = rdev_key_for_name(cfg.key@);
            let d1 = rdev_press_step(held, false, key, false, cfg);
            let u1 = rdev_release_step(d1.held, d1.recording, key, false, cfg);
            let d2 = rdev_press_step(u1.held, u1.recording, key, false, cfg);
            let u2 = rdev_release_step(d2.held, d2.recording, key, false, cfg);
            &&& d1.events == seq![AppEvent::HotkeyPressed]
            &&& u1.recording && u1.events == Seq::<AppEvent>::empty()
            &&& d2.events == seq![AppEvent::HotkeyReleased]
            &&& !u2.recording && u2.events == Seq::<AppEvent>::empty()
        }),
{
    let key = rdev_key_for_name(cfg.key@);
    let d1 = rdev_press_step(held, false, key, false, cfg);
    assert(d1.events =~= seq![AppEvent::HotkeyPressed]);
    let u1 = rdev_release_step(d1.held, d1.recording, key, false, cfg);
    assert(u1.events =~= Seq::<AppEvent>::empty());
    assert(!u1.held.contains(key));
    let d2 = rdev_press_step(u1.held, u1.recording, key, false, cfg);
    assert(d2.events =~= seq![AppEvent::HotkeyReleased]);
    let u2 = rdev_release_step(d2.held, d2.recording, key, false, cfg);
    assert(u2.events =~= Seq::<AppEvent>::empty());
}

} // verus!
