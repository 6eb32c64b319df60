//! Putting a transcript into the focused window: by typing it, or through the
//! clipboard and a synthetic paste.
//!
//! The injection worker (in the application) owns the clipboard, the keyboard
//! simulator and the virtual keyboard; these functions say which way to go, which
//! keys a paste shortcut is made of, and what to tell the user when it fails.

use crate::config::InjectionConfig;
use crate::text::{chars_of, concat, str_eq, string_of, sub_chars};
use vstd::prelude::*;

verus! {

/// Commands to the injection worker.
#[derive(Clone, Debug)]
pub enum InjectCmd {
    Type(String),
}

/// How a transcript is injected.
#[derive(Clone, Debug)]
pub enum InjectPlan {
    /// Nothing to inject; only report "done".
    Skip,
    /// Type the text with synthetic key strokes.
    Keystrokes,
    /// Put the text on the clipboard, wait `delay_ms`, and paste with `shortcut`.
    Clipboard { delay_ms: u64, shortcut: String },
}

/// The injection method for `text` under `cfg`: empty text is skipped, method
/// `type` types it, any other method pastes it through the clipboard.
pub fn plan_injection(text: &str, cfg: &InjectionConfig) -> (r: InjectPlan)
    ensures
        text@.len() == 0 ==> r is Skip,
        text@.len() > 0 && cfg.method@ == "type"@ ==> r is Keystrokes,
        text@.len() > 0 && cfg.method@ != "type"@ ==> (r matches InjectPlan::Clipboard { delay_ms, shortcut }
            && delay_ms == cfg.clipboard_delay_ms && shortcut@ == cfg.paste_shortcut@),
{
    if chars_of(text).len() == 0 {
        InjectPlan::Skip
    } else if str_eq(cfg.method.as_str(), "type") {
        InjectPlan::Keystrokes
    } else {
        InjectPlan::Clipboard {
            delay_ms: cfg.clipboard_delay_ms,
            shortcut: string_of(&chars_of(cfg.paste_shortcut.as_str())),
        }
    }
}

/// When typing fails, the text is pasted instead, after 80 ms, with both paste
/// shortcuts so that terminals and text fields alike receive it.
pub fn keystroke_fallback() -> (r: InjectPlan)
    ensures
        r matches InjectPlan::Clipboard { delay_ms, shortcut } && delay_ms == 80 && shortcut@ == "both"@,
{
    InjectPlan::Clipboard { delay_ms: 80, shortcut: String::from_str("both") }
}

/// The keys of the virtual keyboard used to paste.
#[derive(Clone, Copy, Debug, PartialEq, Eq, Structural)]
pub enum PasteKey {
    LeftCtrl,
    LeftShift,
    V,
}

/// One key event of the virtual keyboard: the key and 1 (down) or 0 (up).
pub type KeyStroke = (PasteKey, i32);

/// Ctrl+V, pressed and released.
pub open spec fn ctrl_v() -> Seq<KeyStroke> {
    seq![(PasteKey::LeftCtrl, 1), (PasteKey::V, 1), (PasteKey::V, 0), (PasteKey::LeftCtrl, 0)]
}

/// Ctrl+Shift+V, pressed and released.
pub open spec fn ctrl_shift_v() -> Seq<KeyStroke> {
    seq![
        (PasteKey::LeftCtrl, 1),
        (PasteKey::LeftShift, 1),
        (PasteKey::V, 1),
        (PasteKey::V, 0),
        (PasteKey::LeftShift, 0),
        (PasteKey::LeftCtrl, 0),
    ]
}

/// The key sequences a paste shortcut setting stands for: `ctrl-shift-v` (for
/// terminals), `both` (Ctrl+V, then Ctrl+Shift+V 20 ms later), anything else
/// Ctrl+V.
pub open spec fn paste_sequences_spec(shortcut: Seq<char>) -> Seq<Seq<KeyStroke>> {
    if shortcut == "ctrl-shift-v"@ {
        seq![ctrl_shift_v()]
    } else if shortcut == "both"@ {
        seq![ctrl_v(), ctrl_shift_v()]
    } else {
        seq![ctrl_v()]
    }
}

fn ctrl_v_keys() -> (r: Vec<KeyStroke>)
    ensures
        r@ == ctrl_v(),
{
    let r = vec![(PasteKey::LeftCtrl, 1), (PasteKey::V, 1), (PasteKey::V, 0), (PasteKey::LeftCtrl, 0)];
    assert(r@ =~= ctrl_v());
    r
}

fn ctrl_shift_v_keys() -> (r: Vec<KeyStroke>)
    ensures
        r@ == ctrl_shift_v(),
{
    let r = vec![
        (PasteKey::LeftCtrl, 1),
        (PasteKey::LeftShift, 1),
        (PasteKey::V, 1),
        (PasteKey::V, 0),
        (PasteKey::LeftShift, 0),
        (PasteKey::LeftCtrl, 0),
    ];
    assert(r@ =~= ctrl_shift_v());
    r
}

/// The key sequences to emit for a paste shortcut setting, in order.
pub fn paste_sequences(shortcut: &str) -> (r: Vec<Vec<KeyStroke>>)
    ensures
        r@.map_values(|v: Vec<KeyStroke>| v@) == paste_sequences_spec(shortcut@),
{
    let r = if str_eq(shortcut, "ctrl-shift-v") {
        vec![ctrl_shift_v_keys()]
    } else if str_eq(shortcut, "both") {
        vec![ctrl_v_keys(), ctrl_shift_v_keys()]
    } else {
        vec![ctrl_v_keys()]
    };
    assert(r@.map_values(|v: Vec<KeyStroke>| v@) =~= paste_sequences_spec(shortcut@));
    r
}

/// Whether a paste went through: any of its key sequences was emitted.
pub fn paste_succeeded(emitted: &Vec<bool>) -> (r: bool)
    ensures
        r == emitted@.contains(true),
{
    let mut i: usize = 0;
    while i < emitted.len()
        invariant
            i <= emitted.len(),
            forall|j: int| 0 <= j < i ==> !emitted@[j],
        decreases emitted.len() - i,
    {
        if emitted[i] {
            assert(emitted@[i as int]);
            return true;
        }
        i = i + 1;
    }
    false
}

/// What the clipboard route does around the paste on this session: on X11 the
/// previous clipboard text is saved and put back afterwards; on Wayland the
/// transcript stays on the clipboard so that a manual Ctrl+V still works.
pub fn restores_clipboard(wayland: bool) -> (r: bool)
    ensures
        r == !wayland,
{
    !wayland
}

/// The longest transcript shown whole in a notification.
pub const PREVIEW_CHARS: usize = 80;

/// A transcript as shown in a notification: whole up to 80 characters, otherwise
/// its first 80 characters and `…`.
pub open spec fn preview_spec(text: Seq<char>) -> Seq<char> {
    if text.len() <= PREVIEW_CHARS {
        text
    } else {
        text.take(PREVIEW_CHARS as int).push('…')
    }
}

/// Shortens a transcript for the notification body.
pub fn preview_for_notification(text: &str) -> (r: String)
    ensures
        r@ == preview_spec(text@),
{
    let chars = chars_of(text);
    if chars.len() <= PREVIEW_CHARS {
        return string_of(&chars);
    }
    let mut head = sub_chars(&chars, 0, PREVIEW_CHARS);
    head.push('…');
    assert(head@ =~= text@.take(PREVIEW_CHARS as int).push('…'));
    string_of(&head)
}

/// The notification after a clipboard paste, if any: only when on Wayland the
/// virtual keyboard could not paste, telling the user to press Ctrl+V, with a
/// preview of the text.
pub fn paste_notification(wayland: bool, pasted: bool, text: &str) -> (r: Option<(String, String)>)
    ensures
        !(wayland && !pasted) ==> r is None,
        wayland && !pasted ==> (r matches Some((title, body))
            && title@ == "xsay 识别完成（请按 Ctrl+V 粘贴）"@
            && body@ == preview_spec(text@) + "\n自动粘贴失败（见 /tmp/xsay.log）"@),
{
    if wayland && !pasted {
        let preview = preview_for_notification(text);
        let body = concat(preview.as_str(), "\n自动粘贴失败（见 /tmp/xsay.log）");
        Some((String::from_str("xsay 识别完成（请按 Ctrl+V 粘贴）"), body))
    } else {
        None
    }
}

// ---------------------------------------------------------------- laws

/// Every paste key sequence releases each key it presses, in reverse order, so the
/// virtual keyboard never leaves a key held down.
pub proof fn law_paste_keys_released(shortcut: Seq<char>, i: int)
    requires
        0 <= i < paste_sequences_spec(shortcut).len(),
    ensures
        ({
            let s = paste_sequences_spec(shortcut)[i];
            &&& s.len() % 2 == 0
            &&& forall|j: int| 0 <= j < s.len() / 2 ==>
                    s[j].1 == 1 && #[trigger] s[s.len() - 1 - j] == (s[j].0, 0i32)
        }),
{
}

/// A preview is never longer than 81 characters and starts like the transcript.
pub proof fn law_preview_prefix(text: Seq<char>)
    ensures
        preview_spec(text).len() <= PREVIEW_CHARS + 1,
        preview_spec(text).take(if text.len() <= PREVIEW_CHARS { text.len() as int } else { PREVIEW_CHARS as int })
            == text.take(if text.len() <= PREVIEW_CHARS { text.len() as int } else { PREVIEW_CHARS as int }),
{
    if text.len() > PREVIEW_CHARS {
        assert(text.take(PREVIEW_CHARS as int).push('…').take(PREVIEW_CHARS as int) =~= text.take(PREVIEW_CHARS as int));
    } else {
        assert(text.take(text.len() as int) =~= text);
    }
}

} // verus!
