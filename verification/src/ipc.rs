//! Commands from short-lived `xsay toggle` / `xsay cancel` invocations.
//!
//! The application reads one line per connection from the daemon's socket (at
//! most 128 bytes) and hands it to [`dispatch`], which turns it into the event the
//! coordinator would get from a hotkey.

use crate::hotkey::AppEvent;
use crate::state::{after_hotkey, AppState};
use crate::text::{chars_eq_str, trim, trim_str};
use vstd::prelude::*;

verus! {

/// The event a command line asks for, with the session in `state`: `toggle` presses
/// from Idle and releases while recording (and is dropped while transcribing or
/// injecting), `cancel` is Escape; anything else is ignored.
pub open spec fn command_event(line: Seq<char>, state: AppState) -> Option<AppEvent> {
    let cmd = trim(line);
    if cmd == "toggle"@ {
        match state {
            AppState::Idle => Some(AppEvent::HotkeyPressed),
            AppState::Recording { .. } => Some(AppEvent::HotkeyReleased),
            _ => None,
        }
    } else if cmd == "cancel"@ {
        Some(AppEvent::EscapePressed)
    } else {
        None
    }
}

/// Turns a received command line (surrounding whitespace ignored) into the event for
/// the coordinator.
pub fn dispatch(line: &str, state: &AppState) -> (r: Option<AppEvent>)
    ensures
        r == command_event(line@, *state),
{
    let cmd = trim_str(line);
    if chars_eq_str(&cmd, "toggle") {
        match state {
            AppState::Idle => Some(AppEvent::HotkeyPressed),
            AppState::Recording { .. } => Some(AppEvent::HotkeyReleased),
            _ => None,
        }
    } else if chars_eq_str(&cmd, "cancel") {
        Some(AppEvent::EscapePressed)
    } else {
        None
    }
}

/// Two `toggle` commands make one session: the first starts recording from Idle, the
/// second (while recording) stops it, leaving the session transcribing; `cancel`
/// always asks for Escape.
pub proof fn law_toggle_twice(
    line: Seq<char>,
    cancel: Seq<char>,
    recording: AppState,
    stopped: AppState,
    any: AppState,
)
    requires
        trim(line) == "toggle"@,
        trim(cancel) == "cancel"@,
        after_hotkey(AppState::Idle, recording, AppEvent::HotkeyPressed),
        after_hotkey(recording, stopped, AppEvent::HotkeyReleased),
    ensures
        command_event(line, AppState::Idle) == Some(AppEvent::HotkeyPressed),
        command_event(line, recording) == Some(AppEvent::HotkeyReleased),
        stopped is Transcribing,
        command_event(cancel, any) == Some(AppEvent::EscapePressed),
{
    reveal_strlit("cancel");
    reveal_strlit("toggle");
    assert("toggle"@[0] != "cancel"@[0]);
}

} // verus!
