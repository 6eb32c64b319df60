//! The settings window's decisions: hotkey capture and display, which actions a
//! model row offers, and what a finished download leads to.
//!
//! The window itself is drawn by the application with egui; it asks these
//! functions what to show and what to do.

use crate::download::DlState;
use crate::hotkey::{evdev_key_for_name, letter_for_name, rdev_key_for_name, Key};
use crate::text::{chars_of, concat, str_eq, string_of, to_uppercase, uppercase};
use vstd::prelude::*;

verus! {

/// The tabs of the settings window.
#[derive(Clone, Copy, Debug, PartialEq, Eq, Structural)]
pub enum Tab {
    Model,
    Hotkey,
    General,
    History,
}

// ---------------------------------------------------------------- hotkey display

/// How a modifier name is shown: `ctrl` → `Ctrl`, `alt` → `Alt`, `shift` → `Shift`,
/// `super` → `Super`, anything else as is.
pub open spec fn pretty_mod_spec(name: Seq<char>) -> Seq<char> {
    if name == "ctrl"@ {
        "Ctrl"@
    } else if name == "alt"@ {
        "Alt"@
    } else if name == "shift"@ {
        "Shift"@
    } else if name == "super"@ {
        "Super"@
    } else {
        name
    }
}

/// The label of a modifier.
pub fn pretty_mod(name: &str) -> (r: String)
    ensures
        r@ == pretty_mod_spec(name@),
{
    if str_eq(name, "ctrl") {
        String::from_str("Ctrl")
    } else if str_eq(name, "alt") {
        String::from_str("Alt")
    } else if str_eq(name, "shift") {
        String::from_str("Shift")
    } else if str_eq(name, "super") {
        String::from_str("Super")
    } else {
        string_of(&chars_of(name))
    }
}

/// The label of a key: one-character names upper-cased (so `z` reads as the key
/// cap `Z`), longer names as they are.
pub fn pretty_key(name: &str) -> (r: String)
    ensures
        r@ == pretty_key_spec(name@),
{
    if chars_of(name).len() == 1 {
        to_uppercase(name)
    } else {
        string_of(&chars_of(name))
    }
}

/// The label of a key (see [`pretty_key`]).
pub open spec fn pretty_key_spec(name: Seq<char>) -> Seq<char> {
    if name.len() == 1 { uppercase(name) } else { name }
}

/// The key-cap labels of a hotkey, modifiers first, in order, then the key.
pub fn hotkey_parts(mods: &Vec<String>, key: &str) -> (r: Vec<String>)
    ensures
        r@.len() == mods@.len() + 1,
        forall|i: int| 0 <= i < mods@.len() ==> #[trigger] r@[i]@ == pretty_mod_spec(mods@[i]@),
        r@[mods@.len() as int]@ == pretty_key_spec(key@),
{
    let mut r: Vec<String> = Vec::new();
    let mut i: usize = 0;
    while i < mods.len()
        invariant
            i <= mods.len(),
            r@.len() == i,
            forall|k: int| 0 <= k < i ==> #[trigger] r@[k]@ == pretty_mod_spec(mods@[k]@),
        decreases mods.len() - i,
    {
        r.push(pretty_mod(mods[i].as_str()));
        i = i + 1;
    }
    r.push(pretty_key(key));
    r
}

/// The hint under the current hotkey, by mode.
pub fn mode_hint(mode: &str) -> (r: &'static str)
    ensures
        mode@ == "toggle"@ ==> r@ == "点按切换：按一次开始录音，再按一次结束并输入。停顿 1.5 秒自动识别。"@,
        mode@ != "toggle"@ ==> r@ == "按住说话：按住快捷键录音，松开转写输入。停顿 1.5 秒自动识别。"@,
{
    if str_eq(mode, "toggle") {
        "点按切换：按一次开始录音，再按一次结束并输入。停顿 1.5 秒自动识别。"
    } else {
        "按住说话：按住快捷键录音，松开转写输入。停顿 1.5 秒自动识别。"
    }
}

// ---------------------------------------------------------------- hotkey capture

/// The name the settings window records for a key pressed while it has focus:
/// function keys, navigation keys and letters (small); none for other keys.
pub open spec fn window_key_name(key: Key) -> Option<Seq<char>> {
    match key {
        Key::F1 => Some("F1"@),
        Key::F2 => Some("F2"@),
        Key::F3 => Some("F3"@),
        Key::F4 => Some("F4"@),
        Key::F5 => Some("F5"@),
        Key::F6 => Some("F6"@),
        Key::F7 => Some("F7"@),
        Key::F8 => Some("F8"@),
        Key::F9 => Some("F9"@),
        Key::F10 => Some("F10"@),
        Key::F11 => Some("F11"@),
        Key::F12 => Some("F12"@),
        Key::Home => Some("Home"@),
        Key::End => Some("End"@),
        Key::PageUp => Some("PageUp"@),
        Key::PageDown => Some("PageDown"@),
        Key::Delete => Some("Delete"@),
        Key::Insert => Some("Insert"@),
        Key::Tab => Some("Tab"@),
        Key::Letter(c) => if 'a' <= c && c <= 'z' { Some(seq![c]) } else { None },
        _ => None,
    }
}

/// The hotkey name for a key pressed in the settings window.
pub fn egui_key_to_rdev(key: Key) -> (r: Option<String>)
    ensures
        r is None <==> window_key_name(key) is None,
        r matches Some(s) ==> window_key_name(key) == Some(s@),
{
    let name = match key {
        Key::F1 => "F1",
        Key::F2 => "F2",
        Key::F3 => "F3",
        Key::F4 => "F4",
        Key::F5 => "F5",
        Key::F6 => "F6",
        Key::F7 => "F7",
        Key::F8 => "F8",
        Key::F9 => "F9",
        Key::F10 => "F10",
        Key::F11 => "F11",
        Key::F12 => "F12",
        Key::Home => "Home",
        Key::End => "End",
        Key::PageUp => "PageUp",
        Key::PageDown => "PageDown",
        Key::Delete => "Delete",
        Key::Insert => "Insert",
        Key::Tab => "Tab",
        Key::Letter(c) => {
            if 'a' <= c && c <= 'z' {
                let mut s = String::new();
                crate::text::push_char(&mut s, c);
                assert(s@ =~= seq![c]);
                return Some(s);
            } else {
                return None;
            }
        },
        _ => return None,
    };
    Some(String::from_str(name))
}

/// The modifier keys held with a key press in the settings window.
#[derive(Clone, Copy, Debug, PartialEq, Eq, Structural)]
pub struct Modifiers {
    pub ctrl: bool,
    pub alt: bool,
    pub shift: bool,
    /// The Command key (macOS) or the platform's command modifier.
    pub command: bool,
}

/// The modifier names of a captured hotkey, in the fixed order ctrl, alt, shift,
/// super.
pub open spec fn modifier_names(m: Modifiers) -> Seq<Seq<char>> {
    (if m.ctrl { seq!["ctrl"@] } else { seq![] }) + (if m.alt { seq!["alt"@] } else { seq![] })
        + (if m.shift { seq!["shift"@] } else { seq![] }) + (if m.command { seq!["super"@] } else { seq![] })
}

/// What a capture attempt gives the hotkey tab.
#[derive(Clone, Debug)]
pub enum CaptureOutcome {
    /// Nothing captured yet; keep waiting.
    Waiting,
    /// The user cancelled (Escape): end the capture, keep the old hotkey.
    Cancelled,
    /// A new hotkey: its key name and modifier names.
    Captured(String, Vec<String>),
}

/// The view of a capture outcome.
pub open spec fn outcome_view(o: CaptureOutcome) -> Option<Option<(Seq<char>, Seq<Seq<char>>)>> {
    match o {
        CaptureOutcome::Waiting => None,
        CaptureOutcome::Cancelled => Some(None),
        CaptureOutcome::Captured(k, m) => Some(Some((k@, m@.map_values(|s: String| s@)))),
    }
}

/// A key pressed while the settings window has focus: Escape cancels, a nameable key
/// is captured with the modifiers held, any other key is ignored.
pub fn capture_from_window(key: Key, mods: Modifiers) -> (r: CaptureOutcome)
    ensures
        outcome_view(r) == (if key == Key::Escape {
            Some(None)
        } else {
            match window_key_name(key) {
                Some(n) => Some(Some((n, modifier_names(mods)))),
                None => None,
            }
        }),
{
    if key == Key::Escape {
        return CaptureOutcome::Cancelled;
    }
    match egui_key_to_rdev(key) {
        Some(name) => {
            let mut v: Vec<String> = Vec::new();
            if mods.ctrl {
                v.push(String::from_str("ctrl"));
            }
            if mods.alt {
                v.push(String::from_str("alt"));
            }
            if mods.shift {
                v.push(String::from_str("shift"));
            }
            if mods.command {
                v.push(String::from_str("super"));
            }
            assert(v@.map_values(|s: String| s@) =~= modifier_names(mods));
            CaptureOutcome::Captured(name, v)
        },
        None => CaptureOutcome::Waiting,
    }
}

/// What the global key listener captured (see the hotkey module): nothing yet,
/// the cancel marker, or a hotkey.
pub fn capture_from_listener(latest: Option<(String, Vec<String>)>) -> (r: CaptureOutcome)
    ensures
        latest is None ==> outcome_view(r) == None::<Option<(Seq<char>, Seq<Seq<char>>)>>,
        latest matches Some((k, m)) ==> outcome_view(r) == (if k@ == crate::hotkey::cancel_name() {
            Some(None)
        } else {
            Some(Some((k@, m@.map_values(|s: String| s@))))
        }),
{
    match latest {
        None => CaptureOutcome::Waiting,
        Some((k, m)) => {
            if str_eq(k.as_str(), "__cancel__") {
                CaptureOutcome::Cancelled
            } else {
                CaptureOutcome::Captured(k, m)
            }
        },
    }
}

/// The hotkey as edited in the tab, compared with the saved one.
pub fn hotkey_changed(
    key: &str,
    mods: &Vec<String>,
    mode: &str,
    saved_key: &str,
    saved_mods: &Vec<String>,
    saved_mode: &str,
) -> (r: bool)
    ensures
        r == (key@ != saved_key@ || mods@.map_values(|s: String| s@) != saved_mods@.map_values(|s: String| s@)
            || mode@ != saved_mode@),
{
    let same_mods = strings_equal(mods, saved_mods);
    !str_eq(key, saved_key) || !same_mods || !str_eq(mode, saved_mode)
}

/// Whether two lists of strings hold the same strings in the same order.
fn strings_equal(a: &Vec<String>, b: &Vec<String>) -> (r: bool)
    ensures
        r == (a@.map_values(|s: String| s@) == b@.map_values(|s: String| s@)),
{
    let ghost av = a@.map_values(|s: String| s@);
    let ghost bv = b@.map_values(|s: String| s@);
    if a.len() != b.len() {
        assert(av.len() != bv.len());
        return false;
    }
    let mut i: usize = 0;
    while i < a.len()
        invariant
            i <= a.len(),
            a.len() == b.len(),
            av == a@.map_values(|s: String| s@),
            bv == b@.map_values(|s: String| s@),
            forall|j: int| 0 <= j < i ==> av[j] == bv[j],
        decreases a.len() - i,
    {
        if !str_eq(a[i].as_str(), b[i].as_str()) {
            assert(av[i as int] != bv[i as int]);
            return false;
        }
        i = i + 1;
    }
    assert(av =~= bv);
    true
}

/// The status line after saving a hotkey: its key and the mode in words.
pub fn hotkey_saved_message(key: &str, mode: &str) -> (r: String)
    ensures
        r@ == "快捷键已更新为 "@ + key@ + "（"@ + (if mode@ == "toggle"@ { "点按切换"@ } else { "按住说话"@ })
            + "）"@,
{
    let label = if str_eq(mode, "toggle") { "点按切换" } else { "按住说话" };
    let a = concat("快捷键已更新为 ", key);
    let b = concat(a.as_str(), "（");
    let c = concat(b.as_str(), label);
    concat(c.as_str(), "）")
}

// ---------------------------------------------------------------- model rows

/// The badge beside a downloaded model, from the size the server reports.
#[derive(Clone, Copy, Debug, PartialEq, Eq, Structural)]
pub enum UpdateBadge {
    /// The server's file differs in size: "有更新".
    UpdateAvailable,
    /// Same size: "最新".
    UpToDate,
}

/// The badge of a model row: only for a downloaded model whose remote size is known.
pub fn update_badge(remote: Option<u64>, is_downloaded: bool, local_size: u64) -> (r: Option<UpdateBadge>)
    ensures
        r == (match remote {
            Some(size) => if is_downloaded {
                Some(if size != local_size { UpdateBadge::UpdateAvailable } else { UpdateBadge::UpToDate })
            } else {
                None
            },
            None => None,
        }),
{
    match remote {
        Some(size) => if is_downloaded {
            Some(if size != local_size { UpdateBadge::UpdateAvailable } else { UpdateBadge::UpToDate })
        } else {
            None
        },
        None => None,
    }
}

/// An action link of a model row.
#[derive(Clone, Copy, Debug, PartialEq, Eq, Structural)]
pub enum RowAction {
    /// "继续": resume a paused download.
    Resume,
    /// "暂停": pause the running download.
    Pause,
    /// "取消": cancel the running download.
    Cancel,
    /// The error of a failed download, then "重试".
    Retry,
    /// "安装" (or "安装中...", disabled, while installing) for an archive model.
    Install { installing: bool },
    /// "下载" or "继续下载" (with a partial file); disabled while another download
    /// runs.
    Download { resume: bool, enabled: bool },
    /// "删除进度": delete the partial file.
    DeletePartial,
    /// "切换使用": make the model the current one.
    Switch,
    /// "删除": delete the model.
    Delete,
}

/// What a model row knows when it is drawn.
#[derive(Clone, Copy, Debug, PartialEq, Eq, Structural)]
pub struct RowState {
    /// This model is the one downloading.
    pub is_this_download: bool,
    /// That download is paused.
    pub paused: bool,
    /// That download failed.
    pub failed: bool,
    pub is_downloaded: bool,
    pub is_current: bool,
    pub has_partial: bool,
    /// The model is a single Whisper file (otherwise an archive to install).
    pub is_whisper: bool,
    /// Its archive is being installed.
    pub installing: bool,
    /// No download is running.
    pub no_download: bool,
}

/// The actions a model row offers, left to right.
pub open spec fn row_actions_spec(s: RowState) -> Seq<RowAction> {
    if s.is_this_download {
        seq![if s.paused { RowAction::Resume } else { RowAction::Pause }, RowAction::Cancel]
            + if s.failed { seq![RowAction::Retry] } else { seq![] }
    } else {
        let fetch = if s.is_downloaded {
            seq![]
        } else if !s.is_whisper {
            seq![RowAction::Install { installing: s.installing }]
        } else {
            seq![RowAction::Download { resume: s.has_partial, enabled: s.no_download }]
                + if s.has_partial { seq![RowAction::DeletePartial] } else { seq![] }
        };
        let manage = if s.is_downloaded && !s.is_current {
            seq![RowAction::Switch, RowAction::Delete]
        } else if s.is_downloaded {
            seq![RowAction::Delete]
        } else {
            seq![]
        };
        fetch + manage
    }
}

/// Lists the actions of a model row.
pub fn model_row_actions(s: RowState) -> (r: Vec<RowAction>)
    ensures
        r@ == row_actions_spec(s),
{
    let mut r: Vec<RowAction> = Vec::new();
    if s.is_this_download {
        r.push(if s.paused { RowAction::Resume } else { RowAction::Pause });
        r.push(RowAction::Cancel);
        if s.failed {
            r.push(RowAction::Retry);
        }
        assert(r@ =~= row_actions_spec(s));
        return r;
    }
    if !s.is_downloaded {
        if !s.is_whisper {
            r.push(RowAction::Install { installing: s.installing });
        } else {
            r.push(RowAction::Download { resume: s.has_partial, enabled: s.no_download });
            if s.has_partial {
                r.push(RowAction::DeletePartial);
            }
        }
    }
    if s.is_downloaded && !s.is_current {
        r.push(RowAction::Switch);
        r.push(RowAction::Delete);
    } else if s.is_downloaded {
        r.push(RowAction::Delete);
    }
    assert(r@ =~= row_actions_spec(s));
    r
}

/// What the model tab does when it sees the state of the active download.
#[derive(Clone, Debug)]
pub enum CompletionStep {
    /// Still running (or nothing to do).
    Nothing,
    /// The archive of a pending install finished downloading: extract it.
    Extract,
    /// Finished, and the model becomes the current one (it already was, or the
    /// current one is missing): save it in the settings, reload it, and show the
    /// message.
    EnableAndReload { message: String },
    /// Finished; another model stays current. Show the message.
    Downloaded { message: String },
    /// Cancelled: forget the download.
    Forget,
}

/// Decides what a download's end means. `pending_extract` is the archive install
/// waiting for this file; `current` is the current model's file name and
/// `current_exists` whether it is on disk; `nice_name` is the model's display name.
pub fn download_completion(
    state: &Option<DlState>,
    finished_file: &Option<String>,
    pending_extract: &Option<String>,
    current: &str,
    current_exists: bool,
    nice_name: &str,
) -> (r: CompletionStep)
    ensures
        match *state {
            Some(DlState::Completed) => match *finished_file {
                Some(f) => if (pending_extract matches Some(p) && p@ == f@) {
                    r is Extract
                } else if current@ == f@ || !(current@.len() > 0 && current_exists) {
                    r matches CompletionStep::EnableAndReload { message }
                        && message@ == "✓ "@ + nice_name@ + " 下载完成并已启用"@
                } else {
                    r matches CompletionStep::Downloaded { message }
                        && message@ == "✓ "@ + nice_name@ + " 下载完成"@
                },
                None => r is Forget,
            },
            Some(DlState::Cancelled) => r is Forget,
            _ => r is Nothing,
        },
{
    match state {
        Some(DlState::Completed) => match finished_file {
            Some(f) => {
                let extract = match pending_extract {
                    Some(p) => str_eq(p.as_str(), f.as_str()),
                    None => false,
                };
                if extract {
                    return CompletionStep::Extract;
                }
                let cur_ok = chars_of(current).len() > 0 && current_exists;
                let a = concat("✓ ", nice_name);
                if str_eq(current, f.as_str()) || !cur_ok {
                    CompletionStep::EnableAndReload { message: concat(a.as_str(), " 下载完成并已启用") }
                } else {
                    CompletionStep::Downloaded { message: concat(a.as_str(), " 下载完成") }
                }
            },
            None => CompletionStep::Forget,
        },
        Some(DlState::Cancelled) => CompletionStep::Forget,
        _ => CompletionStep::Nothing,
    }
}

/// The status line after switching to a model: its name and backend.
pub fn switched_message(name: &str, backend: &str) -> (r: String)
    ensures
        r@ == "✓ 已切换到 "@ + name@ + "（后端 = "@ + backend@ + "）"@,
{
    let a = concat("✓ 已切换到 ", name);
    let b = concat(a.as_str(), "（后端 = ");
    let c = concat(b.as_str(), backend);
    concat(c.as_str(), "）")
}

// ---------------------------------------------------------------- laws

/// Every key the settings window can capture is one the Linux listener listens for,
/// under the name the window records; on macOS / Windows the same holds for all of
/// them but Insert, which that listener does not know.
pub proof fn law_window_names_listenable(key: Key)
    ensures
        window_key_name(key) matches Some(n) ==> evdev_key_for_name(n) == Some(key),
        key != Key::Insert ==> (window_key_name(key) matches Some(n) ==> rdev_key_for_name(n) == key),
{
    crate::hotkey::lemma_key_name_chars();
    if let Key::Letter(c) = key {
        if 'a' <= c && c <= 'z' {
            assert(letter_for_name(seq![c]) == Some(Key::Letter(c)));
        }
    }
}

/// A row never offers both to download and to manage a model: a model that is not
/// downloaded can be fetched but not switched to or deleted, and a downloaded one
/// the other way round; the current model can never be switched to.
pub proof fn law_row_actions_consistent(s: RowState)
    requires
        !s.is_this_download,
    ensures
        !s.is_downloaded ==> !row_actions_spec(s).contains(RowAction::Switch)
            && !row_actions_spec(s).contains(RowAction::Delete),
        s.is_downloaded ==> row_actions_spec(s).contains(RowAction::Delete),
        s.is_current ==> !row_actions_spec(s).contains(RowAction::Switch),
{
    let r = row_actions_spec(s);
    if s.is_downloaded {
        assert(r[r.len() - 1] == RowAction::Delete);
    }
}

/// While a model downloads, its row offers exactly one of pause and resume, and
/// always cancel.
pub proof fn law_download_row_controls(s: RowState)
    requires
        s.is_this_download,
    ensures
        row_actions_spec(s).contains(RowAction::Cancel),
        row_actions_spec(s).contains(RowAction::Resume) != row_actions_spec(s).contains(RowAction::Pause),
{
    let r = row_actions_spec(s);
    assert(r[1] == RowAction::Cancel);
    if s.paused {
        assert(r[0] == RowAction::Resume);
    } else {
        assert(r[0] == RowAction::Pause);
    }
}

} // verus!
