//! Start-at-login entries: a `.desktop` file on Linux, a launch agent on macOS, a
//! batch file in the Startup folder on Windows.
//!
//! The application finds the entry's place, writes or deletes it; here is what it
//! contains.

use crate::text::concat;
use vstd::prelude::*;

verus! {

/// The desktop systems an entry can be written for.
#[derive(Clone, Copy, Debug, PartialEq, Eq, Structural)]
pub enum Platform {
    Linux,
    MacOs,
    Windows,
}

/// The text of the Linux autostart entry, before and after the executable path.
pub open spec fn linux_head() -> Seq<char> {
    "[Desktop Entry]\nType=Application\nName=xsay\nComment=AI Voice Input Tool\nExec="@
}

pub open spec fn linux_tail() -> Seq<char> {
    "\nTerminal=false\nX-GNOME-Autostart-enabled=true\nCategories=Utility;\n"@
}

/// The text of the macOS launch agent, before and after the executable path.
pub open spec fn macos_head() -> Seq<char> {
    "<?xml version=\"1.0\" encoding=\"UTF-8\"?>\n<!DOCTYPE plist PUBLIC \"-//Apple//DTD PLIST 1.0//EN\" \"http://www.apple.com/DTDs/PropertyList-1.0.dtd\">\n<plist version=\"1.0\">\n<dict>\n  <key>Label</key><string>com.xsay</string>\n  <key>ProgramArguments</key><array><string>"@
}

pub open spec fn macos_tail() -> Seq<char> {
    "</string></array>\n  <key>RunAtLoad</key><true/>\n  <key>KeepAlive</key><false/>\n</dict>\n</plist>\n"@
}

/// The text of the Windows batch file, before and after the executable path.
pub open spec fn windows_head() -> Seq<char> {
    "@echo off\r\nstart \"\" \""@
}

pub open spec fn windows_tail() -> Seq<char> {
    "\"\r\n"@
}

/// The entry that starts the executable at `exe` at login on `platform`.
pub open spec fn entry_text(platform: Platform, exe: Seq<char>) -> Seq<char> {
    match platform {
        Platform::Linux => linux_head() + exe + linux_tail(),
        Platform::MacOs => macos_head() + exe + macos_tail(),
        Platform::Windows => windows_head() + exe + windows_tail(),
    }
}

/// The autostart entry for the executable at `exe` (as displayed).
pub fn render_entry(platform: Platform, exe: &str) -> (r: String)
    ensures
        r@ == entry_text(platform, exe@),
{
    let (head, tail) = match platform {
        Platform::Linux => (
            "[Desktop Entry]\nType=Application\nName=xsay\nComment=AI Voice Input Tool\nExec=",
            "\nTerminal=false\nX-GNOME-Autostart-enabled=true\nCategories=Utility;\n",
        ),
        Platform::MacOs => (
            "<?xml version=\"1.0\" encoding=\"UTF-8\"?>\n<!DOCTYPE plist PUBLIC \"-//Apple//DTD PLIST 1.0//EN\" \"http://www.apple.com/DTDs/PropertyList-1.0.dtd\">\n<plist version=\"1.0\">\n<dict>\n  <key>Label</key><string>com.xsay</string>\n  <key>ProgramArguments</key><array><string>",
            "</string></array>\n  <key>RunAtLoad</key><true/>\n  <key>KeepAlive</key><false/>\n</dict>\n</plist>\n",
        ),
        Platform::Windows => ("@echo off\r\nstart \"\" \"", "\"\r\n"),
    };
    let a = concat(head, exe);
    concat(a.as_str(), tail)
}

} // verus!
