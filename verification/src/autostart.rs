//! Launch at session start, through an XDG Autostart `.desktop` file in
//! `~/.config/autostart/`: its content, and what to do with it.
use vstd::prelude::*;

verus! {

pub const AUTOSTART_FILE_NAME: &'static str = "pomodorust.desktop";

pub const ENTRY_HEAD: &'static str = "[Desktop Entry]\nType=Application\nName=Pomodorust\nComment=Minuteur Pomodoro dans la barre système\nExec=";

pub const ENTRY_TAIL: &'static str = "\nTerminal=false\nX-GNOME-Autostart-enabled=true\n";

/// The autostart entry that launches the executable at `exe`.
pub fn desktop_entry(exe: &str) -> (s: String)
    ensures
        s@ == ENTRY_HEAD@ + exe@ + ENTRY_TAIL@,
{
    let mut s = String::from_str(ENTRY_HEAD);
    s.append(exe);
    s.append(ENTRY_TAIL);
    s
}

/// What to do with the autostart file.
#[derive(Debug, Clone, PartialEq, Eq)]
pub enum AutostartAction {
    /// Write this entry to the file (creating its directory).
    Write(String),
    /// Delete the file.
    Remove,
    Nothing,
}

/// The file's content after an action, `None` for no file.
pub open spec fn file_after(a: AutostartAction, before: Option<Seq<char>>) -> Option<Seq<char>> {
    match a {
        AutostartAction::Write(s) => Some(s@),
        AutostartAction::Remove => None,
        AutostartAction::Nothing => before,
    }
}

/// `a` brings the autostart file in line with the wanted setting: when
/// enabled the entry for `exe` is written, when disabled an existing file is
/// deleted.
pub open spec fn is_action_for(a: AutostartAction, enabled: bool, file_exists: bool, exe: Seq<char>) -> bool {
    if enabled {
        a matches AutostartAction::Write(s) && s@ == ENTRY_HEAD@ + exe + ENTRY_TAIL@
    } else if file_exists {
        a == AutostartAction::Remove
    } else {
        a == AutostartAction::Nothing
    }
}

/// Brings the autostart file in line with the wanted setting: when enabled
/// the entry for `exe` is written, when disabled an existing file is
/// deleted.
pub fn autostart_action(enabled: bool, file_exists: bool, exe: &str) -> (a: AutostartAction)
    ensures
        is_action_for(a, enabled, file_exists, exe@),
{
    if enabled {
        AutostartAction::Write(desktop_entry(exe))
    } else if file_exists {
        AutostartAction::Remove
    } else {
        AutostartAction::Nothing
    }
}

/// Synchronising is idempotent: done twice with the same setting, the second
/// time leaves the file as the first left it.
pub proof fn lemma_sync_idempotent(
    enabled: bool,
    before: Option<Seq<char>>,
    exe: Seq<char>,
    a1: AutostartAction,
    a2: AutostartAction,
)
    requires
        is_action_for(a1, enabled, before is Some, exe),
        is_action_for(a2, enabled, file_after(a1, before) is Some, exe),
    ensures
        file_after(a2, file_after(a1, before)) == file_after(a1, before),
        file_after(a1, before) is Some == enabled,
{
}

} // verus!
