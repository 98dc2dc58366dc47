use pomodorust::autostart::{autostart_action, desktop_entry, AutostartAction, AUTOSTART_FILE_NAME};

const ENTRY: &str = "[Desktop Entry]\nType=Application\nName=Pomodorust\nComment=Minuteur Pomodoro dans la barre système\nExec=/usr/bin/pomodorust\nTerminal=false\nX-GNOME-Autostart-enabled=true\n";

#[test]
fn the_entry() {
    assert_eq!(AUTOSTART_FILE_NAME, "pomodorust.desktop");
    assert_eq!(desktop_entry("/usr/bin/pomodorust"), ENTRY);
}

#[test]
fn sync_decisions_are_idempotent() {
    assert_eq!(autostart_action(true, false, "/usr/bin/pomodorust"), AutostartAction::Write(ENTRY.to_string()));
    assert_eq!(autostart_action(true, true, "/usr/bin/pomodorust"), AutostartAction::Write(ENTRY.to_string()));
    assert_eq!(autostart_action(false, true, "x"), AutostartAction::Remove);
    assert_eq!(autostart_action(false, false, "x"), AutostartAction::Nothing);
}
