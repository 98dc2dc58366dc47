use pomodorust::display::BreakStatus;
use pomodorust::osd::{DetailStyle, OsdMode, OsdState};
use pomodorust::timer::Phase;

fn break_running(text: &str) -> BreakStatus {
    BreakStatus::Running(Phase::ShortBreak, text.to_string())
}

#[test]
fn a_running_break_shows_the_toast() {
    let mut s = OsdState::new();
    let u = s.sync(&break_running("04:59"));
    assert_eq!(s.mode, OsdMode::BreakRunning(Phase::ShortBreak));
    assert_eq!(u.title.as_deref(), Some("Pause courte"));
    assert_eq!(u.detail.as_deref(), Some("04:59"));
    assert_eq!(u.style, Some(DetailStyle::Countdown));
    assert_eq!(u.action_label, Some("⏭ Passer la pause"));
    assert!(u.show && !u.hide);
    let u = s.sync(&break_running("04:58"));
    assert_eq!(u.title, None);
    assert_eq!(u.detail.as_deref(), Some("04:58"));
    assert!(u.show);
}

#[test]
fn a_dismissed_toast_stays_hidden_until_the_mode_changes() {
    let mut s = OsdState::new();
    s.sync(&break_running("04:59"));
    s.dismiss();
    let u = s.sync(&break_running("04:58"));
    assert!(!u.show);
    assert_eq!(u.detail.as_deref(), Some("04:58"));
    let u = s.sync(&BreakStatus::AwaitingConfirmation(Phase::ShortBreak));
    assert!(u.show);
    assert!(!s.dismissed);
    assert_eq!(u.title.as_deref(), Some("Pause terminée !"));
    assert_eq!(u.detail.as_deref(), Some("Prêt à reprendre le travail ?"));
    assert_eq!(u.action_label, Some("▶ Reprendre le travail"));
    s.dismiss();
    let u = s.sync(&BreakStatus::AwaitingConfirmation(Phase::ShortBreak));
    assert!(!u.show);
    let u = s.sync(&BreakStatus::NoBreak);
    assert!(u.hide);
    assert_eq!(s.mode, OsdMode::Hidden);
    assert!(!s.dismissed);
    let u = s.sync(&BreakStatus::NoBreak);
    assert!(!u.hide && !u.show);
}

#[test]
fn a_short_message_is_left_alone_and_closes_itself() {
    let mut s = OsdState::new();
    let first = s.begin_ephemeral();
    let u = s.sync(&break_running("04:59"));
    assert!(!u.show && !u.hide && u.detail.is_none());
    assert_eq!(s.mode, OsdMode::Ephemeral);
    let second = s.begin_ephemeral();
    assert!(second > first);
    assert!(!s.ephemeral_expired(first));
    assert_eq!(s.mode, OsdMode::Ephemeral);
    assert!(s.ephemeral_expired(second));
    assert_eq!(s.mode, OsdMode::Hidden);
}
