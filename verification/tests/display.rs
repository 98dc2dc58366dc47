use pomodorust::config::Preset;
use pomodorust::display::{
    break_ended_message, break_status_at, format_mmss, menu_start_label, phase_change_notice,
    start_pause_label, tooltip_text_at, tray_label_text_at, BreakStatus, LABEL_PAUSE,
    LABEL_RESUME_WORK, LABEL_START,
};
use pomodorust::timer::{Phase, PhaseCompleted, Timer};

const SEC: u128 = 1_000_000_000;
const MIN: u128 = 60 * SEC;

fn classique() -> Preset {
    Preset::default_preset()
}

#[test]
fn mmss_formatting() {
    assert_eq!(format_mmss(0), "00:00");
    assert_eq!(format_mmss(SEC - 1), "00:00");
    assert_eq!(format_mmss(1_499 * SEC), "24:59");
    assert_eq!(format_mmss(5 * MIN), "05:00");
    assert_eq!(format_mmss(61 * SEC), "01:01");
    assert_eq!(format_mmss(100 * MIN + 9 * SEC), "100:09");
}

#[test]
fn start_pause_labels() {
    let p = classique();
    let mut t = Timer::new();
    assert_eq!(start_pause_label(&t), LABEL_START);
    assert_eq!(LABEL_START, "▶ Démarrer");
    t.start_at(&p, 0);
    assert_eq!(start_pause_label(&t), LABEL_PAUSE);
    t.pause_at(1);
    assert_eq!(start_pause_label(&t), LABEL_START);
    t.skip_at(&p, 2);
    t.tick_at(&p, 2 + 5 * MIN);
    assert_eq!(start_pause_label(&t), LABEL_RESUME_WORK);
    assert_eq!(menu_start_label(true), "⏸ Pause");
    assert_eq!(menu_start_label(false), "▶ Démarrer");
}

#[test]
fn tray_label_and_tooltip() {
    let p = classique();
    let mut t = Timer::new();
    assert_eq!(tray_label_text_at(&t, 0), "");
    assert_eq!(tooltip_text_at(&t, 0), "Pomodorust — Prêt");
    t.start_at(&p, 0);
    assert_eq!(tray_label_text_at(&t, SEC), "🍅 24:59");
    assert_eq!(tooltip_text_at(&t, SEC), "Travail — 24:59");
    t.skip_at(&p, 0);
    assert_eq!(tray_label_text_at(&t, 48 * SEC), "☕ 04:12");
    assert_eq!(tooltip_text_at(&t, 48 * SEC), "Pause courte — 04:12");
    t.tick_at(&p, 5 * MIN);
    assert_eq!(tray_label_text_at(&t, 5 * MIN), "✅ Prêt");
    assert_eq!(tooltip_text_at(&t, 5 * MIN), "Pause terminée — cliquez sur \"Reprendre le travail\"");
}

#[test]
fn break_status_follows_the_timer() {
    let p = classique();
    let mut t = Timer::new();
    assert_eq!(break_status_at(&t, 0), BreakStatus::NoBreak);
    t.start_at(&p, 0);
    assert_eq!(break_status_at(&t, 0), BreakStatus::NoBreak);
    t.skip_at(&p, 0);
    assert_eq!(break_status_at(&t, SEC), BreakStatus::Running(Phase::ShortBreak, "04:59".to_string()));
    t.pause_at(2 * SEC);
    assert_eq!(break_status_at(&t, 3 * SEC), BreakStatus::NoBreak);
    t.start_at(&p, 3 * SEC);
    t.tick_at(&p, 10 * MIN);
    assert_eq!(break_status_at(&t, 10 * MIN), BreakStatus::AwaitingConfirmation(Phase::ShortBreak));
}

#[test]
fn notices_of_phase_changes() {
    let to_break = phase_change_notice(&PhaseCompleted { finished_phase: Phase::Work, next_phase: Phase::LongBreak });
    assert_eq!(to_break.headline, "Session terminée — pause bien méritée !");
    assert_eq!(to_break.next_hint, "Prochaine étape : Pause longue");
    assert_eq!(to_break.message, "Session terminée — pause bien méritée !\nProchaine étape : Pause longue");
    assert!(!to_break.show_toast);
    assert!(!to_break.rising_sound);
    let to_work = phase_change_notice(&PhaseCompleted { finished_phase: Phase::ShortBreak, next_phase: Phase::Work });
    assert_eq!(to_work.message, "Pause terminée — au travail !\nProchaine étape : Travail");
    assert!(to_work.show_toast);
    assert!(to_work.rising_sound);
    let short = phase_change_notice(&PhaseCompleted { finished_phase: Phase::Work, next_phase: Phase::ShortBreak });
    assert_eq!(short.next_hint, "Prochaine étape : Pause courte");
}

#[test]
fn break_ended_text() {
    assert_eq!(
        break_ended_message(Phase::LongBreak),
        "Pause longue terminée — cliquez sur \"Reprendre le travail\" quand vous êtes prêt."
    );
}
