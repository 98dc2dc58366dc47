use pomodorust::config::Preset;
use pomodorust::timer::{Phase, PhaseCompleted, SessionHandle, TickEvent, Timer, TimerState};

const MS: u128 = 1_000_000;
const MIN: u128 = 60_000 * MS;

fn preset(work: u32, short: u32, long: u32, cycles: u32) -> Preset {
    Preset {
        name: "Test".to_string(),
        work_min: work,
        short_break_min: short,
        long_break_min: long,
        cycles_before_long_break: cycles,
    }
}

fn running(t: &Timer) -> (SessionHandle, u128) {
    match *t.state() {
        TimerState::Running { session, started_at } => (session, started_at),
        other => panic!("not running: {other:?}"),
    }
}

#[test]
fn phase_labels() {
    assert_eq!(Phase::Work.label(), "Travail");
    assert_eq!(Phase::ShortBreak.label(), "Pause courte");
    assert_eq!(Phase::LongBreak.label(), "Pause longue");
}

#[test]
fn new_timer_is_idle() {
    let t = Timer::new();
    assert!(t.is_idle());
    assert!(!t.is_running());
    assert!(!t.is_awaiting_break_end());
    assert_eq!(t.current_phase(), None);
    assert_eq!(t.remaining(), None);
    assert_eq!(t.remaining_at(12345 * MS), None);
}

#[test]
fn start_from_idle_begins_work() {
    let p = preset(25, 5, 15, 4);
    let mut t = Timer::new();
    t.start_at(&p, 1_000 * MS);
    let (s, at) = running(&t);
    assert_eq!(s.phase, Phase::Work);
    assert_eq!(s.duration, 25 * MIN);
    assert_eq!(s.cycle_count, 0);
    assert_eq!(at, 1_000 * MS);
    assert_eq!(t.remaining_at(1_000 * MS), Some(25 * MIN));
    assert_eq!(t.remaining_at(61_000 * MS), Some(24 * MIN));
    // Starting again while running changes nothing.
    t.start_at(&p, 5_000 * MS);
    assert_eq!(running(&t).1, 1_000 * MS);
}

#[test]
fn pause_and_resume_keep_the_time_left() {
    let p = preset(25, 5, 15, 4);
    let mut t = Timer::new();
    t.start_at(&p, 0);
    t.pause_at(10 * MIN);
    assert!(matches!(t.state(), TimerState::Paused { remaining, .. } if *remaining == 15 * MIN));
    assert_eq!(t.remaining_at(20 * MIN), Some(15 * MIN));
    t.start_at(&p, 100 * MIN);
    assert!(t.is_running());
    assert_eq!(t.remaining_at(100 * MIN), Some(15 * MIN));
    assert_eq!(t.remaining_at(101 * MIN), Some(14 * MIN));
}

#[test]
fn remaining_never_grows_and_never_underflows() {
    let p = preset(1, 1, 1, 4);
    let mut t = Timer::new();
    t.start_at(&p, 500 * MS);
    assert_eq!(t.remaining_at(0), Some(MIN));
    assert_eq!(t.remaining_at((500 + 30_000) * MS), Some(30_000 * MS));
    assert_eq!(t.remaining_at(500 * MS + 10 * MIN), Some(0));
}

#[test]
fn toggle_pauses_starts_and_confirms() {
    let p = preset(25, 5, 15, 4);
    let mut t = Timer::new();
    assert!(t.toggle_start_pause_at(&p, 0).is_none());
    assert!(t.is_running());
    assert!(t.toggle_start_pause_at(&p, MIN).is_none());
    assert!(matches!(t.state(), TimerState::Paused { .. }));
    assert!(t.toggle_start_pause_at(&p, 2 * MIN).is_none());
    assert!(t.is_running());
}

#[test]
fn work_expiry_moves_on_to_a_break() {
    let p = preset(25, 5, 15, 4);
    let mut t = Timer::new();
    t.start_at(&p, 0);
    assert!(t.tick_at(&p, 25 * MIN - 1).is_none());
    match t.tick_at(&p, 25 * MIN) {
        Some(TickEvent::Advanced(c)) => {
            assert_eq!(c, PhaseCompleted { finished_phase: Phase::Work, next_phase: Phase::ShortBreak })
        }
        _ => panic!("expected an advance"),
    }
    let (s, at) = running(&t);
    assert_eq!(s.phase, Phase::ShortBreak);
    assert_eq!(s.duration, 5 * MIN);
    assert_eq!(s.cycle_count, 1);
    assert_eq!(at, 25 * MIN);
}

#[test]
fn break_expiry_waits_for_confirmation() {
    let p = preset(25, 5, 15, 4);
    let mut t = Timer::new();
    t.start_at(&p, 0);
    t.skip_at(&p, 0);
    assert_eq!(t.current_phase(), Some(Phase::ShortBreak));
    match t.tick_at(&p, 5 * MIN) {
        Some(TickEvent::BreakEnded { phase }) => assert_eq!(phase, Phase::ShortBreak),
        _ => panic!("expected the break to end"),
    }
    assert!(t.is_awaiting_break_end());
    assert_eq!(t.remaining_at(99 * MIN), Some(0));
    // Ticks change nothing while waiting.
    assert!(t.tick_at(&p, 100 * MIN).is_none());
    assert!(t.is_awaiting_break_end());
    // The start/pause entry confirms and starts work.
    let c = t.toggle_start_pause_at(&p, 101 * MIN).unwrap();
    assert_eq!(c, PhaseCompleted { finished_phase: Phase::ShortBreak, next_phase: Phase::Work });
    let (s, at) = running(&t);
    assert_eq!(s.phase, Phase::Work);
    assert_eq!(s.duration, 25 * MIN);
    assert_eq!(at, 101 * MIN);
}

#[test]
fn long_break_after_the_configured_number_of_work_sessions() {
    let p = preset(25, 5, 15, 4);
    let mut t = Timer::new();
    t.start_at(&p, 0);
    let mut nexts = Vec::new();
    for _ in 0..8 {
        let c = t.skip_at(&p, 0).unwrap();
        assert_eq!(c.finished_phase, Phase::Work);
        nexts.push(c.next_phase);
        let back = t.skip_at(&p, 0).unwrap();
        assert_eq!(back.next_phase, Phase::Work);
    }
    let (s_, l_) = (Phase::ShortBreak, Phase::LongBreak);
    assert_eq!(nexts, vec![s_, s_, s_, l_, s_, s_, s_, l_]);
}

#[test]
fn zero_or_one_cycle_means_a_long_break_every_time() {
    for cycles in [0, 1] {
        let p = preset(25, 5, 15, cycles);
        let mut t = Timer::new();
        t.start_at(&p, 0);
        for _ in 0..3 {
            assert_eq!(t.skip_at(&p, 0).unwrap().next_phase, Phase::LongBreak);
            assert_eq!(t.skip_at(&p, 0).unwrap().next_phase, Phase::Work);
        }
    }
}

#[test]
fn skip_works_from_paused_and_not_from_idle() {
    let p = preset(25, 5, 15, 4);
    let mut t = Timer::new();
    assert!(t.skip_at(&p, 0).is_none());
    assert!(t.is_idle());
    t.start_at(&p, 0);
    t.pause_at(MIN);
    let c = t.skip_at(&p, 2 * MIN).unwrap();
    assert_eq!(c.next_phase, Phase::ShortBreak);
    assert_eq!(running(&t).1, 2 * MIN);
}

#[test]
fn resolve_break_ignores_work_and_ends_breaks() {
    let p = preset(25, 5, 15, 4);
    let mut t = Timer::new();
    assert!(t.resolve_break_at(&p, 0).is_none());
    t.start_at(&p, 0);
    assert!(t.resolve_break_at(&p, MIN).is_none());
    assert_eq!(running(&t).0.phase, Phase::Work);
    t.pause_at(MIN);
    assert!(t.resolve_break_at(&p, 2 * MIN).is_none());
    assert!(matches!(t.state(), TimerState::Paused { .. }));
    t.skip_at(&p, 3 * MIN);
    // A running break is skipped.
    let c = t.resolve_break_at(&p, 4 * MIN).unwrap();
    assert_eq!(c, PhaseCompleted { finished_phase: Phase::ShortBreak, next_phase: Phase::Work });
    // A paused break too.
    t.skip_at(&p, 5 * MIN);
    t.pause_at(6 * MIN);
    assert!(t.resolve_break_at(&p, 7 * MIN).is_some());
    assert_eq!(t.current_phase(), Some(Phase::Work));
}

#[test]
fn reset_goes_back_to_idle() {
    let p = preset(25, 5, 15, 4);
    let mut t = Timer::new();
    t.start_at(&p, 0);
    t.skip_at(&p, 0);
    t.reset();
    assert!(t.is_idle());
    assert_eq!(t.remaining_at(0), None);
}

#[test]
fn clock_driven_operations_follow_the_same_rules() {
    let p = preset(25, 5, 15, 4);
    let mut t = Timer::new();
    t.start(&p);
    assert!(t.is_running());
    let r = t.remaining().unwrap();
    assert!(r <= 25 * MIN && r > 24 * MIN);
    assert!(t.tick(&p).is_none());
    t.pause();
    assert!(matches!(t.state(), TimerState::Paused { .. }));
    assert!(t.toggle_start_pause(&p).is_none());
    assert!(t.is_running());
    assert_eq!(t.skip(&p).unwrap().next_phase, Phase::ShortBreak);
    assert_eq!(t.resolve_break(&p).unwrap().next_phase, Phase::Work);
}
