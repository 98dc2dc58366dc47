//! The texts that show the timer's state: in the tray, in its menu, in the
//! break toast and in desktop notifications.
use crate::text::{push_two_digits, two_digits};
use crate::timer::{phase_label, phase_of, remaining_spec, Phase, PhaseCompleted, Timer, TimerState};
use vstd::prelude::*;

verus! {

pub const LABEL_START: &'static str = "▶ Démarrer";

pub const LABEL_PAUSE: &'static str = "⏸ Pause";

pub const LABEL_RESUME_WORK: &'static str = "▶ Reprendre le travail";

/// `mm:ss` for a time in nanoseconds: whole minutes, then the whole seconds
/// left over, each with at least two digits.
pub open spec fn mmss(ns: u128) -> Seq<char> {
    let secs: u128 = ns / 1_000_000_000;
    two_digits((secs / 60) as nat) + ":"@ + two_digits((secs % 60) as nat)
}

/// Formats a time in nanoseconds as `mm:ss` (whole seconds).
pub fn format_mmss(ns: u128) -> (s: String)
    ensures
        s@ == mmss(ns),
{
    let total_secs: u128 = ns / 1_000_000_000;
    let mut out = String::new();
    push_two_digits(&mut out, total_secs / 60);
    out.append(":");
    push_two_digits(&mut out, total_secs % 60);
    out
}

/// The label of the menu's start/pause entry.
pub open spec fn start_pause_text(st: TimerState) -> Seq<char> {
    if st is AwaitingBreakEnd {
        LABEL_RESUME_WORK@
    } else if st is Running {
        LABEL_PAUSE@
    } else {
        LABEL_START@
    }
}

pub fn start_pause_label(timer: &Timer) -> (s: &'static str)
    ensures
        s@ == start_pause_text(timer@),
{
    if timer.is_awaiting_break_end() {
        LABEL_RESUME_WORK
    } else if timer.is_running() {
        LABEL_PAUSE
    } else {
        LABEL_START
    }
}

/// The label of the start/pause entry of a menu built from scratch.
pub fn menu_start_label(running: bool) -> (s: &'static str)
    ensures
        s@ == (if running {
            LABEL_PAUSE@
        } else {
            LABEL_START@
        }),
{
    if running {
        LABEL_PAUSE
    } else {
        LABEL_START
    }
}

/// The time left at `now`, zero where there is none.
pub open spec fn remaining_or_zero(st: TimerState, now: u128) -> u128 {
    match remaining_spec(st, now) {
        Some(r) => r,
        None => 0,
    }
}

/// The text beside the tray icon: ready when a break waits for its
/// confirmation, a tomato or a cup with the time left during a session,
/// nothing when idle.
pub open spec fn tray_label_of(st: TimerState, now: u128) -> Seq<char> {
    if st is AwaitingBreakEnd {
        "✅ Prêt"@
    } else {
        match phase_of(st) {
            Some(phase) => (if phase == Phase::Work {
                "🍅"@
            } else {
                "☕"@
            }) + " "@ + mmss(remaining_or_zero(st, now)),
            None => Seq::empty(),
        }
    }
}

/// The tooltip, and the status line at the top of the menu.
pub open spec fn tooltip_of(st: TimerState, now: u128) -> Seq<char> {
    if st is AwaitingBreakEnd {
        "Pause terminée — cliquez sur \"Reprendre le travail\""@
    } else {
        match phase_of(st) {
            Some(phase) => phase_label(phase) + " — "@ + mmss(remaining_or_zero(st, now)),
            None => "Pomodorust — Prêt"@,
        }
    }
}

fn remaining_ms(timer: &Timer, now: u128) -> (r: u128)
    ensures
        r == remaining_or_zero(timer@, now),
{
    match timer.remaining_at(now) {
        Some(r) => r,
        None => 0,
    }
}

pub fn tray_label_text_at(timer: &Timer, now: u128) -> (s: String)
    ensures
        s@ == tray_label_of(timer@, now),
{
    if timer.is_awaiting_break_end() {
        return String::from_str("✅ Prêt");
    }
    match timer.current_phase() {
        Some(phase) => {
            let emoji = match phase {
                Phase::Work => "🍅",
                Phase::ShortBreak | Phase::LongBreak => "☕",
            };
            let mut out = String::from_str(emoji);
            out.append(" ");
            let t = format_mmss(remaining_ms(timer, now));
            out.append(t.as_str());
            out
        },
        None => String::new(),
    }
}

/// The text beside the tray icon, now.
pub fn tray_label_text(timer: &Timer) -> (s: String)
    ensures
        exists|t: u128| s@ == #[trigger] tray_label_of(timer@, t),
{
    let now: u128 = timer.now();
    tray_label_text_at(timer, now)
}

pub fn tooltip_text_at(timer: &Timer, now: u128) -> (s: String)
    ensures
        s@ == tooltip_of(timer@, now),
{
    if timer.is_awaiting_break_end() {
        return String::from_str("Pause terminée — cliquez sur \"Reprendre le travail\"");
    }
    match timer.current_phase() {
        Some(phase) => {
            let mut out = String::from_str(phase.label());
            out.append(" — ");
            let t = format_mmss(remaining_ms(timer, now));
            out.append(t.as_str());
            out
        },
        None => String::from_str("Pomodorust — Prêt"),
    }
}

/// The tooltip, now.
pub fn tooltip_text(timer: &Timer) -> (s: String)
    ensures
        exists|t: u128| s@ == #[trigger] tooltip_of(timer@, t),
{
    let now: u128 = timer.now();
    tooltip_text_at(timer, now)
}

/// What the break toast has to show.
#[derive(Debug, Clone, PartialEq, Eq)]
pub enum BreakStatus {
    /// No break under way: no toast.
    NoBreak,
    /// A break runs (not paused), with the time left as `mm:ss`.
    Running(Phase, String),
    /// A break is over and waits for its confirmation.
    AwaitingConfirmation(Phase),
}

/// `b` is the toast's status for a timer state at `now`: waiting for a
/// confirmation after a break, a running break with its time left, or
/// nothing (work, paused, idle).
pub open spec fn is_break_status_of(b: BreakStatus, st: TimerState, now: u128) -> bool {
    match st {
        TimerState::AwaitingBreakEnd { session } => b == BreakStatus::AwaitingConfirmation(
            session.phase,
        ),
        TimerState::Running { session, .. } => if session.phase.is_break() {
            b matches BreakStatus::Running(p, text) && p == session.phase && text@ == mmss(
                remaining_or_zero(st, now),
            )
        } else {
            b == BreakStatus::NoBreak
        },
        _ => b == BreakStatus::NoBreak,
    }
}

pub fn break_status_at(timer: &Timer, now: u128) -> (b: BreakStatus)
    ensures
        is_break_status_of(b, timer@, now),
{
    if timer.is_awaiting_break_end() {
        if let Some(phase) = timer.current_phase() {
            return BreakStatus::AwaitingConfirmation(phase);
        }
    }
    if timer.is_running() {
        if let Some(phase) = timer.current_phase() {
            if matches!(phase, Phase::ShortBreak | Phase::LongBreak) {
                return BreakStatus::Running(phase, format_mmss(remaining_ms(timer, now)));
            }
        }
    }
    BreakStatus::NoBreak
}

/// The toast's status, now.
pub fn break_status(timer: &Timer) -> (b: BreakStatus)
    ensures
        exists|t: u128| #[trigger] is_break_status_of(b, timer@, t),
{
    let now: u128 = timer.now();
    break_status_at(timer, now)
}

/// What to tell the user when a phase has just changed: the headline and
/// the hint of the next step (shown in the toast), the notification's text,
/// whether to show the short toast (only when work starts again: a break
/// has its own toast), and whether the sound rises (towards work).
pub struct PhaseChangeNotice {
    pub headline: &'static str,
    pub next_hint: &'static str,
    pub message: String,
    pub show_toast: bool,
    pub rising_sound: bool,
}

pub open spec fn headline_of(finished: Phase) -> Seq<char> {
    if finished == Phase::Work {
        "Session terminée — pause bien méritée !"@
    } else {
        "Pause terminée — au travail !"@
    }
}

pub open spec fn next_hint_of(next: Phase) -> Seq<char> {
    match next {
        Phase::Work => "Prochaine étape : Travail"@,
        Phase::ShortBreak => "Prochaine étape : Pause courte"@,
        Phase::LongBreak => "Prochaine étape : Pause longue"@,
    }
}

pub fn phase_change_notice(completed: &PhaseCompleted) -> (n: PhaseChangeNotice)
    ensures
        n.headline@ == headline_of(completed.finished_phase),
        n.next_hint@ == next_hint_of(completed.next_phase),
        n.message@ == headline_of(completed.finished_phase) + "\n"@ + next_hint_of(
            completed.next_phase,
        ),
        n.show_toast == (completed.next_phase == Phase::Work),
        n.rising_sound == (completed.next_phase == Phase::Work),
{
    let headline = match completed.finished_phase {
        Phase::Work => "Session terminée — pause bien méritée !",
        Phase::ShortBreak | Phase::LongBreak => "Pause terminée — au travail !",
    };
    let next_hint = match completed.next_phase {
        Phase::Work => "Prochaine étape : Travail",
        Phase::ShortBreak => "Prochaine étape : Pause courte",
        Phase::LongBreak => "Prochaine étape : Pause longue",
    };
    let mut message = String::from_str(headline);
    message.append("\n");
    message.append(next_hint);
    let to_work = completed.next_phase == Phase::Work;
    PhaseChangeNotice { headline, next_hint, message, show_toast: to_work, rising_sound: to_work }
}

/// The notification's text when a break is over and waits for a
/// confirmation (its sound always rises).
pub fn break_ended_message(phase: Phase) -> (s: String)
    ensures
        s@ == phase_label(phase)
            + " terminée — cliquez sur \"Reprendre le travail\" quand vous êtes prêt."@,
{
    let mut s = String::from_str(phase.label());
    s.append(" terminée — cliquez sur \"Reprendre le travail\" quand vous êtes prêt.");
    s
}

/// What the tray shows follows the timer: nothing beside the icon and
/// "ready" in the tooltip at rest; "ready" beside the icon when a break
/// waits for its confirmation; otherwise a tomato during work and a cup
/// during a break, with the time left, and the phase's name with the time
/// left in the tooltip. The start/pause entry pauses a running session,
/// confirms a finished break, and starts otherwise.
pub proof fn lemma_tray_texts_follow_timer(st: TimerState, now: u128)
    ensures
        st is Idle ==> tray_label_of(st, now).len() == 0 && tooltip_of(st, now)
            == "Pomodorust — Prêt"@,
        st is AwaitingBreakEnd ==> tray_label_of(st, now) == "✅ Prêt"@,
        (st is Running || st is Paused) && phase_of(st) == Some(Phase::Work) ==> tray_label_of(
            st,
            now,
        ) == "🍅"@ + " "@ + mmss(remaining_or_zero(st, now)),
        (st is Running || st is Paused) && phase_of(st) != Some(Phase::Work) ==> tray_label_of(
            st,
            now,
        ) == "☕"@ + " "@ + mmss(remaining_or_zero(st, now)),
        (st is Running || st is Paused) ==> tooltip_of(st, now) == phase_label(phase_of(st)->0)
            + " — "@ + mmss(remaining_or_zero(st, now)),
        st is Running ==> start_pause_text(st) == LABEL_PAUSE@,
        st is AwaitingBreakEnd ==> start_pause_text(st) == LABEL_RESUME_WORK@,
        (st is Idle || st is Paused) ==> start_pause_text(st) == LABEL_START@,
{
}

/// The break toast's status follows the timer: a running break shows its
/// countdown, a finished break asks for a confirmation, and nothing else (a
/// work session, a paused session, rest) shows the toast.
pub proof fn lemma_break_status_follows_timer(b: BreakStatus, st: TimerState, now: u128)
    requires
        is_break_status_of(b, st, now),
    ensures
        st matches TimerState::AwaitingBreakEnd { session } ==> b == BreakStatus::AwaitingConfirmation(
            session.phase,
        ),
        st matches TimerState::Running { session, .. } ==> (session.phase != Phase::Work ==> (
        b matches BreakStatus::Running(ph, text) && ph == session.phase && text@ == mmss(
            remaining_or_zero(st, now),
        ))),
        (st is Idle || st is Paused || (st is Running && phase_of(st) == Some(Phase::Work))) ==> b
            == BreakStatus::NoBreak,
{
}

} // verus!
