//! Properties of the timer that span several operations or every moment.
use crate::config::Preset;
use crate::timer::{
    elapsed, first_session, reachable_inv, next_phase, next_session, pause_spec, phase_of,
    remaining_spec, resolve_break_spec, skip_spec, start_spec, tick_spec, toggle_spec, Phase,
    PhaseCompleted, SessionHandle, TickEvent, TimerState,
};
use vstd::prelude::*;

verus! {

/// A work session followed by its break.
pub open spec fn round(s: SessionHandle, p: Preset) -> SessionHandle {
    next_session(next_session(s, p), p)
}

/// The work session reached from a fresh start after `k` rounds of work and
/// break.
pub open spec fn after_rounds(p: Preset, k: nat) -> SessionHandle
    decreases k,
{
    if k == 0 {
        first_session(p)
    } else {
        round(after_rounds(p, (k - 1) as nat), p)
    }
}

/// The long break comes after every `cycles_before_long_break`-th work
/// session (after every work session when that number is 0 or 1), and the
/// cycle then starts over: for `n` the number of work sessions per cycle and
/// any `k < n`, the work session reached after `k` rounds has counted `k`
/// sessions, it is followed by a long break exactly when it is the `n`-th,
/// and after `n` rounds the timer is back at a fresh work session.
pub proof fn lemma_long_break_cadence(p: Preset, k: nat)
    requires
        k < (if p.cycles_before_long_break == 0 { 1 } else { p.cycles_before_long_break }),
    ensures
        after_rounds(p, k) == (SessionHandle {
            phase: Phase::Work,
            duration: (p.work_min as int * 60_000_000_000) as u128,
            cycle_count: k as u32,
        }),
        next_phase(after_rounds(p, k), p) == (if k + 1 >= p.cycles_before_long_break {
            Phase::LongBreak
        } else {
            Phase::ShortBreak
        }),
        k + 1 >= p.cycles_before_long_break ==> after_rounds(p, k + 1) == first_session(p),
    decreases k,
{
    if k > 0 {
        lemma_long_break_cadence(p, (k - 1) as nat);
    }
}

/// The number of work sessions in a cycle: `cycles_before_long_break`,
/// where 0 counts as 1.
pub open spec fn sessions_per_cycle(p: Preset) -> nat {
    if p.cycles_before_long_break == 0 {
        1
    } else {
        p.cycles_before_long_break as nat
    }
}

/// The cycle repeats: `n` rounds after any point, the timer is back at the
/// same work session.
pub proof fn lemma_rounds_repeat(p: Preset, j: nat)
    ensures
        after_rounds(p, sessions_per_cycle(p) + j) == after_rounds(p, j),
    decreases j,
{
    let n = sessions_per_cycle(p);
    if j == 0 {
        lemma_long_break_cadence(p, (n - 1) as nat);
        assert(after_rounds(p, n) == after_rounds(p, ((n - 1) + 1) as nat));
    } else {
        lemma_rounds_repeat(p, (j - 1) as nat);
        assert(after_rounds(p, n + j) == round(after_rounds(p, (n + j - 1) as nat), p));
        assert((n + j - 1) as nat == n + (j - 1) as nat);
    }
}

/// From a fresh start, whatever the number `k` of rounds of work and break
/// already done, the work session under way has counted `k % n` sessions
/// (`n` = `sessions_per_cycle`), and the break after it is a long one exactly
/// when it is a multiple of `n`-th work session ended.
pub proof fn lemma_long_break_every_nth(p: Preset, k: nat)
    ensures
        after_rounds(p, k) == (SessionHandle {
            phase: Phase::Work,
            duration: (p.work_min as int * 60_000_000_000) as u128,
            cycle_count: (k % sessions_per_cycle(p)) as u32,
        }),
        next_phase(after_rounds(p, k), p) == (if ((k + 1) as int) % (sessions_per_cycle(p) as int) == 0 {
            Phase::LongBreak
        } else {
            Phase::ShortBreak
        }),
    decreases k,
{
    let n = sessions_per_cycle(p);
    if k < n {
        lemma_long_break_cadence(p, k);
        assert(k % n == k) by (nonlinear_arith)
            requires
                k < n,
        ;
        if k + 1 < n {
            assert(((k + 1) as int) % (n as int) == k + 1) by (nonlinear_arith)
                requires
                    k + 1 < n,
            ;
        } else {
            assert(((k + 1) as int) % (n as int) == 0) by (nonlinear_arith)
                requires
                    k + 1 == n,
                    n > 0,
            ;
        }
    } else {
        let j = (k - n) as nat;
        lemma_rounds_repeat(p, j);
        assert(n + j == k);
        lemma_long_break_every_nth(p, j);
        vstd::arithmetic::div_mod::lemma_mod_add_multiples_vanish(j as int, n as int);
        vstd::arithmetic::div_mod::lemma_mod_add_multiples_vanish((j + 1) as int, n as int);
        assert(n + j + 1 == k + 1);
    }
}

/// A break whose time is up never turns into work by itself: the tick either
/// leaves the timer as it is or makes it wait for a confirmation, and it then
/// reports the end of the break.
pub proof fn lemma_break_waits_for_confirmation(
    session: SessionHandle,
    started_at: u128,
    p: Preset,
    now: u128,
)
    requires
        session.phase.is_break(),
    ensures
        ({
            let st = TimerState::Running { session, started_at };
            let (next, ev) = tick_spec(st, p, now);
            ||| next == st && ev is None
            ||| next == (TimerState::AwaitingBreakEnd { session }) && ev == Some(
                TickEvent::BreakEnded { phase: session.phase },
            )
        }),
{
}

/// A work session whose time is up moves on to a break at once, which starts
/// at that moment with its full duration.
pub proof fn lemma_work_moves_on_to_break(
    session: SessionHandle,
    started_at: u128,
    p: Preset,
    now: u128,
)
    requires
        session.phase == Phase::Work,
        elapsed(started_at, now) >= session.duration,
    ensures
        ({
            let (next, ev) = tick_spec(TimerState::Running { session, started_at }, p, now);
            &&& next matches TimerState::Running { session: s2, started_at: t2 }
            &&& s2.phase.is_break()
            &&& t2 == now
            &&& remaining_spec(next, now) == Some(s2.duration)
            &&& s2.phase == Phase::ShortBreak ==> s2.duration == p.short_break_min as int * 60_000_000_000
            &&& s2.phase == Phase::LongBreak ==> s2.duration == p.long_break_min as int * 60_000_000_000
            &&& ev == Some(
                TickEvent::Advanced(PhaseCompleted { finished_phase: Phase::Work, next_phase: s2.phase }),
            )
        }),
{
}

/// Pausing and resuming later loses no time: after a pause at `t1` and a
/// start at `t2 >= t1`, the same session runs with the time it had left at
/// `t1`, and the paused timer shows that time meanwhile.
pub proof fn lemma_pause_resume_keeps_remaining(
    session: SessionHandle,
    started_at: u128,
    p: Preset,
    t1: u128,
    t2: u128,
)
    requires
        t1 <= t2,
    ensures
        ({
            let st = TimerState::Running { session, started_at };
            let paused = pause_spec(st, t1);
            let resumed = start_spec(paused, p, t2);
            &&& remaining_spec(paused, t2) == remaining_spec(st, t1)
            &&& resumed matches TimerState::Running { session: s2, .. }
            &&& s2 == session
            &&& remaining_spec(resumed, t2) == remaining_spec(st, t1)
        }),
{
}

/// The time left never exceeds the session's duration, and it never grows
/// as time passes (it stays put while paused or waiting).
pub proof fn lemma_remaining_never_grows(st: TimerState, t1: u128, t2: u128)
    requires
        t1 <= t2,
    ensures
        remaining_spec(st, t1) is Some <==> remaining_spec(st, t2) is Some,
        remaining_spec(st, t2) is Some ==> remaining_spec(st, t2)->0 <= remaining_spec(st, t1)->0,
        st matches TimerState::Running { session, .. } ==> remaining_spec(st, t1)->0
            <= session.duration,
{
}

/// The break toast's action never touches a work session.
pub proof fn lemma_resolve_break_ignores_work(st: TimerState, p: Preset, now: u128)
    requires
        phase_of(st) == Some(Phase::Work),
        reachable_inv(st),
    ensures
        resolve_break_spec(st, p, now) == (st, None::<PhaseCompleted>),
{
}

/// A new timer satisfies the invariant of reachable states, and every
/// operation keeps it.
pub proof fn lemma_reachable_inv_kept(st: TimerState, p: Preset, now: u128)
    requires
        reachable_inv(st),
    ensures
        reachable_inv(TimerState::Idle),
        reachable_inv(start_spec(st, p, now)),
        reachable_inv(pause_spec(st, now)),
        reachable_inv(toggle_spec(st, p, now).0),
        reachable_inv(skip_spec(st, p, now).0),
        reachable_inv(resolve_break_spec(st, p, now).0),
        reachable_inv(tick_spec(st, p, now).0),
{
}

/// Confirming a finished break, from the menu or from the toast, always
/// starts a work session with its full duration.
pub proof fn lemma_confirming_starts_work(st: TimerState, p: Preset, now: u128)
    requires
        reachable_inv(st),
        st is AwaitingBreakEnd,
    ensures
        toggle_spec(st, p, now) == resolve_break_spec(st, p, now),
        toggle_spec(st, p, now).0 matches TimerState::Running { session, started_at }
            && session.phase == Phase::Work && started_at == now && session.duration
            == p.work_min as int * 60_000_000_000,
        toggle_spec(st, p, now).1 matches Some(c) && c.next_phase == Phase::Work,
{
}

/// The session under way in a state other than Idle.
pub open spec fn session_of(st: TimerState) -> SessionHandle
    recommends
        !(st is Idle),
{
    match st {
        TimerState::Running { session, .. } => session,
        TimerState::Paused { session, .. } => session,
        TimerState::AwaitingBreakEnd { session } => session,
        TimerState::Idle => arbitrary(),
    }
}

/// Moving on from session `s` at `now` gave state `t` and report `c`
/// exactly as a Pomodoro cycle does: the report names the phase that ended
/// and the one that follows; the next session runs from `now` for the
/// preset's minutes of its own phase; after a break comes work (the count of
/// work sessions kept), after work a short break, or a long break (the count
/// starting over) once `cycles_before_long_break` work sessions are done.
pub open spec fn moved_on(s: SessionHandle, p: Preset, now: u128, t: TimerState, c: PhaseCompleted) -> bool {
    &&& c.finished_phase == s.phase
    &&& t matches TimerState::Running { session: n, started_at }
    &&& started_at == now
    &&& n.phase == c.next_phase
    &&& (n.phase == Phase::Work ==> n.duration == p.work_min as int * 60_000_000_000)
    &&& (n.phase == Phase::ShortBreak ==> n.duration == p.short_break_min as int * 60_000_000_000)
    &&& (n.phase == Phase::LongBreak ==> n.duration == p.long_break_min as int * 60_000_000_000)
    &&& (s.phase != Phase::Work ==> n.phase == Phase::Work && n.cycle_count == s.cycle_count)
    &&& (s.phase == Phase::Work && s.cycle_count + 1 >= p.cycles_before_long_break ==> n.phase
        == Phase::LongBreak && n.cycle_count == 0)
    &&& (s.phase == Phase::Work && s.cycle_count + 1 < p.cycles_before_long_break ==> n.phase
        == Phase::ShortBreak && n.cycle_count == s.cycle_count + 1)
}

/// Skipping moves on from every state but Idle (a running, paused or
/// finished session alike), and does nothing when Idle.
pub proof fn lemma_skip_moves_on(st: TimerState, p: Preset, now: u128)
    ensures
        st is Idle ==> skip_spec(st, p, now) == (st, None::<PhaseCompleted>),
        !(st is Idle) ==> (skip_spec(st, p, now).1 matches Some(c) && moved_on(
            session_of(st),
            p,
            now,
            skip_spec(st, p, now).0,
            c,
        )),
{
}

/// A tick never ends a running session before its own duration has
/// elapsed. Once it has, a work session moves on to its break at once and a
/// break waits for a confirmation. A timer that is not running is left as
/// it is.
pub proof fn lemma_tick_respects_duration(st: TimerState, p: Preset, now: u128)
    ensures
        !(st is Running) ==> tick_spec(st, p, now) == (st, None::<TickEvent>),
        st matches TimerState::Running { session, started_at } ==> {
            let gone: int = if now >= started_at {
                now - started_at
            } else {
                0
            };
            let (t, e) = tick_spec(st, p, now);
            &&& gone < session.duration ==> t == st && e is None
            &&& gone >= session.duration && session.phase != Phase::Work ==> t
                == (TimerState::AwaitingBreakEnd { session }) && e == Some(
                TickEvent::BreakEnded { phase: session.phase },
            )
            &&& gone >= session.duration && session.phase == Phase::Work ==> (e matches Some(
                TickEvent::Advanced(c),
            ) && moved_on(session, p, now, t, c))
        },
{
}

/// Confirming a finished break (the start/pause entry or the toast's button)
/// and ending a break under way from the toast both move on, to work; the
/// toast's button does nothing in any other state.
pub proof fn lemma_breaks_end_into_work(st: TimerState, p: Preset, now: u128)
    requires
        reachable_inv(st),
    ensures
        st is AwaitingBreakEnd ==> (toggle_spec(st, p, now).1 matches Some(c) && moved_on(
            session_of(st),
            p,
            now,
            toggle_spec(st, p, now).0,
            c,
        ) && c.next_phase == Phase::Work),
        (st is AwaitingBreakEnd || (!(st is Idle) && session_of(st).phase != Phase::Work)) ==> (
        resolve_break_spec(st, p, now).1 matches Some(c) && moved_on(
            session_of(st),
            p,
            now,
            resolve_break_spec(st, p, now).0,
            c,
        ) && c.next_phase == Phase::Work),
        (st is Idle || session_of(st).phase == Phase::Work) ==> resolve_break_spec(st, p, now) == (
        st,
        None::<PhaseCompleted>,
        ),
{
}

/// Starting from rest runs a fresh work session of the preset's work
/// minutes from `now`; starting a paused session resumes that same session
/// with the time it had left (where `now` leaves room for it); starting
/// changes nothing in any other state.
pub proof fn lemma_start_behaviour(st: TimerState, p: Preset, now: u128)
    ensures
        st is Idle ==> start_spec(st, p, now) == (TimerState::Running {
            session: SessionHandle {
                phase: Phase::Work,
                duration: (p.work_min as int * 60_000_000_000) as u128,
                cycle_count: 0,
            },
            started_at: now,
        }),
        st matches TimerState::Paused { session, remaining } ==> {
            &&& start_spec(st, p, now) matches TimerState::Running { session: s2, .. }
            &&& s2 == session
            &&& (remaining <= session.duration && remaining + now >= session.duration)
                ==> remaining_spec(start_spec(st, p, now), now) == Some(remaining)
        },
        (st is Running || st is AwaitingBreakEnd) ==> start_spec(st, p, now) == st,
{
}

/// Pausing freezes a running session with the time it has left at `now`
/// (its duration less the time gone, never below zero), and changes nothing
/// in any other state.
pub proof fn lemma_pause_behaviour(st: TimerState, now: u128)
    ensures
        st matches TimerState::Running { session, started_at } ==> {
            let gone: int = if now >= started_at {
                now - started_at
            } else {
                0
            };
            pause_spec(st, now) == (TimerState::Paused {
                session,
                remaining: (if gone >= session.duration {
                    0
                } else {
                    session.duration - gone
                }) as u128,
            })
        },
        !(st is Running) ==> pause_spec(st, now) == st,
{
}

/// The time left: none at rest, zero when a break waits for its
/// confirmation, frozen while paused, and the duration less the time gone
/// (never below zero) while running.
pub proof fn lemma_remaining_behaviour(st: TimerState, now: u128)
    ensures
        st is Idle ==> remaining_spec(st, now) is None,
        st is AwaitingBreakEnd ==> remaining_spec(st, now) == Some(0u128),
        st matches TimerState::Paused { remaining, .. } ==> remaining_spec(st, now) == Some(remaining),
        st matches TimerState::Running { session, started_at } ==> {
            let gone: int = if now >= started_at {
                now - started_at
            } else {
                0
            };
            remaining_spec(st, now) == Some(
                (if gone >= session.duration {
                    0
                } else {
                    session.duration - gone
                }) as u128,
            )
        },
{
}

} // verus!
