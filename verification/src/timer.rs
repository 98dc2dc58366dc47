//! The Pomodoro timer's state machine.
//!
//! Times are nanoseconds on the timer's own monotonic clock (counted from the
//! moment the timer was created); durations are nanoseconds too. Every
//! operation that the application calls reads the clock and hands the reading
//! to a sibling (`..._at`) that takes the time as an argument, so that the
//! decisions are stated, and proved, for every reading of the clock.
use crate::config::Preset;
use std::time::Instant;
use vstd::prelude::*;

verus! {

/// `std::time::Instant`, the reading of the monotonic clock from which a
/// timer counts its time; carried through as an opaque value.
#[verifier::external_type_specification]
#[verifier::external_body]
pub struct ExInstant(Instant);

/// Reads the monotonic clock with `std::time::Instant::now`. Nothing is
/// stated of the reading.
#[verifier::external_body]
fn instant_now() -> Instant {
    Instant::now()
}

/// Time since `origin`, read with `std::time::Instant::elapsed` and handed
/// out as whole nanoseconds (`Duration::as_nanos`, which loses nothing). The
/// reading depends on the clock: nothing is stated of it.
#[verifier::external_body]
fn elapsed_nanos(origin: &Instant) -> u128 {
    origin.elapsed().as_nanos()
}

/// The three phases of a Pomodoro cycle.
#[derive(Debug, Clone, Copy, PartialEq, Eq, Structural)]
pub enum Phase {
    Work,
    ShortBreak,
    LongBreak,
}

/// The name of a phase, as shown to the user.
pub open spec fn phase_label(p: Phase) -> Seq<char> {
    match p {
        Phase::Work => "Travail"@,
        Phase::ShortBreak => "Pause courte"@,
        Phase::LongBreak => "Pause longue"@,
    }
}

impl Phase {
    pub open spec fn is_break(self) -> bool {
        self matches Phase::ShortBreak || self matches Phase::LongBreak
    }

    pub fn label(&self) -> (s: &'static str)
        ensures
            s@ == phase_label(*self),
    {
        match self {
            Phase::Work => "Travail",
            Phase::ShortBreak => "Pause courte",
            Phase::LongBreak => "Pause longue",
        }
    }
}

/// What the timer knows of the session under way: its phase, its full
/// duration (ns) and how many work sessions were completed since the last
/// long break.
#[derive(Debug, Clone, Copy, PartialEq, Eq, Structural)]
pub struct SessionHandle {
    pub phase: Phase,
    pub duration: u128,
    pub cycle_count: u32,
}

#[derive(Debug, Clone, Copy, PartialEq, Eq, Structural)]
pub enum TimerState {
    Idle,
    Running { session: SessionHandle, started_at: u128 },
    Paused { session: SessionHandle, remaining: u128 },
    /// A break has just reached zero; the timer does not go back to work by
    /// itself but waits for an explicit confirmation from the user.
    AwaitingBreakEnd { session: SessionHandle },
}

/// The outcome of a change of phase: the phase that ended and the one that
/// follows it.
#[derive(Debug, Clone, Copy, PartialEq, Eq, Structural)]
pub struct PhaseCompleted {
    pub finished_phase: Phase,
    pub next_phase: Phase,
}

/// What a tick can report.
#[derive(Debug, Clone, Copy, PartialEq, Eq, Structural)]
pub enum TickEvent {
    /// A work session ended and the break that follows it has started.
    Advanced(PhaseCompleted),
    /// A break reached zero; the timer waits for a confirmation.
    BreakEnded { phase: Phase },
}

// ---------------------------------------------------------------------------
// The model: each operation as a function of the state, the preset and the
// time at which it happens.
// ---------------------------------------------------------------------------

/// Nanoseconds in `m` minutes.
pub open spec fn minutes_ns(m: u32) -> u128 {
    (m as int * 60_000_000_000) as u128
}

/// The duration of a phase under a preset.
pub open spec fn phase_duration(p: Preset, phase: Phase) -> u128 {
    match phase {
        Phase::Work => minutes_ns(p.work_min),
        Phase::ShortBreak => minutes_ns(p.short_break_min),
        Phase::LongBreak => minutes_ns(p.long_break_min),
    }
}

/// `a - b`, or 0 where `b > a`.
pub open spec fn sat_sub(a: u128, b: u128) -> u128 {
    if a >= b {
        (a - b) as u128
    } else {
        0
    }
}

/// Time elapsed at `now` since `started_at` (0 where `now` is earlier).
pub open spec fn elapsed(started_at: u128, now: u128) -> u128 {
    sat_sub(now, started_at)
}

/// The phase that follows a session: a work session leads to a long break
/// once `cycles_before_long_break` work sessions are done, to a short break
/// otherwise; any break leads back to work.
pub open spec fn next_phase(s: SessionHandle, p: Preset) -> Phase {
    match s.phase {
        Phase::Work => if s.cycle_count + 1 >= p.cycles_before_long_break {
            Phase::LongBreak
        } else {
            Phase::ShortBreak
        },
        _ => Phase::Work,
    }
}

/// The count of work sessions done since the last long break, after `s`.
pub open spec fn next_cycle_count(s: SessionHandle, p: Preset) -> u32 {
    match s.phase {
        Phase::Work => if s.cycle_count + 1 >= p.cycles_before_long_break {
            0
        } else {
            (s.cycle_count + 1) as u32
        },
        _ => s.cycle_count,
    }
}

/// The session that follows `s`.
pub open spec fn next_session(s: SessionHandle, p: Preset) -> SessionHandle {
    SessionHandle {
        phase: next_phase(s, p),
        duration: phase_duration(p, next_phase(s, p)),
        cycle_count: next_cycle_count(s, p),
    }
}

/// A fresh work session, the first of a cycle.
pub open spec fn first_session(p: Preset) -> SessionHandle {
    SessionHandle { phase: Phase::Work, duration: phase_duration(p, Phase::Work), cycle_count: 0 }
}

/// The state after moving on from session `s` at time `now`: the next
/// session runs from `now`.
pub open spec fn advanced(s: SessionHandle, p: Preset, now: u128) -> TimerState {
    TimerState::Running { session: next_session(s, p), started_at: now }
}

/// The report of moving on from session `s`.
pub open spec fn completion(s: SessionHandle, p: Preset) -> PhaseCompleted {
    PhaseCompleted { finished_phase: s.phase, next_phase: next_phase(s, p) }
}

/// `start`: from Idle a new work session starts; a paused session resumes
/// with the time it had left; otherwise nothing changes.
pub open spec fn start_spec(st: TimerState, p: Preset, now: u128) -> TimerState {
    match st {
        TimerState::Idle => TimerState::Running { session: first_session(p), started_at: now },
        TimerState::Paused { session, remaining } => {
            let gone: u128 = sat_sub(session.duration, remaining);
            TimerState::Running {
                session,
                started_at: if now >= gone {
                    (now - gone) as u128
                } else {
                    now
                },
            }
        },
        _ => st,
    }
}

/// `pause`: a running session freezes with the time it has left.
pub open spec fn pause_spec(st: TimerState, now: u128) -> TimerState {
    match st {
        TimerState::Running { session, started_at } => TimerState::Paused {
            session,
            remaining: sat_sub(session.duration, elapsed(started_at, now)),
        },
        _ => st,
    }
}

/// `toggle_start_pause`: pauses a running session, starts or resumes
/// otherwise, and confirms a finished break by starting the next work
/// session.
pub open spec fn toggle_spec(st: TimerState, p: Preset, now: u128) -> (TimerState, Option<
    PhaseCompleted,
>) {
    match st {
        TimerState::Running { .. } => (pause_spec(st, now), None),
        TimerState::AwaitingBreakEnd { session } => (
            advanced(session, p, now),
            Some(completion(session, p)),
        ),
        _ => (start_spec(st, p, now), None),
    }
}

/// `skip`: moves on to the next phase at once, whatever the session's state;
/// does nothing when Idle.
pub open spec fn skip_spec(st: TimerState, p: Preset, now: u128) -> (TimerState, Option<
    PhaseCompleted,
>) {
    match st {
        TimerState::Running { session, .. } => (
            advanced(session, p, now),
            Some(completion(session, p)),
        ),
        TimerState::Paused { session, .. } => (
            advanced(session, p, now),
            Some(completion(session, p)),
        ),
        TimerState::AwaitingBreakEnd { session } => (
            advanced(session, p, now),
            Some(completion(session, p)),
        ),
        TimerState::Idle => (st, None),
    }
}

/// `resolve_break`: skips a break under way (running or paused) or confirms
/// a finished one; does nothing in any other state.
pub open spec fn resolve_break_spec(st: TimerState, p: Preset, now: u128) -> (TimerState, Option<
    PhaseCompleted,
>) {
    match st {
        TimerState::Running { session, .. } => if session.phase.is_break() {
            (advanced(session, p, now), Some(completion(session, p)))
        } else {
            (st, None)
        },
        TimerState::Paused { session, .. } => if session.phase.is_break() {
            (advanced(session, p, now), Some(completion(session, p)))
        } else {
            (st, None)
        },
        TimerState::AwaitingBreakEnd { session } => (
            advanced(session, p, now),
            Some(completion(session, p)),
        ),
        TimerState::Idle => (st, None),
    }
}

/// `tick`: when a running session's time is up, a work session moves on to
/// its break at once, while a break waits for a confirmation.
pub open spec fn tick_spec(st: TimerState, p: Preset, now: u128) -> (TimerState, Option<TickEvent>) {
    match st {
        TimerState::Running { session, started_at } => if elapsed(started_at, now)
            >= session.duration {
            if session.phase.is_break() {
                (
                    TimerState::AwaitingBreakEnd { session },
                    Some(TickEvent::BreakEnded { phase: session.phase }),
                )
            } else {
                (advanced(session, p, now), Some(TickEvent::Advanced(completion(session, p))))
            }
        } else {
            (st, None)
        },
        _ => (st, None),
    }
}

/// Time left in the session under way: none when Idle, zero when a break
/// waits for its confirmation.
pub open spec fn remaining_spec(st: TimerState, now: u128) -> Option<u128> {
    match st {
        TimerState::Running { session, started_at } => Some(
            sat_sub(session.duration, elapsed(started_at, now)),
        ),
        TimerState::Paused { remaining, .. } => Some(remaining),
        TimerState::AwaitingBreakEnd { .. } => Some(0),
        TimerState::Idle => None,
    }
}

/// The phase of the session under way, if any.
pub open spec fn phase_of(st: TimerState) -> Option<Phase> {
    match st {
        TimerState::Running { session, .. } => Some(session.phase),
        TimerState::Paused { session, .. } => Some(session.phase),
        TimerState::AwaitingBreakEnd { session } => Some(session.phase),
        TimerState::Idle => None,
    }
}

/// What every state that the timer can reach satisfies: a session that waits
/// for a confirmation is a break.
pub open spec fn reachable_inv(st: TimerState) -> bool {
    st matches TimerState::AwaitingBreakEnd { session } ==> session.phase.is_break()
}

fn minutes_to_ns(m: u32) -> (r: u128)
    ensures
        r == minutes_ns(m),
{
    m as u128 * 60_000_000_000
}

fn saturating_sub(a: u128, b: u128) -> (r: u128)
    ensures
        r == sat_sub(a, b),
{
    if a >= b {
        a - b
    } else {
        0
    }
}

pub struct Timer {
    state: TimerState,
    origin: Instant,
}

impl Timer {
    /// A timer only ever waits for a confirmation after a break.
    #[verifier::type_invariant]
    spec fn inv(self) -> bool {
        reachable_inv(self.state)
    }
}

impl View for Timer {
    type V = TimerState;

    closed spec fn view(&self) -> TimerState {
        self.state
    }
}

impl Timer {
    /// A timer at rest (Idle); its clock starts now.
    pub fn new() -> (t: Timer)
        ensures
            t@ == TimerState::Idle,
    {
        Timer { state: TimerState::Idle, origin: instant_now() }
    }

    /// Nanoseconds on the timer's clock: the time since the timer was
    /// created.
    pub fn now(&self) -> u128 {
        elapsed_nanos(&self.origin)
    }

    pub fn state(&self) -> (s: &TimerState)
        ensures
            *s == self@,
            reachable_inv(*s),
    {
        proof {
            use_type_invariant(self);
        }
        &self.state
    }

    pub fn is_running(&self) -> (b: bool)
        ensures
            b == (self@ is Running),
    {
        matches!(self.state, TimerState::Running { .. })
    }

    pub fn is_idle(&self) -> (b: bool)
        ensures
            b == (self@ is Idle),
    {
        matches!(self.state, TimerState::Idle)
    }

    pub fn is_awaiting_break_end(&self) -> (b: bool)
        ensures
            b == (self@ is AwaitingBreakEnd),
    {
        matches!(self.state, TimerState::AwaitingBreakEnd { .. })
    }

    /// Stops everything: the timer goes back to Idle.
    pub fn reset(&mut self)
        ensures
            final(self)@ == TimerState::Idle,
    {
        self.state = TimerState::Idle;
    }

    pub fn current_phase(&self) -> (p: Option<Phase>)
        ensures
            p == phase_of(self@),
    {
        match self.state {
            TimerState::Running { session, .. } => Some(session.phase),
            TimerState::Paused { session, .. } => Some(session.phase),
            TimerState::AwaitingBreakEnd { session } => Some(session.phase),
            TimerState::Idle => None,
        }
    }

    /// Starts (or resumes) the timer at time `now`. From Idle, a new work
    /// session begins.
    pub fn start_at(&mut self, preset: &Preset, now: u128)
        ensures
            final(self)@ == start_spec(old(self)@, *preset, now),
    {
        match self.state {
            TimerState::Idle => {
                let session = SessionHandle {
                    phase: Phase::Work,
                    duration: minutes_to_ns(preset.work_min),
                    cycle_count: 0,
                };
                self.state = TimerState::Running { session, started_at: now };
            },
            TimerState::Paused { session, remaining } => {
                // Place `started_at` so that duration - elapsed == remaining.
                let gone: u128 = saturating_sub(session.duration, remaining);
                let started_at: u128 = if now >= gone {
                    now - gone
                } else {
                    now
                };
                self.state = TimerState::Running { session, started_at };
            },
            _ => {},
        }
    }

    /// Starts (or resumes) the timer now.
    pub fn start(&mut self, preset: &Preset)
        ensures
            exists|t: u128| final(self)@ == #[trigger] start_spec(old(self)@, *preset, t),
    {
        let now: u128 = self.now();
        self.start_at(preset, now);
    }

    /// Pauses a running session at time `now`, keeping the time it has left.
    pub fn pause_at(&mut self, now: u128)
        ensures
            final(self)@ == pause_spec(old(self)@, now),
    {
        if let TimerState::Running { session, started_at } = self.state {
            let gone: u128 = saturating_sub(now, started_at);
            let remaining: u128 = saturating_sub(session.duration, gone);
            self.state = TimerState::Paused { session, remaining };
        }
    }

    /// Pauses a running session now.
    pub fn pause(&mut self)
        ensures
            exists|t: u128| final(self)@ == #[trigger] pause_spec(old(self)@, t),
    {
        let now: u128 = self.now();
        self.pause_at(now);
    }

    /// Start/pause at time `now`; a break that waits for its confirmation is
    /// confirmed and the next work session starts.
    pub fn toggle_start_pause_at(&mut self, preset: &Preset, now: u128) -> (c: Option<PhaseCompleted>)
        ensures
            (final(self)@, c) == toggle_spec(old(self)@, *preset, now),
            old(self)@ is AwaitingBreakEnd ==> (c matches Some(x) && x.finished_phase.is_break()
                && x.next_phase == Phase::Work),
    {
        proof {
            use_type_invariant(&*self);
        }
        match self.state {
            TimerState::Running { .. } => {
                self.pause_at(now);
                None
            },
            TimerState::Idle | TimerState::Paused { .. } => {
                self.start_at(preset, now);
                None
            },
            TimerState::AwaitingBreakEnd { session } => Some(self.advance(session, preset, now)),
        }
    }

    /// Start/pause now.
    pub fn toggle_start_pause(&mut self, preset: &Preset) -> (c: Option<PhaseCompleted>)
        ensures
            exists|t: u128| (final(self)@, c) == #[trigger] toggle_spec(old(self)@, *preset, t),
            old(self)@ is AwaitingBreakEnd ==> (c matches Some(x) && x.finished_phase.is_break()
                && x.next_phase == Phase::Work),
    {
        let now: u128 = self.now();
        self.toggle_start_pause_at(preset, now)
    }

    /// Moves on to the next phase at time `now`, as if the time were up.
    pub fn skip_at(&mut self, preset: &Preset, now: u128) -> (c: Option<PhaseCompleted>)
        ensures
            (final(self)@, c) == skip_spec(old(self)@, *preset, now),
    {
        match self.state {
            TimerState::Running { session, .. }
            | TimerState::Paused { session, .. }
            | TimerState::AwaitingBreakEnd { session } => Some(self.advance(session, preset, now)),
            TimerState::Idle => None,
        }
    }

    /// Moves on to the next phase now.
    pub fn skip(&mut self, preset: &Preset) -> (c: Option<PhaseCompleted>)
        ensures
            exists|t: u128| (final(self)@, c) == #[trigger] skip_spec(old(self)@, *preset, t),
    {
        let now: u128 = self.now();
        self.skip_at(preset, now)
    }

    /// The break toast's action at time `now`: skips a break under way or
    /// confirms a finished one, and work starts; does nothing otherwise.
    pub fn resolve_break_at(&mut self, preset: &Preset, now: u128) -> (c: Option<PhaseCompleted>)
        ensures
            (final(self)@, c) == resolve_break_spec(old(self)@, *preset, now),
            phase_of(old(self)@) == Some(Phase::Work) ==> final(self)@ == old(self)@ && c is None,
    {
        proof {
            use_type_invariant(&*self);
        }
        match self.state {
            TimerState::Running { session, .. } | TimerState::Paused { session, .. } => {
                if matches!(session.phase, Phase::ShortBreak | Phase::LongBreak) {
                    Some(self.advance(session, preset, now))
                } else {
                    None
                }
            },
            TimerState::AwaitingBreakEnd { session } => Some(self.advance(session, preset, now)),
            TimerState::Idle => None,
        }
    }

    /// The break toast's action, now.
    pub fn resolve_break(&mut self, preset: &Preset) -> (c: Option<PhaseCompleted>)
        ensures
            exists|t: u128|
                (final(self)@, c) == #[trigger] resolve_break_spec(old(self)@, *preset, t),
            phase_of(old(self)@) == Some(Phase::Work) ==> final(self)@ == old(self)@ && c is None,
    {
        let now: u128 = self.now();
        self.resolve_break_at(preset, now)
    }

    /// To be called periodically, with the time `now`. A work session whose
    /// time is up moves on to its break; a break whose time is up waits for a
    /// confirmation.
    pub fn tick_at(&mut self, preset: &Preset, now: u128) -> (e: Option<TickEvent>)
        ensures
            (final(self)@, e) == tick_spec(old(self)@, *preset, now),
    {
        if let TimerState::Running { session, started_at } = self.state {
            if saturating_sub(now, started_at) >= session.duration {
                if matches!(session.phase, Phase::ShortBreak | Phase::LongBreak) {
                    self.state = TimerState::AwaitingBreakEnd { session };
                    return Some(TickEvent::BreakEnded { phase: session.phase });
                }
                return Some(TickEvent::Advanced(self.advance(session, preset, now)));
            }
        }
        None
    }

    /// To be called periodically (every 250 ms in the application).
    pub fn tick(&mut self, preset: &Preset) -> (e: Option<TickEvent>)
        ensures
            exists|t: u128| (final(self)@, e) == #[trigger] tick_spec(old(self)@, *preset, t),
    {
        let now: u128 = self.now();
        self.tick_at(preset, now)
    }

    /// Time left (ns) at time `now` in the session under way.
    pub fn remaining_at(&self, now: u128) -> (r: Option<u128>)
        ensures
            r == remaining_spec(self@, now),
    {
        match self.state {
            TimerState::Running { session, started_at } => Some(
                saturating_sub(session.duration, saturating_sub(now, started_at)),
            ),
            TimerState::Paused { remaining, .. } => Some(remaining),
            TimerState::AwaitingBreakEnd { .. } => Some(0),
            TimerState::Idle => None,
        }
    }

    /// Time left (ns) now: `None` when Idle, zero when a break waits for its
    /// confirmation.
    pub fn remaining(&self) -> (r: Option<u128>)
        ensures
            exists|t: u128| r == #[trigger] remaining_spec(self@, t),
    {
        let now: u128 = self.now();
        self.remaining_at(now)
    }

    fn advance(&mut self, session: SessionHandle, preset: &Preset, now: u128) -> (c: PhaseCompleted)
        ensures
            final(self)@ == advanced(session, *preset, now),
            c == completion(session, *preset),
    {
        let finished_phase = session.phase;
        let (next, cycle_count) = match session.phase {
            Phase::Work => {
                if preset.cycles_before_long_break == 0 || session.cycle_count
                    >= preset.cycles_before_long_break - 1 {
                    (Phase::LongBreak, 0)
                } else {
                    (Phase::ShortBreak, session.cycle_count + 1)
                }
            },
            Phase::ShortBreak | Phase::LongBreak => (Phase::Work, session.cycle_count),
        };
        let duration_min: u32 = match next {
            Phase::Work => preset.work_min,
            Phase::ShortBreak => preset.short_break_min,
            Phase::LongBreak => preset.long_break_min,
        };
        let next_session = SessionHandle {
            phase: next,
            duration: minutes_to_ns(duration_min),
            cycle_count,
        };
        self.state = TimerState::Running { session: next_session, started_at: now };
        PhaseCompleted { finished_phase, next_phase: next }
    }
}

} // verus!
