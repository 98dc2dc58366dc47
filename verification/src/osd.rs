//! The decisions of the break toast, a small window shown at changes of
//! phase, in three modes: a short message that closes by itself (work starts
//! again), a running break (with its countdown and buttons to hide it or to
//! skip the break), and a finished break that waits for the user's
//! confirmation. The window itself lives in the application; this module
//! says what to do with it.
use crate::display::BreakStatus;
use crate::timer::{phase_label, Phase};
use vstd::prelude::*;

verus! {

#[derive(Debug, Clone, Copy, PartialEq, Eq, Structural)]
pub enum OsdMode {
    Hidden,
    Ephemeral,
    BreakRunning(Phase),
    BreakEnded(Phase),
}

/// How the toast's detail line looks.
#[derive(Debug, Clone, Copy, PartialEq, Eq, Structural)]
pub enum DetailStyle {
    Subtitle,
    Countdown,
}

pub const SKIP_BREAK_LABEL: &'static str = "⏭ Passer la pause";

pub const RESUME_WORK_LABEL: &'static str = "▶ Reprendre le travail";

pub const BREAK_OVER_TITLE: &'static str = "Pause terminée !";

pub const BREAK_OVER_DETAIL: &'static str = "Prêt à reprendre le travail ?";

/// The toast's state: its mode, whether the user hid it in this mode (it is
/// then not shown again until the mode really changes), and the number of
/// the latest short message (so that only the latest one closes the toast).
#[derive(Debug, Clone, Copy, PartialEq, Eq, Structural)]
pub struct OsdState {
    pub mode: OsdMode,
    pub dismissed: bool,
    pub generation: u64,
}

/// What to do to the window. Each `Some` is a change to make, in this
/// order: title, detail text, detail style, action button's label; then show
/// the window with its buttons (`show`) or hide it (`hide`).
#[derive(Debug, Clone, PartialEq, Eq)]
pub struct OsdUpdate {
    pub title: Option<String>,
    pub detail: Option<String>,
    pub style: Option<DetailStyle>,
    pub action_label: Option<&'static str>,
    pub show: bool,
    pub hide: bool,
}

pub open spec fn no_change(u: OsdUpdate) -> bool {
    &&& u.title is None
    &&& u.detail is None
    &&& u.style is None
    &&& u.action_label is None
    &&& !u.show
    &&& !u.hide
}

/// The decision of `sync`, which brings the toast in line with the break
/// status, as a relation between the state before (`s`), the status (`b`),
/// the state after (`t`) and the changes to the window (`u`).
pub open spec fn sync_spec(s: OsdState, b: BreakStatus, t: OsdState, u: OsdUpdate) -> bool {
    if s.mode == OsdMode::Ephemeral {
        // A short message runs its course and closes by itself.
        t == s && no_change(u)
    } else {
        match b {
            BreakStatus::Running(phase, text) => {
                let target = OsdMode::BreakRunning(phase);
                let entering = s.mode != target;
                &&& t.mode == target
                &&& t.generation == s.generation
                &&& t.dismissed == (!entering && s.dismissed)
                &&& (entering ==> (u.title matches Some(x) && x@ == phase_label(phase)))
                &&& (!entering ==> u.title is None)
                &&& u.detail matches Some(d) && d@ == text@
                &&& u.style == (if entering {
                    Some(DetailStyle::Countdown)
                } else {
                    None
                })
                &&& (entering ==> (u.action_label matches Some(l) && l@ == SKIP_BREAK_LABEL@))
                &&& (!entering ==> u.action_label is None)
                &&& u.show == !t.dismissed
                &&& !u.hide
            },
            BreakStatus::AwaitingConfirmation(phase) => {
                let target = OsdMode::BreakEnded(phase);
                if s.mode != target {
                    &&& t == OsdState { mode: target, dismissed: false, generation: s.generation }
                    &&& u.title matches Some(x) && x@ == BREAK_OVER_TITLE@
                    &&& u.detail matches Some(d) && d@ == BREAK_OVER_DETAIL@
                    &&& u.style == Some(DetailStyle::Subtitle)
                    &&& u.action_label matches Some(l) && l@ == RESUME_WORK_LABEL@
                    &&& u.show
                    &&& !u.hide
                } else {
                    t == s && no_change(u)
                }
            },
            BreakStatus::NoBreak => {
                if s.mode != OsdMode::Hidden {
                    &&& t == OsdState { mode: OsdMode::Hidden, dismissed: false, generation: s.generation }
                    &&& u.title is None && u.detail is None && u.style is None
                    &&& u.action_label is None
                    &&& !u.show
                    &&& u.hide
                } else {
                    t == s && no_change(u)
                }
            },
        }
    }
}

fn nothing_to_do() -> (u: OsdUpdate)
    ensures
        no_change(u),
{
    OsdUpdate { title: None, detail: None, style: None, action_label: None, show: false, hide: false }
}

impl OsdState {
    /// The toast at start: hidden.
    pub fn new() -> (s: OsdState)
        ensures
            s == (OsdState { mode: OsdMode::Hidden, dismissed: false, generation: 0 }),
    {
        OsdState { mode: OsdMode::Hidden, dismissed: false, generation: 0 }
    }

    /// Brings the toast in line with the timer's break status; to be called
    /// after every tick and every action on the timer.
    pub fn sync(&mut self, status: &BreakStatus) -> (u: OsdUpdate)
        ensures
            sync_spec(*old(self), *status, *final(self), u),
    {
        if self.mode == OsdMode::Ephemeral {
            return nothing_to_do();
        }
        match status {
            BreakStatus::Running(phase, remaining_text) => {
                let target = OsdMode::BreakRunning(*phase);
                let mut u = nothing_to_do();
                if self.mode != target {
                    self.mode = target;
                    self.dismissed = false;
                    u.title = Some(String::from_str(phase.label()));
                    u.action_label = Some(SKIP_BREAK_LABEL);
                    u.style = Some(DetailStyle::Countdown);
                }
                u.detail = Some(remaining_text.clone());
                u.show = !self.dismissed;
                u
            },
            BreakStatus::AwaitingConfirmation(phase) => {
                let target = OsdMode::BreakEnded(*phase);
                let mut u = nothing_to_do();
                if self.mode != target {
                    self.mode = target;
                    self.dismissed = false;
                    u.title = Some(String::from_str(BREAK_OVER_TITLE));
                    u.detail = Some(String::from_str(BREAK_OVER_DETAIL));
                    u.style = Some(DetailStyle::Subtitle);
                    u.action_label = Some(RESUME_WORK_LABEL);
                    u.show = !self.dismissed;
                }
                u
            },
            BreakStatus::NoBreak => {
                let mut u = nothing_to_do();
                if self.mode != OsdMode::Hidden {
                    self.mode = OsdMode::Hidden;
                    self.dismissed = false;
                    u.hide = true;
                }
                u
            },
        }
    }

    /// A short message that closes by itself: the toast switches to it and
    /// is shown without buttons; the returned number identifies it, for
    /// `ephemeral_expired`.
    pub fn begin_ephemeral(&mut self) -> (id: u64)
        requires
            old(self).generation < u64::MAX,
        ensures
            *final(self) == (OsdState {
                mode: OsdMode::Ephemeral,
                dismissed: false,
                generation: (old(self).generation + 1) as u64,
            }),
            id == final(self).generation,
    {
        self.mode = OsdMode::Ephemeral;
        self.dismissed = false;
        self.generation = self.generation + 1;
        self.generation
    }

    /// The delay of the short message `id` is over: the toast closes if no
    /// later short message replaced it. Says whether to hide the window.
    pub fn ephemeral_expired(&mut self, id: u64) -> (hide: bool)
        ensures
            hide == (old(self).generation == id),
            hide ==> *final(self) == (OsdState { mode: OsdMode::Hidden, ..*old(self) }),
            !hide ==> *final(self) == *old(self),
    {
        if self.generation == id {
            self.mode = OsdMode::Hidden;
            true
        } else {
            false
        }
    }

    /// The user hid the toast (its button, or closing the window): it stays
    /// hidden in this mode.
    pub fn dismiss(&mut self)
        ensures
            *final(self) == (OsdState { dismissed: true, ..*old(self) }),
    {
        self.dismissed = true;
    }
}

/// A toast hidden by the user does not come back while the break status
/// stays the same kind: a sync with the status of the current mode keeps it
/// hidden.
pub proof fn lemma_dismissed_stays_hidden(s: OsdState, b: BreakStatus, t: OsdState, u: OsdUpdate)
    requires
        s.dismissed,
        sync_spec(s, b, t, u),
        match b {
            BreakStatus::Running(phase, _) => s.mode == OsdMode::BreakRunning(phase),
            BreakStatus::AwaitingConfirmation(phase) => s.mode == OsdMode::BreakEnded(phase),
            BreakStatus::NoBreak => s.mode == OsdMode::Hidden,
        },
    ensures
        !u.show,
        t.dismissed,
        t.mode == s.mode,
{
}

/// A change of mode shows the toast again, even after the user hid it.
pub proof fn lemma_new_break_shows_again(s: OsdState, b: BreakStatus, t: OsdState, u: OsdUpdate)
    requires
        s.mode != OsdMode::Ephemeral,
        sync_spec(s, b, t, u),
        match b {
            BreakStatus::Running(phase, _) => s.mode != OsdMode::BreakRunning(phase),
            BreakStatus::AwaitingConfirmation(phase) => s.mode != OsdMode::BreakEnded(phase),
            BreakStatus::NoBreak => false,
        },
    ensures
        u.show,
        !t.dismissed,
{
}

/// Outside a short message, a toast with no break under way ends hidden: a
/// sync with no break hides a shown toast (and forgets that it was hidden by
/// hand), and leaves a hidden one alone.
pub proof fn lemma_no_break_hides(s: OsdState, t: OsdState, u: OsdUpdate)
    requires
        s.mode != OsdMode::Ephemeral,
        sync_spec(s, BreakStatus::NoBreak, t, u),
    ensures
        t.mode == OsdMode::Hidden,
        !u.show,
        t.generation == s.generation,
        s.mode != OsdMode::Hidden ==> u.hide && !t.dismissed,
        s.mode == OsdMode::Hidden ==> !u.hide && t == s,
{
}

/// A sync with a break under way puts the toast in that break's mode; it is
/// shown unless the user hid it in that same mode.
pub proof fn lemma_break_status_sets_mode(s: OsdState, b: BreakStatus, t: OsdState, u: OsdUpdate)
    requires
        s.mode != OsdMode::Ephemeral,
        sync_spec(s, b, t, u),
    ensures
        b matches BreakStatus::Running(phase, _) ==> t.mode == OsdMode::BreakRunning(phase) && (u.show
            <==> !(s.mode == OsdMode::BreakRunning(phase) && s.dismissed)) && !u.hide,
        b matches BreakStatus::AwaitingConfirmation(phase) ==> t.mode == OsdMode::BreakEnded(phase)
            && (u.show <==> s.mode != OsdMode::BreakEnded(phase)) && !u.hide,
{
}

} // verus!
