//! The input lines and the debounce gate they share.
//!
//! Three active-low lines are polled: left, right and rotate. One timestamp,
//! that of the last accepted action, gates all three: after an action is
//! accepted, no line is listened to until the debounce window has passed.

use vstd::prelude::*;

verus! {

/// The shorter of the two debounce windows in use, in milliseconds.
pub const DEBOUNCE_SHORT_MS: u64 = 100;

/// The longer of the two debounce windows in use, in milliseconds.
pub const DEBOUNCE_LONG_MS: u64 = 250;

/// What a button asks of the game.
#[derive(Clone, Copy, Debug, PartialEq, Eq, Structural)]
pub enum Action {
    MoveLeft,
    MoveRight,
    Rotate,
}

/// The levels read from the three lines in one poll. A line is low while its
/// button is held.
#[derive(Clone, Copy, Debug, PartialEq, Eq, Structural)]
pub struct Lines {
    pub left_low: bool,
    pub right_low: bool,
    pub rotate_low: bool,
}

/// Milliseconds from `since` to `now`; zero if the clock reads earlier than
/// `since`.
pub open spec fn elapsed(since: nat, now: nat) -> nat {
    if now >= since {
        (now - since) as nat
    } else {
        0
    }
}

/// The action that the lines ask for: that of the first low line in the
/// order left, right, rotate.
pub open spec fn requested(lines: Lines) -> Option<Action> {
    if lines.left_low {
        Some(Action::MoveLeft)
    } else if lines.right_low {
        Some(Action::MoveRight)
    } else if lines.rotate_low {
        Some(Action::Rotate)
    } else {
        None
    }
}

/// The mathematical content of the debounce gate.
pub struct Gate {
    pub window_ms: nat,
    pub last_accepted_ms: nat,
}

impl Gate {
    /// An action can pass at `now`: more than the window has gone by since
    /// the last accepted action.
    pub open spec fn open_at(self, now: nat) -> bool {
        elapsed(self.last_accepted_ms, now) > self.window_ms
    }

    /// The action accepted by a poll at `now`, if any.
    pub open spec fn accepted(self, now: nat, lines: Lines) -> Option<Action> {
        if self.open_at(now) {
            requested(lines)
        } else {
            None
        }
    }

    /// What a poll at `now` leaves: an accepted action restarts the window at
    /// `now`, for every line.
    pub open spec fn polled(self, now: nat, lines: Lines) -> Gate {
        if self.accepted(now, lines) is Some {
            Gate { window_ms: self.window_ms, last_accepted_ms: now }
        } else {
            self
        }
    }
}

/// Milliseconds from `since_ms` to `now_ms`; zero if the clock reads earlier.
pub fn elapsed_ms(since_ms: u64, now_ms: u64) -> (ms: u64)
    ensures
        ms == elapsed(since_ms as nat, now_ms as nat),
{
    if now_ms >= since_ms {
        now_ms - since_ms
    } else {
        0
    }
}

/// The debounce gate shared by the three lines.
#[derive(Clone, Copy, Debug, PartialEq, Eq)]
pub struct Debouncer {
    window_ms: u64,
    last_accepted_ms: u64,
}

impl View for Debouncer {
    type V = Gate;

    closed spec fn view(&self) -> Gate {
        Gate { window_ms: self.window_ms as nat, last_accepted_ms: self.last_accepted_ms as nat }
    }
}

impl Debouncer {
    /// A gate with the given window, counting from `now_ms`.
    pub fn new(window_ms: u64, now_ms: u64) -> (gate: Debouncer)
        ensures
            gate@ == (Gate { window_ms: window_ms as nat, last_accepted_ms: now_ms as nat }),
    {
        Debouncer { window_ms, last_accepted_ms: now_ms }
    }

    /// The debounce window, in milliseconds.
    pub fn window_ms(&self) -> (ms: u64)
        ensures
            ms == self@.window_ms,
    {
        self.window_ms
    }

    /// When the last action was accepted.
    pub fn last_accepted_ms(&self) -> (ms: u64)
        ensures
            ms == self@.last_accepted_ms,
    {
        self.last_accepted_ms
    }

    /// Whether a low level on `line_low`, seen at `now_ms`, is accepted as an
    /// action. Acceptance restarts the window.
    fn accept(&mut self, line_low: bool, now_ms: u64) -> (accepted: bool)
        ensures
            accepted == (line_low && old(self)@.open_at(now_ms as nat)),
            final(self)@ == if accepted {
                Gate { window_ms: old(self)@.window_ms, last_accepted_ms: now_ms as nat }
            } else {
                old(self)@
            },
    {
        if line_low && elapsed_ms(self.last_accepted_ms, now_ms) > self.window_ms {
            self.last_accepted_ms = now_ms;
            true
        } else {
            false
        }
    }

    /// Polls the three lines at `now_ms` and returns the one action that is
    /// accepted, if any.
    pub fn poll(&mut self, now_ms: u64, lines: Lines) -> (action: Option<Action>)
        ensures
            action == old(self)@.accepted(now_ms as nat, lines),
            final(self)@ == old(self)@.polled(now_ms as nat, lines),
    {
        let mut action: Option<Action> = None;
        if self.accept(lines.left_low, now_ms) {
            action = Some(Action::MoveLeft);
        }
        if self.accept(lines.right_low, now_ms) {
            action = Some(Action::MoveRight);
        }
        if self.accept(lines.rotate_low, now_ms) {
            action = Some(Action::Rotate);
        }
        action
    }
}

/// A poll accepts at most what is asked for, and once it has accepted an
/// action, a second poll at the same instant accepts nothing.
pub proof fn lemma_one_action_per_instant(gate: Gate, now: nat, lines: Lines, again: Lines)
    ensures
        gate.accepted(now, lines) is Some ==> gate.accepted(now, lines) == requested(lines),
        gate.accepted(now, lines) is Some ==> gate.polled(now, lines).accepted(now, again) is None,
{
}

/// After an accepted action every line stays shut until more than the window
/// has passed.
pub proof fn lemma_window_shuts_all_lines(gate: Gate, now: nat, lines: Lines, later: nat, other: Lines)
    requires
        gate.accepted(now, lines) is Some,
        later <= now + gate.window_ms,
    ensures
        gate.polled(now, lines).accepted(later, other) is None,
{
}

} // verus!
