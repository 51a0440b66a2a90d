//! One iteration of the game loop: gravity on its timer, at most one button
//! action, the frame to show, and whether to halt.
//!
//! The firmware reads the clock, the lines and the random source, hands the
//! readings to `GameLoop::iterate`, sends out the frame it returns, and stops
//! calling once the loop reports that it has halted.

use vstd::prelude::*;
use crate::board::Board;
use crate::game::{Game, GameState};
use crate::input::{elapsed, elapsed_ms, Action, Debouncer, Gate, Lines};

verus! {

/// The time between two gravity steps, in milliseconds.
pub const FALL_INTERVAL_MS: u64 = 500;

/// The mathematical content of a running loop.
pub struct Session {
    pub game: Game,
    pub gate: Gate,
    pub fall_interval_ms: nat,
    pub last_fall_ms: nat,
}

/// The game after an accepted action, or as it was after none.
pub open spec fn applied(game: Game, action: Option<Action>) -> Game {
    match action {
        Some(Action::MoveLeft) => game.moved(-1, 0),
        Some(Action::MoveRight) => game.moved(1, 0),
        Some(Action::Rotate) => game.turned(),
        None => game,
    }
}

impl Session {
    pub open spec fn wf(self) -> bool {
        self.game.wf()
    }

    /// A gravity step is due at `now`: at least the fall interval has passed
    /// since the last one.
    pub open spec fn fall_due(self, now: nat) -> bool {
        elapsed(self.last_fall_ms, now) >= self.fall_interval_ms
    }

    /// The session after the gravity part of an iteration: one gravity step
    /// and a restarted timer if a step is due, no change otherwise.
    pub open spec fn fallen(self, now: nat, draw: nat) -> Session {
        if self.fall_due(now) {
            Session { game: self.game.dropped(draw), last_fall_ms: now, ..self }
        } else {
            self
        }
    }

    /// The session after one iteration at `now`. A session whose game is over
    /// stays as it is. Otherwise gravity comes first, then the one action
    /// that the debounce gate accepts.
    pub open spec fn advanced(self, now: nat, lines: Lines, draw: nat) -> Session {
        if self.game.over {
            self
        } else {
            let fallen = self.fallen(now, draw);
            Session {
                game: applied(fallen.game, fallen.gate.accepted(now, lines)),
                gate: fallen.gate.polled(now, lines),
                ..fallen
            }
        }
    }
}

/// What one iteration hands back: the full frame to send out, and whether
/// the loop has halted.
#[derive(Clone, Debug, PartialEq, Eq)]
pub struct Tick {
    pub frame: Board,
    pub halted: bool,
}

/// The game loop between two iterations.
#[derive(Clone, Debug, PartialEq, Eq)]
pub struct GameLoop {
    game: GameState,
    debouncer: Debouncer,
    fall_interval_ms: u64,
    last_fall_ms: u64,
}

impl View for GameLoop {
    type V = Session;

    closed spec fn view(&self) -> Session {
        Session {
            game: self.game@,
            gate: self.debouncer@,
            fall_interval_ms: self.fall_interval_ms as nat,
            last_fall_ms: self.last_fall_ms as nat,
        }
    }
}

impl GameLoop {
    pub open spec fn wf(&self) -> bool {
        self@.wf()
    }

    /// A loop around `game` that starts at `now_ms`: both the gravity timer
    /// and the debounce window count from there.
    pub fn new(game: GameState, now_ms: u64, fall_interval_ms: u64, debounce_ms: u64) -> (looped:
        GameLoop)
        requires
            game.wf(),
        ensures
            looped.wf(),
            looped@ == (Session {
                game: game@,
                gate: Gate { window_ms: debounce_ms as nat, last_accepted_ms: now_ms as nat },
                fall_interval_ms: fall_interval_ms as nat,
                last_fall_ms: now_ms as nat,
            }),
    {
        GameLoop { game, debouncer: Debouncer::new(debounce_ms, now_ms), fall_interval_ms, last_fall_ms: now_ms }
    }

    /// The game as it stands.
    pub fn game(&self) -> (game: &GameState)
        requires
            self.wf(),
        ensures
            game.wf(),
            game@ == self@.game,
    {
        &self.game
    }

    /// Whether the loop has halted: the game is over.
    pub fn is_halted(&self) -> (halted: bool)
        ensures
            halted == self@.game.over,
    {
        self.game.is_game_over()
    }

    /// Applies an accepted action to the game.
    fn apply(&mut self, action: Option<Action>)
        requires
            old(self).wf(),
        ensures
            final(self).wf(),
            final(self)@ == (Session { game: applied(old(self)@.game, action), ..old(self)@ }),
    {
        match action {
            Some(Action::MoveLeft) => {
                self.game.move_left();
            },
            Some(Action::MoveRight) => {
                self.game.move_right();
            },
            Some(Action::Rotate) => {
                self.game.rotate();
            },
            None => {},
        }
    }

    /// Runs one iteration at `now_ms`, with the levels just read from the
    /// lines and a number just drawn from the random source. Returns the
    /// frame to send out and whether the loop has halted. Once it has, further
    /// calls change nothing.
    pub fn iterate(&mut self, now_ms: u64, lines: Lines, draw: u32) -> (tick: Tick)
        requires
            old(self).wf(),
        ensures
            final(self).wf(),
            final(self)@ == old(self)@.advanced(now_ms as nat, lines, draw as nat),
            tick.frame.wf(),
            tick.frame@ == final(self)@.game.frame(),
            tick.halted == final(self)@.game.over,
    {
        if !self.game.is_game_over() {
            if elapsed_ms(self.last_fall_ms, now_ms) >= self.fall_interval_ms {
                self.game.step_down(draw);
                self.last_fall_ms = now_ms;
            }
            let action = self.debouncer.poll(now_ms, lines);
            self.apply(action);
        }
        Tick { frame: self.game.frame(), halted: self.game.is_game_over() }
    }
}

/// A halted session stays exactly as it is, whatever the clock, the lines
/// and the random source read.
pub proof fn lemma_halted_stays(session: Session, now: nat, lines: Lines, draw: nat)
    requires
        session.game.over,
    ensures
        session.advanced(now, lines, draw) == session,
{
}

/// An iteration keeps a session well formed, never lowers the score, and
/// leaves the two periods as they were configured.
pub proof fn lemma_iteration_advances(session: Session, now: nat, lines: Lines, draw: nat)
    requires
        session.wf(),
    ensures
        session.advanced(now, lines, draw).wf(),
        session.advanced(now, lines, draw).game.score >= session.game.score,
        session.advanced(now, lines, draw).fall_interval_ms == session.fall_interval_ms,
        session.advanced(now, lines, draw).gate.window_ms == session.gate.window_ms,
{
    if !session.game.over {
        let fallen = session.fallen(now, draw);
        crate::game::lemma_commands_keep_wf(session.game, 0, 1, draw);
        crate::game::lemma_commands_only_advance(session.game, 0, 1, draw);
        crate::game::lemma_commands_keep_wf(fallen.game, -1, 0, draw);
        crate::game::lemma_commands_keep_wf(fallen.game, 1, 0, draw);
        crate::game::lemma_commands_only_advance(fallen.game, -1, 0, draw);
        crate::game::lemma_commands_only_advance(fallen.game, 1, 0, draw);
    }
}

/// Gravity takes exactly one step in an iteration in which it is due, and
/// none in any other.
pub proof fn lemma_one_gravity_step(session: Session, now: nat, draw: nat)
    ensures
        session.fall_due(now) ==> session.fallen(now, draw).game == session.game.dropped(draw)
            && session.fallen(now, draw).last_fall_ms == now,
        !session.fall_due(now) ==> session.fallen(now, draw) == session,
{
}

} // verus!
