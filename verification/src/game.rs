//! The game state machine: moves, rotation, gravity, locking and the spawn of
//! the next piece.

use vstd::prelude::*;
use crate::board::{blank_row, full, Board, Grid, MAX_DIM};
use crate::piece::{ActivePiece, Piece};
use crate::tetromino::{Kind, Tetromino};

verus! {

/// Points awarded for each cleared row.
pub const ROW_REWARD: u32 = 100;

/// The score after `rows` more cleared rows. It stops at the largest value
/// the counter can hold.
pub open spec fn rewarded(score: nat, rows: nat) -> nat {
    if score + ROW_REWARD * rows <= u32::MAX {
        score + (ROW_REWARD as nat) * rows
    } else {
        u32::MAX as nat
    }
}

/// The mathematical content of a game: the locked cells, the piece in play,
/// the score, and whether the game has ended.
pub struct Game {
    pub grid: Grid,
    pub piece: Piece,
    pub score: nat,
    pub over: bool,
}

impl Piece {
    /// The position fits the 32-bit signed coordinates that pieces are kept in.
    pub open spec fn representable(self) -> bool {
        &&& i32::MIN <= self.x <= i32::MAX
        &&& i32::MIN <= self.y <= i32::MAX
    }
}

impl Game {
    /// What holds of every game: the grid is well formed and within
    /// `MAX_DIM`, the shape lies in its box, and while the game runs the
    /// piece stands on free cells.
    pub open spec fn wf(self) -> bool {
        &&& self.grid.wf()
        &&& self.grid.width <= MAX_DIM
        &&& self.grid.height() <= MAX_DIM
        &&& self.piece.shape.in_box()
        &&& self.piece.representable()
        &&& self.score <= u32::MAX
        &&& (!self.over ==> self.grid.admits(self.piece))
    }

    /// A game that begins on `grid` with the piece that `draw` selects. It is
    /// over at once if the grid does not admit that piece.
    pub open spec fn started(grid: Grid, draw: nat) -> Game {
        let piece = Piece::spawned(Kind::of_draw(draw), grid.width);
        Game { grid, piece, score: 0, over: !grid.admits(piece) }
    }

    /// The piece could be taken to `target`.
    pub open spec fn reaches(self, target: Piece) -> bool {
        target.representable() && self.grid.admits(target)
    }

    /// The game after a request to shift the piece by `(dx, dy)`: the piece
    /// goes there if it can; otherwise, and in a game that is over, nothing
    /// changes.
    pub open spec fn moved(self, dx: int, dy: int) -> Game {
        if !self.over && self.reaches(self.piece.moved(dx, dy)) {
            Game { piece: self.piece.moved(dx, dy), ..self }
        } else {
            self
        }
    }

    /// The game after the piece is locked: its blocks join the grid, full
    /// rows are cleared and rewarded, and the piece that `draw` selects
    /// enters. The game is over if the grid does not admit the new piece.
    pub open spec fn locked(self, draw: nat) -> Game {
        let stamped = self.grid.with_piece(self.piece);
        let grid = stamped.settled();
        let piece = Piece::spawned(Kind::of_draw(draw), self.grid.width);
        Game {
            grid,
            piece,
            score: rewarded(self.score, stamped.full_rows()),
            over: !grid.admits(piece),
        }
    }

    /// The game after a gravity step: the piece goes down by one row if it
    /// can, and is locked if it cannot. Nothing changes in a game that is over.
    pub open spec fn dropped(self, draw: nat) -> Game {
        if self.over {
            self
        } else if self.reaches(self.piece.moved(0, 1)) {
            Game { piece: self.piece.moved(0, 1), ..self }
        } else {
            self.locked(draw)
        }
    }

    /// The game after a move command: a gravity step where the shift is one
    /// row down, a plain move otherwise.
    pub open spec fn shifted(self, dx: int, dy: int, draw: nat) -> Game {
        if dx == 0 && dy == 1 {
            self.dropped(draw)
        } else {
            self.moved(dx, dy)
        }
    }

    /// The game after a request to turn the piece by a quarter: the piece
    /// turns where it stands if the grid admits it so; otherwise, and in a
    /// game that is over, nothing changes.
    pub open spec fn turned(self) -> Game {
        if !self.over && self.grid.admits(self.piece.turned()) {
            Game { piece: self.piece.turned(), ..self }
        } else {
            self
        }
    }

    /// What a frame shows: the locked cells with the piece's blocks over them.
    pub open spec fn frame(self) -> Grid {
        self.grid.with_piece(self.piece)
    }
}

/// The state of a game.
#[derive(Clone, Debug, PartialEq, Eq)]
pub struct GameState {
    board: Board,
    piece: ActivePiece,
    score: u32,
    game_over: bool,
}

impl View for GameState {
    type V = Game;

    closed spec fn view(&self) -> Game {
        Game {
            grid: self.board@,
            piece: self.piece@,
            score: self.score as nat,
            over: self.game_over,
        }
    }
}

impl GameState {
    /// The invariant of the state machine; see `Game::wf`.
    pub open spec fn wf(&self) -> bool {
        self@.wf()
    }

    /// A game on an empty board of the given size. `draw` is a number from
    /// the random source; it selects the first piece.
    pub fn new(width: u16, height: u16, draw: u32) -> (state: GameState)
        ensures
            state.wf(),
            state@ == Game::started(Grid::blank(width as nat, height as nat), draw as nat),
    {
        GameState::from_board(Board::new(width, height), draw)
    }

    /// A game that begins on the given board.
    pub fn from_board(board: Board, draw: u32) -> (state: GameState)
        requires
            board.wf(),
        ensures
            state.wf(),
            state@ == Game::started(board@, draw as nat),
    {
        let piece = ActivePiece::spawn(Kind::from_draw(draw), board.width());
        let game_over = !board.admits(&piece.shape, piece.x, piece.y);
        GameState { board, piece, score: 0, game_over }
    }

    /// The locked cells.
    pub fn board(&self) -> (board: &Board)
        requires
            self.wf(),
        ensures
            board.wf(),
            board@ == self@.grid,
    {
        &self.board
    }

    /// The piece in play.
    pub fn piece(&self) -> (piece: ActivePiece)
        requires
            self.wf(),
        ensures
            piece.wf(),
            piece@ == self@.piece,
    {
        self.piece
    }

    /// The score.
    pub fn score(&self) -> (score: u32)
        ensures
            score == self@.score,
    {
        self.score
    }

    /// Whether the game has ended.
    pub fn is_game_over(&self) -> (over: bool)
        ensures
            over == self@.over,
    {
        self.game_over
    }

    /// Whether `shape` may stand at `(x, y)` on the board: all four of its
    /// cells lie in a column of the board and above the floor, and those on
    /// the board are empty.
    pub fn can_place(&self, shape: &Tetromino, x: i32, y: i32) -> (ok: bool)
        requires
            self.wf(),
            shape.wf(),
        ensures
            ok == self@.grid.admits(Piece { shape: shape@, x: x as int, y: y as int }),
    {
        self.board.admits(shape, x, y)
    }

    /// Tries to shift the piece by `(dx, dy)` without locking it. Returns
    /// whether the piece moved.
    fn try_shift(&mut self, dx: i32, dy: i32) -> (accepted: bool)
        requires
            old(self).wf(),
            !old(self)@.over,
        ensures
            final(self).wf(),
            accepted == old(self)@.reaches(old(self)@.piece.moved(dx as int, dy as int)),
            final(self)@ == old(self)@.moved(dx as int, dy as int),
    {
        match (self.piece.x.checked_add(dx), self.piece.y.checked_add(dy)) {
            (Some(x), Some(y)) => {
                if self.board.admits(&self.piece.shape, x, y) {
                    self.piece.x = x;
                    self.piece.y = y;
                    true
                } else {
                    false
                }
            },
            _ => {
                false
            },
        }
    }

    /// Locks the piece into the board, clears and rewards the full rows, and
    /// brings in the piece that `draw` selects.
    fn lock(&mut self, draw: u32)
        requires
            old(self).wf(),
        ensures
            final(self).wf(),
            final(self)@ == old(self)@.locked(draw as nat),
    {
        self.board.stamp(&self.piece);
        let cleared = self.board.clear_full_rows();
        proof {
            crate::board::lemma_settled_wf(old(self)@.grid.with_piece(old(self)@.piece));
        }
        self.score = self.score.saturating_add(ROW_REWARD * (cleared as u32));
        self.piece = ActivePiece::spawn(Kind::from_draw(draw), self.board.width());
        self.game_over = !self.board.admits(&self.piece.shape, self.piece.x, self.piece.y);
    }

    /// One gravity step: the piece goes down a row, or is locked where it
    /// stands if it cannot. `draw` is a number from the random source; it
    /// selects the next piece if this one is locked. Returns whether the
    /// piece went down.
    pub fn step_down(&mut self, draw: u32) -> (accepted: bool)
        requires
            old(self).wf(),
        ensures
            final(self).wf(),
            final(self)@ == old(self)@.dropped(draw as nat),
            accepted == (!old(self)@.over && old(self)@.reaches(old(self)@.piece.moved(0, 1))),
    {
        if self.game_over {
            return false;
        }
        let accepted = self.try_shift(0, 1);
        if !accepted {
            self.lock(draw);
        }
        accepted
    }

    /// Tries to shift the piece by `(dx, dy)` and returns whether it moved.
    /// A shift by one row down is a gravity step: if the piece cannot go
    /// there it is locked, and `draw` selects the next piece.
    pub fn move_by(&mut self, dx: i32, dy: i32, draw: u32) -> (accepted: bool)
        requires
            old(self).wf(),
        ensures
            final(self).wf(),
            final(self)@ == old(self)@.shifted(dx as int, dy as int, draw as nat),
            accepted == (!old(self)@.over && old(self)@.reaches(
                old(self)@.piece.moved(dx as int, dy as int),
            )),
    {
        if dx == 0 && dy == 1 {
            self.step_down(draw)
        } else if self.game_over {
            false
        } else {
            self.try_shift(dx, dy)
        }
    }

    /// Tries to shift the piece one column to the left.
    pub fn move_left(&mut self) -> (accepted: bool)
        requires
            old(self).wf(),
        ensures
            final(self).wf(),
            final(self)@ == old(self)@.moved(-1, 0),
            accepted == (!old(self)@.over && old(self)@.reaches(old(self)@.piece.moved(-1, 0))),
    {
        if self.game_over {
            false
        } else {
            self.try_shift(-1, 0)
        }
    }

    /// Tries to shift the piece one column to the right.
    pub fn move_right(&mut self) -> (accepted: bool)
        requires
            old(self).wf(),
        ensures
            final(self).wf(),
            final(self)@ == old(self)@.moved(1, 0),
            accepted == (!old(self)@.over && old(self)@.reaches(old(self)@.piece.moved(1, 0))),
    {
        if self.game_over {
            false
        } else {
            self.try_shift(1, 0)
        }
    }

    /// Tries to turn the piece by a quarter where it stands and returns
    /// whether it turned.
    pub fn rotate(&mut self) -> (accepted: bool)
        requires
            old(self).wf(),
        ensures
            final(self).wf(),
            final(self)@ == old(self)@.turned(),
            accepted == (!old(self)@.over && old(self)@.grid.admits(old(self)@.piece.turned())),
    {
        if self.game_over {
            return false;
        }
        let turned = self.piece.shape.rotated();
        if self.board.admits(&turned, self.piece.x, self.piece.y) {
            self.piece.shape = turned;
            true
        } else {
            false
        }
    }

    /// The frame to show: a copy of the board with the piece drawn over it.
    pub fn frame(&self) -> (frame: Board)
        requires
            self.wf(),
        ensures
            frame.wf(),
            frame@ == self@.frame(),
    {
        let mut frame = self.board.duplicate();
        frame.stamp(&self.piece);
        frame
    }
}

/// A game that is over stays exactly as it is, whatever is asked of it.
pub proof fn lemma_over_is_final(game: Game, dx: int, dy: int, draw: nat)
    requires
        game.over,
    ensures
        game.moved(dx, dy) == game,
        game.dropped(draw) == game,
        game.shifted(dx, dy, draw) == game,
        game.turned() == game,
{
}

/// No command lowers the score or brings a game that is over back to life,
/// and only a gravity step that locks the piece changes the grid or the score.
pub proof fn lemma_commands_only_advance(game: Game, dx: int, dy: int, draw: nat)
    requires
        game.wf(),
    ensures
        game.shifted(dx, dy, draw).score >= game.score,
        game.over ==> game.shifted(dx, dy, draw).over,
        game.moved(dx, dy).grid == game.grid && game.moved(dx, dy).score == game.score
            && game.moved(dx, dy).over == game.over,
        game.turned().grid == game.grid && game.turned().score == game.score && game.turned().over
            == game.over,
        game.over || game.reaches(game.piece.moved(0, 1)) ==> game.dropped(draw).grid == game.grid
            && game.dropped(draw).score == game.score,
{
}

/// Every command takes a well-formed game to a well-formed game, and so does
/// the start of a game on a well-formed grid.
pub proof fn lemma_commands_keep_wf(game: Game, dx: int, dy: int, draw: nat)
    requires
        game.wf(),
    ensures
        game.moved(dx, dy).wf(),
        game.dropped(draw).wf(),
        game.shifted(dx, dy, draw).wf(),
        game.turned().wf(),
        game.locked(draw).wf(),
        Game::started(game.grid, draw).wf(),
{
    crate::tetromino::lemma_turn_stays_in_box(game.piece.shape);
    crate::tetromino::lemma_kinds(Kind::of_draw(draw), Kind::of_draw(draw));
    let stamped = game.grid.with_piece(game.piece);
    crate::board::lemma_settled_wf(stamped);
}

/// Locking ends the game exactly when the grid does not admit the new piece;
/// one occupied or missing cell under the new piece is enough.
pub proof fn lemma_blocked_spawn_ends_game(game: Game, draw: nat, i: int)
    requires
        0 <= i < 4,
    ensures
        game.locked(draw).over == !game.locked(draw).grid.admits(game.locked(draw).piece),
        game.locked(draw).piece == Piece::spawned(Kind::of_draw(draw), game.grid.width),
        !game.locked(draw).grid.free(
            game.locked(draw).piece.cell(i).0,
            game.locked(draw).piece.cell(i).1,
        ) ==> game.locked(draw).over,
{
}

/// A game starts over exactly when the grid does not admit its first piece;
/// one occupied or missing cell under that piece is enough.
pub proof fn lemma_blocked_start_ends_game(grid: Grid, draw: nat, i: int)
    requires
        0 <= i < 4,
    ensures
        Game::started(grid, draw).over == !grid.admits(Game::started(grid, draw).piece),
        Game::started(grid, draw).piece == Piece::spawned(Kind::of_draw(draw), grid.width),
        !grid.free(Game::started(grid, draw).piece.cell(i).0, Game::started(grid, draw).piece.cell(i).1)
            ==> Game::started(grid, draw).over,
{
}

/// A lock that completes exactly one row clears that row and adds exactly
/// the reward of one row to the score, unless the score counter is at its end.
pub proof fn lemma_one_row_lock(game: Game, draw: nat, r: int)
    requires
        game.wf(),
        0 <= r < game.grid.height(),
        full(game.frame().rows[r]),
        forall|y: int| 0 <= y < game.grid.height() && y != r ==> !full(#[trigger] game.frame().rows[y]),
        game.score + ROW_REWARD <= u32::MAX,
    ensures
        game.locked(draw).score == game.score + ROW_REWARD,
        game.locked(draw).grid.height() == game.grid.height(),
        game.locked(draw).grid.rows[0] == blank_row(game.grid.width),
        forall|y: int| 1 <= y <= r ==> #[trigger] game.locked(draw).grid.rows[y] == game.frame().rows[y - 1],
        forall|y: int|
            r < y < game.grid.height() ==> #[trigger] game.locked(draw).grid.rows[y] == game.frame().rows[y],
{
    let stamped = game.frame();
    crate::board::lemma_single_full_row(stamped, r);
}

} // verus!
