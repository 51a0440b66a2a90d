//! The active piece: a shape at a signed position, the test for whether the
//! board admits it, and its overlay onto the board.

use vstd::prelude::*;
use crate::board::{Board, Grid};
use crate::tetromino::{Kind, Shape, Tetromino};

verus! {

/// A shape at a position: the mathematical content of an active piece.
pub struct Piece {
    pub shape: Shape,
    pub x: int,
    pub y: int,
}

/// The column at which a new piece enters a board of the given width: its
/// 4x4 box is centred, one column to the left where it cannot be.
pub open spec fn spawn_column(width: nat) -> int {
    width as int / 2 - 2
}

/// The row at which a new piece enters.
pub const SPAWN_ROW: i32 = 0;

impl Piece {
    /// The board cell that block `i` of the piece stands on.
    pub open spec fn cell(self, i: int) -> (int, int) {
        (self.x + self.shape.offsets[i].0, self.y + self.shape.offsets[i].1)
    }

    /// One of the piece's four blocks stands on `(cx, cy)`.
    pub open spec fn covers(self, cx: int, cy: int) -> bool {
        ||| self.cell(0) == (cx, cy)
        ||| self.cell(1) == (cx, cy)
        ||| self.cell(2) == (cx, cy)
        ||| self.cell(3) == (cx, cy)
    }

    /// The piece shifted by `(dx, dy)`.
    pub open spec fn moved(self, dx: int, dy: int) -> Piece {
        Piece { shape: self.shape, x: self.x + dx, y: self.y + dy }
    }

    /// The piece turned by a quarter, its position kept.
    pub open spec fn turned(self) -> Piece {
        Piece { shape: self.shape.turned(), x: self.x, y: self.y }
    }

    /// A new piece of the given kind on a board of the given width.
    pub open spec fn spawned(kind: Kind, width: nat) -> Piece {
        Piece { shape: Shape::of(kind), x: spawn_column(width), y: SPAWN_ROW as int }
    }
}

impl Grid {
    /// The piece may stand where it is: each of its four blocks is on a free
    /// cell.
    pub open spec fn admits(self, piece: Piece) -> bool {
        forall|i: int| 0 <= i < 4 ==> self.free((#[trigger] piece.cell(i)).0, piece.cell(i).1)
    }

    /// The grid with the piece's blocks drawn over it. Blocks outside the grid
    /// are left out.
    pub open spec fn with_piece(self, piece: Piece) -> Grid {
        Grid {
            width: self.width,
            rows: Seq::new(
                self.rows.len(),
                |y: int|
                    Seq::new(
                        self.width,
                        |x: int|
                            if piece.covers(x, y) {
                                Some(piece.shape.color)
                            } else {
                                self.rows[y][x]
                            },
                    ),
            ),
        }
    }
}

/// The piece in play.
#[derive(Clone, Copy, Debug, PartialEq, Eq)]
pub struct ActivePiece {
    pub shape: Tetromino,
    pub x: i32,
    pub y: i32,
}

impl View for ActivePiece {
    type V = Piece;

    open spec fn view(&self) -> Piece {
        Piece { shape: self.shape@, x: self.x as int, y: self.y as int }
    }
}

impl ActivePiece {
    /// The shape keeps its cells inside the 4x4 box.
    pub open spec fn wf(&self) -> bool {
        self.shape.wf()
    }

    /// A new piece of the given kind for a board of the given width.
    pub fn spawn(kind: Kind, width: usize) -> (piece: ActivePiece)
        requires
            width <= crate::board::MAX_DIM,
        ensures
            piece.wf(),
            piece@ == Piece::spawned(kind, width as nat),
    {
        ActivePiece { shape: Tetromino::canonical(kind), x: (width / 2) as i32 - 2, y: SPAWN_ROW }
    }
}

impl Board {
    /// Whether the shape may stand at `(x, y)`: every one of its four cells
    /// must lie in a column of the board and above the floor, and those that
    /// are on the board must be empty.
    pub fn admits(&self, shape: &Tetromino, x: i32, y: i32) -> (ok: bool)
        requires
            self.wf(),
            shape.wf(),
        ensures
            ok == self@.admits(Piece { shape: shape@, x: x as int, y: y as int }),
    {
        let ghost piece = Piece { shape: shape@, x: x as int, y: y as int };
        let mut i: usize = 0;
        while i < 4
            invariant
                self.wf(),
                shape.wf(),
                piece == (Piece { shape: shape@, x: x as int, y: y as int }),
                i <= 4,
                forall|j: int| 0 <= j < i ==> self@.free((#[trigger] piece.cell(j)).0, piece.cell(j).1),
            decreases 4 - i,
        {
            let o = shape.offset(i);
            assert(piece.cell(i as int) == (x + o.0, y + o.1));
            assert(0 <= o.0 < 4 && 0 <= o.1 < 4);
            let free = match (x.checked_add(o.0), y.checked_add(o.1)) {
                (Some(cx), Some(cy)) => self.is_free(cx, cy),
                _ => false,
            };
            if !free {
                return false;
            }
            i = i + 1;
        }
        true
    }

    /// Draws one block at `(cx, cy)` if that is a cell of the board.
    fn stamp_cell(&mut self, cx: i64, cy: i64, color: crate::color::Color)
        requires
            old(self).wf(),
        ensures
            final(self).wf(),
            final(self)@ == if old(self)@.contains(cx as int, cy as int) {
                old(self)@.with_cell(cx as int, cy as int, Some(color))
            } else {
                old(self)@
            },
    {
        if 0 <= cx && cx < self.width() as i64 && 0 <= cy && cy < self.height() as i64 {
            self.set(cx as usize, cy as usize, Some(color));
        }
    }

    /// Draws the piece's blocks over the board. Blocks that lie outside the
    /// board are left out.
    pub fn stamp(&mut self, piece: &ActivePiece)
        requires
            old(self).wf(),
            piece.wf(),
        ensures
            final(self).wf(),
            final(self)@ == old(self)@.with_piece(piece@),
    {
        let color = piece.shape.color();
        let x = piece.x as i64;
        let y = piece.y as i64;
        let o0 = piece.shape.offset(0);
        let o1 = piece.shape.offset(1);
        let o2 = piece.shape.offset(2);
        let o3 = piece.shape.offset(3);
        self.stamp_cell(x + o0.0 as i64, y + o0.1 as i64, color);
        self.stamp_cell(x + o1.0 as i64, y + o1.1 as i64, color);
        self.stamp_cell(x + o2.0 as i64, y + o2.1 as i64, color);
        self.stamp_cell(x + o3.0 as i64, y + o3.1 as i64, color);
        proof {
            let want = old(self)@.with_piece(piece@);
            assert forall|j: int| 0 <= j < self@.rows.len() implies self@.rows[j] =~= want.rows[j] by {}
            assert(self@.rows =~= want.rows);
        }
    }
}

/// A grid admits a piece only if each of its blocks is in a column of the
/// grid, above the floor, and, where it is on the grid, on an empty cell. One
/// block that is not so is enough to refuse the piece.
pub proof fn lemma_admits_cell(grid: Grid, piece: Piece, i: int)
    requires
        0 <= i < 4,
    ensures
        grid.admits(piece) ==> 0 <= piece.cell(i).0 < grid.width,
        grid.admits(piece) ==> piece.cell(i).1 < grid.height(),
        grid.admits(piece) && piece.cell(i).1 >= 0 ==> grid.at(piece.cell(i).0, piece.cell(i).1) is None,
        piece.cell(i).0 < 0 || piece.cell(i).0 >= grid.width || piece.cell(i).1 >= grid.height()
            ==> !grid.admits(piece),
        grid.contains(piece.cell(i).0, piece.cell(i).1) && grid.at(piece.cell(i).0, piece.cell(i).1) is Some
            ==> !grid.admits(piece),
{
}

/// On a blank grid a piece is admitted exactly when all its blocks lie in
/// columns of the grid and above the floor.
pub proof fn lemma_blank_grid_admits(width: nat, height: nat, piece: Piece)
    ensures
        Grid::blank(width, height).admits(piece) <==> forall|i: int|
            0 <= i < 4 ==> 0 <= (#[trigger] piece.cell(i)).0 < width && piece.cell(i).1 < height,
{
    let grid = Grid::blank(width, height);
    if grid.admits(piece) {
        assert forall|i: int| 0 <= i < 4 implies 0 <= (#[trigger] piece.cell(i)).0 < width
            && piece.cell(i).1 < height by {}
    }
    if forall|i: int| 0 <= i < 4 ==> 0 <= (#[trigger] piece.cell(i)).0 < width && piece.cell(i).1 < height {
        assert forall|i: int| 0 <= i < 4 implies grid.free((#[trigger] piece.cell(i)).0, piece.cell(i).1) by {}
    }
}

/// On a blank grid the I piece, lying flat, can go one column to the right
/// exactly until its rightmost block stands in the last column.
pub proof fn lemma_i_piece_stops_at_right_edge(width: nat, height: nat, x: int, y: int)
    requires
        Grid::blank(width, height).admits(Piece { shape: Shape::of(Kind::I), x, y }),
    ensures
        Grid::blank(width, height).admits(Piece { shape: Shape::of(Kind::I), x: x + 1, y }) <==> x + 3
            < width - 1,
{
    let here = Piece { shape: Shape::of(Kind::I), x, y };
    let there = Piece { shape: Shape::of(Kind::I), x: x + 1, y };
    lemma_blank_grid_admits(width, height, here);
    lemma_blank_grid_admits(width, height, there);
    assert(there.cell(3) == (x + 4, y + 1));
    if x + 3 < width - 1 {
        assert forall|i: int| 0 <= i < 4 implies 0 <= (#[trigger] there.cell(i)).0 < width && there.cell(
            i,
        ).1 < height by {
            assert(here.cell(i).0 <= x + 3);
        }
    }
}

} // verus!
