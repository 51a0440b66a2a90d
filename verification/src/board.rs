//! The board: a fixed grid of cells, each empty or holding one colour, and the
//! engine that clears completed rows.

use vstd::prelude::*;
use crate::color::Color;

verus! {

/// A cell is empty or holds the colour of the block locked into it.
pub type Cell = Option<Color>;

/// Largest width or height of a board. With it, every cell coordinate and
/// every sum of a position and an offset fits in 32 bits.
pub const MAX_DIM: usize = 0xffff;

/// Width of the board shown on the LED strip.
pub const STRIP_WIDTH: u16 = 10;

/// Height of the board shown on the LED strip.
pub const STRIP_HEIGHT: u16 = 20;

/// Width of the board shown on the dot-matrix modules.
pub const MATRIX_WIDTH: u16 = 8;

/// Height of the board shown on the dot-matrix modules.
pub const MATRIX_HEIGHT: u16 = 32;

/// The mathematical content of a board: rows from top to bottom, each row
/// from left to right.
pub struct Grid {
    pub width: nat,
    pub rows: Seq<Seq<Cell>>,
}

/// A row is full when every one of its cells is occupied.
pub open spec fn full(row: Seq<Cell>) -> bool {
    forall|x: int| 0 <= x < row.len() ==> (#[trigger] row[x]) is Some
}

/// A row of empty cells.
pub open spec fn blank_row(width: nat) -> Seq<Cell> {
    Seq::new(width, |x: int| None::<Color>)
}

/// As many blank rows as asked for.
pub open spec fn blank_rows(width: nat, count: nat) -> Seq<Seq<Cell>> {
    Seq::new(count, |y: int| blank_row(width))
}

/// The test by which a row outlives a line clear: it is not full.
pub open spec fn stays() -> spec_fn(Seq<Cell>) -> bool {
    |row: Seq<Cell>| !full(row)
}

impl Grid {
    /// Every row has the grid's width.
    pub open spec fn wf(self) -> bool {
        forall|y: int| 0 <= y < self.rows.len() ==> (#[trigger] self.rows[y]).len() == self.width
    }

    pub open spec fn height(self) -> nat {
        self.rows.len()
    }

    /// The grid of the given size with every cell empty.
    pub open spec fn blank(width: nat, height: nat) -> Grid {
        Grid { width, rows: blank_rows(width, height) }
    }

    /// `(x, y)` names a cell of the grid.
    pub open spec fn contains(self, x: int, y: int) -> bool {
        0 <= x < self.width && 0 <= y < self.height()
    }

    /// The cell in column `x` of row `y`.
    pub open spec fn at(self, x: int, y: int) -> Cell
        recommends
            self.contains(x, y),
    {
        self.rows[y][x]
    }

    /// A block may stand at `(x, y)`: the column exists, the row is not below
    /// the floor, and the cell, if the row is on the board at all, is empty.
    /// Rows above the board (`y < 0`) are free.
    pub open spec fn free(self, x: int, y: int) -> bool {
        &&& 0 <= x < self.width
        &&& y < self.height()
        &&& (y >= 0 ==> self.at(x, y) is None)
    }

    /// The grid with cell `(x, y)` replaced.
    pub open spec fn with_cell(self, x: int, y: int, cell: Cell) -> Grid
        recommends
            self.contains(x, y),
    {
        Grid { width: self.width, rows: self.rows.update(y, self.rows[y].update(x, cell)) }
    }

    /// The rows that a line clear keeps: those that are not full, in order.
    pub open spec fn kept_rows(self) -> Seq<Seq<Cell>> {
        self.rows.filter(stays())
    }

    /// Number of full rows.
    pub open spec fn full_rows(self) -> nat {
        (self.rows.len() - self.kept_rows().len()) as nat
    }

    /// The grid after a line clear: every full row is gone, the rows above it
    /// have moved down, and as many blank rows have entered at the top.
    pub open spec fn settled(self) -> Grid {
        Grid { width: self.width, rows: blank_rows(self.width, self.full_rows()) + self.kept_rows() }
    }
}

/// The board of the game.
#[derive(Clone, Debug, PartialEq, Eq)]
pub struct Board {
    width: usize,
    rows: Vec<Vec<Cell>>,
}

impl View for Board {
    type V = Grid;

    closed spec fn view(&self) -> Grid {
        Grid {
            width: self.width as nat,
            rows: Seq::new(self.rows@.len(), |y: int| self.rows@[y]@),
        }
    }
}

fn new_blank_row(width: usize) -> (row: Vec<Cell>)
    ensures
        row@ == blank_row(width as nat),
{
    let mut row: Vec<Cell> = Vec::new();
    let mut x: usize = 0;
    while x < width
        invariant
            x <= width,
            row@ =~= blank_row(x as nat),
        decreases width - x,
    {
        row.push(None);
        x = x + 1;
    }
    row
}

impl Board {
    /// Every row has the board's width, and neither dimension exceeds `MAX_DIM`.
    pub open spec fn wf(&self) -> bool {
        &&& self@.wf()
        &&& self@.width <= MAX_DIM
        &&& self@.height() <= MAX_DIM
    }

    /// An empty board of the given size.
    pub fn new(width: u16, height: u16) -> (board: Board)
        ensures
            board.wf(),
            board@ == Grid::blank(width as nat, height as nat),
    {
        let mut rows: Vec<Vec<Cell>> = Vec::new();
        let mut y: usize = 0;
        while y < height as usize
            invariant
                y <= height,
                rows@.len() == y,
                forall|j: int| 0 <= j < y ==> (#[trigger] rows@[j])@ == blank_row(width as nat),
            decreases height - y,
        {
            rows.push(new_blank_row(width as usize));
            y = y + 1;
        }
        let board = Board { width: width as usize, rows };
        assert(board@.rows =~= blank_rows(width as nat, height as nat));
        board
    }

    /// Number of columns.
    pub fn width(&self) -> (w: usize)
        ensures
            w == self@.width,
    {
        self.width
    }

    /// Number of rows.
    pub fn height(&self) -> (h: usize)
        ensures
            h == self@.height(),
    {
        self.rows.len()
    }

    /// The cell in column `x` of row `y`.
    pub fn get(&self, x: usize, y: usize) -> (cell: Cell)
        requires
            self.wf(),
            self@.contains(x as int, y as int),
        ensures
            cell == self@.at(x as int, y as int),
    {
        self.rows[y][x]
    }

    /// Replaces the cell in column `x` of row `y`.
    pub fn set(&mut self, x: usize, y: usize, cell: Cell)
        requires
            old(self).wf(),
            old(self)@.contains(x as int, y as int),
        ensures
            final(self).wf(),
            final(self)@ == old(self)@.with_cell(x as int, y as int, cell),
    {
        assert(self@.rows[y as int].len() == self.width);
        self.rows[y][x] = cell;
        assert(self@.rows =~= old(self)@.with_cell(x as int, y as int, cell).rows) by {
            assert forall|j: int| 0 <= j < self@.rows.len() implies self@.rows[j] =~= old(
                self,
            )@.with_cell(x as int, y as int, cell).rows[j] by {}
        }
    }

    /// A copy of the board.
    pub fn duplicate(&self) -> (copy: Board)
        requires
            self.wf(),
        ensures
            copy.wf(),
            copy@ == self@,
    {
        let mut rows: Vec<Vec<Cell>> = Vec::new();
        let mut y: usize = 0;
        while y < self.rows.len()
            invariant
                self.wf(),
                y <= self.rows@.len(),
                rows@.len() == y,
                forall|j: int| 0 <= j < y ==> (#[trigger] rows@[j])@ == self.rows@[j]@,
            decreases self.rows@.len() - y,
        {
            let mut row: Vec<Cell> = Vec::new();
            let mut x: usize = 0;
            assert(self@.rows[y as int].len() == self.width);
            while x < self.width
                invariant
                    y < self.rows@.len(),
                    self.rows@[y as int]@.len() == self.width,
                    x <= self.width,
                    row@ =~= self.rows@[y as int]@.take(x as int),
                decreases self.width - x,
            {
                row.push(self.rows[y][x]);
                x = x + 1;
            }
            rows.push(row);
            y = y + 1;
        }
        let copy = Board { width: self.width, rows };
        assert(copy@.rows =~= self@.rows);
        copy
    }

    /// Whether a block may stand at `(x, y)`.
    pub fn is_free(&self, x: i32, y: i32) -> (free: bool)
        requires
            self.wf(),
        ensures
            free == self@.free(x as int, y as int),
    {
        if x < 0 || x as usize >= self.width {
            return false;
        }
        if y < 0 {
            return true;
        }
        if y as usize >= self.rows.len() {
            return false;
        }
        assert(self@.rows[y as int].len() == self.width);
        self.rows[y as usize][x as usize].is_none()
    }

    /// Whether every cell of row `y` is occupied.
    pub fn is_row_full(&self, y: usize) -> (is_full: bool)
        requires
            self.wf(),
            y < self@.height(),
        ensures
            is_full == full(self@.rows[y as int]),
    {
        assert(self@.rows[y as int].len() == self.width);
        let mut x: usize = 0;
        while x < self.width
            invariant
                y < self.rows@.len(),
                self.rows@[y as int]@.len() == self.width,
                self@.rows[y as int] == self.rows@[y as int]@,
                x <= self.width,
                forall|i: int| 0 <= i < x ==> (#[trigger] self.rows@[y as int]@[i]) is Some,
            decreases self.width - x,
        {
            if self.rows[y][x].is_none() {
                return false;
            }
            x = x + 1;
        }
        true
    }
}

/// What a line clear keeps of the first `y + 1` rows: what it keeps of the
/// first `y`, and row `y` too unless that row is full.
pub proof fn lemma_kept_step(rows: Seq<Seq<Cell>>, y: int)
    requires
        0 <= y < rows.len(),
    ensures
        rows.take(y + 1).filter(stays()) == if full(rows[y]) {
            rows.take(y).filter(stays())
        } else {
            rows.take(y).filter(stays()).push(rows[y])
        },
        rows.take(y).filter(stays()).len() <= y,
{
    reveal(Seq::filter);
    assert(rows.take(y + 1).drop_last() =~= rows.take(y));
    rows.take(y).lemma_filter_len(stays());
}

/// A line clear keeps rows of the grid's own width, and no more rows than
/// there were.
pub proof fn lemma_kept_rows_wf(rows: Seq<Seq<Cell>>, width: nat)
    requires
        forall|y: int| 0 <= y < rows.len() ==> (#[trigger] rows[y]).len() == width,
    ensures
        rows.filter(stays()).len() <= rows.len(),
        forall|y: int|
            0 <= y < rows.filter(stays()).len() ==> (#[trigger] rows.filter(stays())[y]).len() == width,
        forall|y: int| 0 <= y < rows.filter(stays()).len() ==> !full(#[trigger] rows.filter(stays())[y]),
    decreases rows.len(),
{
    reveal(Seq::filter);
    if rows.len() > 0 {
        lemma_kept_rows_wf(rows.drop_last(), width);
    }
}

/// A settled grid is well formed and as high as it was.
pub proof fn lemma_settled_wf(grid: Grid)
    requires
        grid.wf(),
    ensures
        grid.settled().wf(),
        grid.settled().height() == grid.height(),
        grid.settled().width == grid.width,
        grid.full_rows() <= grid.height(),
{
    lemma_kept_rows_wf(grid.rows, grid.width);
}

/// Where no row is full, a line clear keeps every row.
pub proof fn lemma_nothing_to_clear(rows: Seq<Seq<Cell>>)
    requires
        forall|y: int| 0 <= y < rows.len() ==> !full(#[trigger] rows[y]),
    ensures
        rows.filter(stays()) == rows,
    decreases rows.len(),
{
    reveal(Seq::filter);
    if rows.len() > 0 {
        lemma_nothing_to_clear(rows.drop_last());
    }
}

/// Where exactly one row is full, a line clear removes exactly that row: the
/// rows above it move down by one, the rows below it stay, and the top row
/// becomes blank.
pub proof fn lemma_single_full_row(grid: Grid, r: int)
    requires
        grid.wf(),
        0 <= r < grid.height(),
        full(grid.rows[r]),
        forall|y: int| 0 <= y < grid.height() && y != r ==> !full(#[trigger] grid.rows[y]),
    ensures
        grid.full_rows() == 1,
        grid.settled().height() == grid.height(),
        grid.settled().rows[0] == blank_row(grid.width),
        forall|y: int| 1 <= y <= r ==> #[trigger] grid.settled().rows[y] == grid.rows[y - 1],
        forall|y: int| r < y < grid.height() ==> #[trigger] grid.settled().rows[y] == grid.rows[y],
{
    let above = grid.rows.take(r);
    let middle = seq![grid.rows[r]];
    let below = grid.rows.skip(r + 1);
    assert(grid.rows =~= above + middle + below);
    lemma_nothing_to_clear(above);
    lemma_nothing_to_clear(below);
    assert(middle.filter(stays()) =~= Seq::<Seq<Cell>>::empty()) by {
        reveal_with_fuel(Seq::filter, 2);
    }
    Seq::filter_distributes_over_add(above + middle, below, stays());
    Seq::filter_distributes_over_add(above, middle, stays());
}

/// Every occupied cell holds one of the seven colours.
pub proof fn lemma_cells_hold_listed_colors(grid: Grid, x: int, y: int)
    requires
        grid.contains(x, y),
        grid.at(x, y) is Some,
    ensures
        grid.at(x, y)->Some_0.index() < 7,
        ({
            let c = grid.at(x, y)->Some_0;
            c == Color::Cyan || c == Color::Yellow || c == Color::Purple || c == Color::Orange
                || c == Color::Blue || c == Color::Green || c == Color::Red
        }),
{
}

impl Board {
    /// Clears every full row: the rows above a cleared row move down by one
    /// and a blank row enters at the top. Returns how many rows were cleared.
    pub fn clear_full_rows(&mut self) -> (cleared: usize)
        requires
            old(self).wf(),
        ensures
            final(self).wf(),
            final(self)@ == old(self)@.settled(),
            cleared == old(self)@.full_rows(),
    {
        let ghost before = self@;
        let height = self.rows.len();
        let width = self.width;
        let mut cleared: usize = 0;
        let mut y: usize = 0;
        assert(before.rows.take(0).filter(stays()) =~= Seq::<Seq<Cell>>::empty()) by {
            reveal(Seq::filter);
        }
        assert(self@.rows =~= blank_rows(width as nat, 0) + before.rows.take(0).filter(stays())
            + before.rows.skip(0));
        while y < height
            invariant
                before.wf(),
                before.rows.len() == height,
                height <= MAX_DIM,
                width == before.width,
                self.width == width,
                self.wf(),
                y <= height,
                self.rows@.len() == height,
                cleared + before.rows.take(y as int).filter(stays()).len() == y,
                self@.rows =~= blank_rows(width as nat, cleared as nat) + before.rows.take(
                    y as int,
                ).filter(stays()) + before.rows.skip(y as int),
            decreases height - y,
        {
            let ghost kept = before.rows.take(y as int).filter(stays());
            let ghost current = self@;
            proof {
                lemma_kept_step(before.rows, y as int);
            }
            if self.is_row_full(y) {
                self.rows.remove(y);
                let blank = new_blank_row(width);
                self.rows.insert(0, blank);
                cleared = cleared + 1;
                proof {
                    assert(self@.rows =~= seq![blank_row(width as nat)] + current.rows.remove(y as int));
                    assert(self@.rows =~= blank_rows(width as nat, cleared as nat) + kept
                        + before.rows.skip(y + 1));
                }
            } else {
                proof {
                    assert(self@.rows =~= blank_rows(width as nat, cleared as nat) + kept.push(
                        before.rows[y as int],
                    ) + before.rows.skip(y + 1));
                }
            }
            y = y + 1;
        }
        cleared
    }
}

} // verus!
