//! The square grid the game is played on.
//!
//! The board is a fixed `SIZE` x `SIZE` grid of cells, each holding exactly
//! one [`Piece`]. Its mathematical model is a flat row-major sequence of
//! pieces; [`cell`] reads one cell of such a sequence and [`place`] writes
//! one. A cell once set to a color is never changed back by any operation
//! the board offers: `set` refuses occupied cells.

use vstd::prelude::*;

use crate::model::{MoveError, Piece};

verus! {

/// Side length of the square board.
pub const SIZE: usize = 6;

/// Whether `(row, col)` addresses a cell of the grid.
pub open spec fn in_bounds(row: int, col: int) -> bool {
    0 <= row < SIZE && 0 <= col < SIZE
}

/// Position of cell `(row, col)` in the row-major model sequence.
pub open spec fn cell_index(row: int, col: int) -> int {
    row * (SIZE as int) + col
}

/// The piece held by cell `(row, col)` of the model sequence `s`.
pub open spec fn cell(s: Seq<Piece>, row: int, col: int) -> Piece {
    s[cell_index(row, col)]
}

/// The model sequence `s` with `piece` written into cell `(row, col)`.
pub open spec fn place(s: Seq<Piece>, row: int, col: int, piece: Piece) -> Seq<Piece> {
    s.update(cell_index(row, col), piece)
}

/// Whether every cell of the model sequence holds a non-empty piece.
pub open spec fn board_full(s: Seq<Piece>) -> bool {
    forall|i: int| 0 <= i < s.len() ==> s[i] != Piece::Empty
}

/// How many cells of the model sequence hold a non-empty piece.
pub open spec fn num_nonempty(s: Seq<Piece>) -> nat {
    Set::new(|i: int| 0 <= i < s.len() && s[i] != Piece::Empty).len()
}

/// Two distinct in-bounds cells occupy distinct positions of the model
/// sequence: the row-major index is injective on the grid.
pub proof fn lemma_cell_index_injective(r1: int, c1: int, r2: int, c2: int)
    requires
        in_bounds(r1, c1),
        in_bounds(r2, c2),
        cell_index(r1, c1) == cell_index(r2, c2),
    ensures
        r1 == r2 && c1 == c2,
{
}

/// Once placed, a piece stays: writing `p` to an empty cell makes that cell
/// read back `p`, and a later write to any other cell leaves it untouched.
/// Together with `Board::set`'s contract - a write succeeds only on an empty
/// cell, and a failed write changes nothing - this pins the write-once
/// behavior of every cell for arbitrary sequences of operations.
pub proof fn lemma_piece_persists(
    s: Seq<Piece>,
    row: int,
    col: int,
    p: Piece,
    row2: int,
    col2: int,
    q: Piece,
)
    requires
        s.len() == SIZE * SIZE,
        in_bounds(row, col),
        in_bounds(row2, col2),
        row2 != row || col2 != col,
    ensures
        cell(place(s, row, col, p), row, col) == p,
        cell(place(place(s, row, col, p), row2, col2, q), row, col) == p,
{
    assert(cell_index(row, col) != cell_index(row2, col2)) by {
        if cell_index(row, col) == cell_index(row2, col2) {
            lemma_cell_index_injective(row, col, row2, col2);
        }
    }
    assert(0 <= cell_index(row, col) < SIZE * SIZE);
    assert(0 <= cell_index(row2, col2) < SIZE * SIZE);
}

/// A fixed `SIZE` x `SIZE` grid of cells. Created fully empty; mutated one
/// cell at a time through [`Board::set`], which never overwrites a placed
/// piece.
pub struct Board {
    cells: Vec<Piece>,
}

impl View for Board {
    type V = Seq<Piece>;

    /// The board as a flat row-major sequence of its cells.
    closed spec fn view(&self) -> Seq<Piece> {
        self.cells@
    }
}

impl Board {
    /// The board's one structural invariant: the grid has exactly
    /// `SIZE * SIZE` cells. Every constructor establishes it and every
    /// operation preserves it.
    pub open spec fn wf(&self) -> bool {
        self@.len() == SIZE * SIZE
    }

    /// Creates the board with every cell empty.
    pub fn new() -> (b: Board)
        ensures
            b.wf(),
            forall|i: int| 0 <= i < SIZE * SIZE ==> b@[i] == Piece::Empty,
    {
        let mut cells: Vec<Piece> = Vec::new();
        let mut i: usize = 0;
        while i < SIZE * SIZE
            invariant
                i <= SIZE * SIZE,
                cells@.len() == i,
                forall|j: int| 0 <= j < i ==> cells@[j] == Piece::Empty,
            decreases SIZE * SIZE - i,
        {
            cells.push(Piece::Empty);
            i = i + 1;
        }
        Board { cells }
    }

    /// Reads the cell at `(row, col)`, which must lie on the grid.
    pub fn at(&self, row: usize, col: usize) -> (p: Piece)
        requires
            self.wf(),
            row < SIZE,
            col < SIZE,
        ensures
            p == cell(self@, row as int, col as int),
    {
        self.cells[row * SIZE + col]
    }

    /// Reads the cell at `(row, col)`, rejecting coordinates off the grid
    /// with `OutOfBounds`. Has no side effect.
    pub fn get(&self, row: usize, col: usize) -> (r: Result<Piece, MoveError>)
        requires
            self.wf(),
        ensures
            in_bounds(row as int, col as int) ==> r == Ok::<Piece, MoveError>(
                cell(self@, row as int, col as int),
            ),
            !in_bounds(row as int, col as int) ==> r == Err::<Piece, MoveError>(
                MoveError::OutOfBounds,
            ),
    {
        if row < SIZE && col < SIZE {
            Ok(self.at(row, col))
        } else {
            Err(MoveError::OutOfBounds)
        }
    }

    /// Writes `piece` into the cell at `(row, col)`: the board's only
    /// mutator. Fails with `OutOfBounds` off the grid and with
    /// `CellOccupied` when the cell already holds a piece; a failed write
    /// leaves the board exactly as it was.
    pub fn set(&mut self, row: usize, col: usize, piece: Piece) -> (r: Result<(), MoveError>)
        requires
            old(self).wf(),
        ensures
            final(self).wf(),
            r == Ok::<(), MoveError>(()) <==> (in_bounds(row as int, col as int) && cell(
                old(self)@,
                row as int,
                col as int,
            ) == Piece::Empty),
            !in_bounds(row as int, col as int) ==> r == Err::<(), MoveError>(
                MoveError::OutOfBounds,
            ) && final(self)@ == old(self)@,
            in_bounds(row as int, col as int) && cell(old(self)@, row as int, col as int)
                != Piece::Empty ==> r == Err::<(), MoveError>(MoveError::CellOccupied)
                && final(self)@ == old(self)@,
            r == Ok::<(), MoveError>(()) ==> final(self)@ == place(
                old(self)@,
                row as int,
                col as int,
                piece,
            ),
    {
        if row >= SIZE || col >= SIZE {
            return Err(MoveError::OutOfBounds);
        }
        let idx = row * SIZE + col;
        if !matches!(self.cells[idx], Piece::Empty) {
            return Err(MoveError::CellOccupied);
        }
        self.cells[idx] = piece;
        Ok(())
    }

    /// True iff no cell of the board is empty.
    pub fn is_full(&self) -> (r: bool)
        requires
            self.wf(),
        ensures
            r == board_full(self@),
    {
        let mut i: usize = 0;
        while i < SIZE * SIZE
            invariant
                self.wf(),
                i <= SIZE * SIZE,
                forall|j: int| 0 <= j < i ==> self@[j] != Piece::Empty,
            decreases SIZE * SIZE - i,
        {
            if matches!(self.cells[i], Piece::Empty) {
                return false;
            }
            i = i + 1;
        }
        true
    }

    /// The grid's rows in order, each an ordered sequence of its `SIZE`
    /// pieces: the row-major snapshot a renderer consumes. Does not mutate
    /// the board.
    pub fn rows(&self) -> (r: Vec<Vec<Piece>>)
        requires
            self.wf(),
        ensures
            r@.len() == SIZE,
            forall|i: int| 0 <= i < SIZE ==> #[trigger] r@[i]@.len() == SIZE,
            forall|i: int, j: int|
                0 <= i < SIZE && 0 <= j < SIZE ==> #[trigger] r@[i]@[j] == cell(self@, i, j),
    {
        let mut rows: Vec<Vec<Piece>> = Vec::new();
        let mut i: usize = 0;
        while i < SIZE
            invariant
                self.wf(),
                i <= SIZE,
                rows@.len() == i,
                forall|a: int| 0 <= a < i ==> #[trigger] rows@[a]@.len() == SIZE,
                forall|a: int, b: int|
                    0 <= a < i && 0 <= b < SIZE ==> #[trigger] rows@[a]@[b] == cell(self@, a, b),
            decreases SIZE - i,
        {
            let mut row: Vec<Piece> = Vec::new();
            let mut j: usize = 0;
            while j < SIZE
                invariant
                    self.wf(),
                    i < SIZE,
                    j <= SIZE,
                    row@.len() == j,
                    forall|b: int| 0 <= b < j ==> #[trigger] row@[b] == cell(self@, i as int, b),
                decreases SIZE - j,
            {
                row.push(self.at(i, j));
                j = j + 1;
            }
            rows.push(row);
            i = i + 1;
        }
        rows
    }
}

} // verus!
