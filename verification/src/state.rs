//! Move application and turn alternation.
//!
//! A [`GameState`] owns one [`Board`] and the role whose turn it is. Order
//! moves first; a successful move flips the active role, a rejected move
//! changes nothing. Win detection is deliberately not performed here: the
//! caller queries the evaluator after each successful move, keeping move
//! application and win detection decoupled.

use vstd::prelude::*;

use crate::board::{Board, cell, in_bounds, place, SIZE};
use crate::model::{MoveError, Piece, Role};

verus! {

/// One game in progress: the board and the side entitled to move next.
pub struct GameState {
    pub board: Board,
    pub turn_player: Role,
}

impl GameState {
    /// A game state is well formed when its board is.
    pub open spec fn wf(&self) -> bool {
        self.board.wf()
    }

    /// Starts a fresh game: every cell empty, Order to move.
    pub fn new_game() -> (g: GameState)
        ensures
            g.wf(),
            g.turn_player == Role::Order,
            forall|i: int| 0 <= i < SIZE * SIZE ==> g.board@[i] == Piece::Empty,
    {
        GameState { board: Board::new(), turn_player: Role::Order }
    }

    /// Attempts to place `piece` at `coordinates`, given as `(row, col)`.
    ///
    /// On success the piece is stored and the active role flips; on failure
    /// the board and the active role are left exactly as they were and the
    /// rejection is surfaced to the caller: `OutOfBounds` for coordinates
    /// off the grid, `CellOccupied` for a cell already holding a piece. The
    /// active role flips iff the call succeeds.
    pub fn play(&mut self, coordinates: (usize, usize), piece: Piece) -> (r: Result<
        (),
        MoveError,
    >)
        requires
            old(self).wf(),
        ensures
            final(self).wf(),
            r == Ok::<(), MoveError>(()) <==> (in_bounds(
                coordinates.0 as int,
                coordinates.1 as int,
            ) && cell(old(self).board@, coordinates.0 as int, coordinates.1 as int)
                == Piece::Empty),
            r == Ok::<(), MoveError>(()) ==> final(self).board@ == place(
                old(self).board@,
                coordinates.0 as int,
                coordinates.1 as int,
                piece,
            ),
            final(self).turn_player == if r == Ok::<(), MoveError>(()) {
                old(self).turn_player.opposite_spec()
            } else {
                old(self).turn_player
            },
            !in_bounds(coordinates.0 as int, coordinates.1 as int) ==> r == Err::<
                (),
                MoveError,
            >(MoveError::OutOfBounds),
            r != Ok::<(), MoveError>(()) ==> final(self).board@ == old(self).board@ && (r
                == Err::<(), MoveError>(MoveError::OutOfBounds) || r == Err::<(), MoveError>(
                MoveError::CellOccupied,
            )),
            in_bounds(coordinates.0 as int, coordinates.1 as int) && cell(
                old(self).board@,
                coordinates.0 as int,
                coordinates.1 as int,
            ) != Piece::Empty ==> r == Err::<(), MoveError>(MoveError::CellOccupied),
    {
        let (row, col) = coordinates;
        match self.board.set(row, col, piece) {
            Ok(()) => {
                self.turn_player = self.turn_player.opposite();
                Ok(())
            },
            Err(e) => Err(e),
        }
    }
}

} // verus!
