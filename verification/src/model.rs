//! The plain value types of the game: the piece placed on a cell, the two
//! roles, and the errors a move can be rejected with.

use vstd::prelude::*;

verus! {

/// What one cell of the board holds: nothing yet, or one of the two piece
/// colors. Both roles may place either color; pieces are not owned by a role.
#[derive(Clone, Copy, Debug, PartialEq, Eq, Structural)]
pub enum Piece {
    Empty,
    ColorA,
    ColorB,
}

/// The two sides of the game. Order tries to complete a run of exactly five
/// like-colored pieces; Chaos tries to fill the board without one appearing.
#[derive(Clone, Copy, Debug, PartialEq, Eq, Structural)]
pub enum Role {
    Order,
    Chaos,
}

impl Role {
    /// The other role: who moves once this role has moved.
    pub open spec fn opposite_spec(self) -> Role {
        if self == Role::Order {
            Role::Chaos
        } else {
            Role::Order
        }
    }

    /// Returns the other role.
    pub fn opposite(self) -> (r: Role)
        ensures
            r == self.opposite_spec(),
    {
        match self {
            Role::Order => Role::Chaos,
            Role::Chaos => Role::Order,
        }
    }
}

/// Why a move was rejected: the coordinates lie outside the grid, or the
/// addressed cell already holds a piece. Every rejection is one of these two.
#[derive(Clone, Copy, Debug, PartialEq, Eq, Structural)]
pub enum MoveError {
    OutOfBounds,
    CellOccupied,
}

} // verus!
