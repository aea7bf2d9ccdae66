//! What one cell of the playfield holds.

use vstd::prelude::*;
use crate::game::tetromino::TetrominoShape;

verus! {

/// The content of one cell.
#[derive(Clone, Copy, Debug, PartialEq, Eq, Structural)]
pub enum BlockState {
    /// Nothing is here.
    Empty,
    /// A mino of the piece that is still in play.
    Tetromino(TetrominoShape),
    /// A mino that has been locked into the stack.
    Stack(TetrominoShape),
}

impl BlockState {
    /// The cell as the stack sees it: a mino of the piece in play is not
    /// part of the stack.
    pub open spec fn settled(self) -> BlockState {
        match self {
            BlockState::Tetromino(_) => BlockState::Empty,
            other => other,
        }
    }

    /// Whether the stack occupies the cell.
    pub fn is_stack(&self) -> (r: bool)
        ensures
            r == (*self is Stack),
    {
        match self {
            BlockState::Stack(_) => true,
            _ => false,
        }
    }
}

} // verus!
