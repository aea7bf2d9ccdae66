//! What a key can mean during a match.

use vstd::prelude::*;

verus! {

/// An action during a match. The actions on a piece name their player.
#[derive(Clone, Copy, Debug, PartialEq, Eq, Structural, Hash)]
pub enum GameInputKey {
    MoveLeft { player: u32 },
    MoveRight { player: u32 },
    SoftDrop { player: u32 },
    HardDrop { player: u32 },
    RotateClockwise { player: u32 },
    RotateAnticlockwise { player: u32 },
    Hold { player: u32 },
    Pause,
    ReturnToMenu,
    NextTheme,
}

} // verus!
