//! The looks of a match.

pub mod modern;

use vstd::prelude::*;

verus! {

/// The themes by name.
#[derive(Clone, Copy, Debug, PartialEq, Eq, Structural, Hash)]
pub enum ThemeName {
    GameBoy,
    Nes,
    Snes,
    Modern,
}

} // verus!
