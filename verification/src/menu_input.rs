//! What a key can mean in a menu.

use vstd::prelude::*;

verus! {

/// An action in a menu.
#[derive(Clone, Copy, Debug, PartialEq, Eq, Structural, Hash)]
pub enum MenuInputKey {
    Up,
    Down,
    Left,
    Right,
    Select,
    Start,
    Quit,
}

} // verus!
