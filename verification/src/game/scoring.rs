//! What a clear is worth, and how clears in a row add up.

use vstd::prelude::*;
use crate::game::board::DestroyPattern;
use crate::game::timing::LINES_PER_LEVEL;

verus! {

/// Points for a single line, before multipliers.
pub const SINGLE_POINTS: u32 = 100;

/// Points for two lines at once, before multipliers.
pub const DOUBLE_POINTS: u32 = 300;

/// Points for three lines at once, before multipliers.
pub const TRIPLE_POINTS: u32 = 500;

/// Points for four lines at once, before multipliers.
pub const TETRIS_POINTS: u32 = 800;

/// Points for each clear that a combo already counts.
pub const COMBO_POINTS: u32 = 50;

/// Points for each row that a piece falls under soft drop.
pub const SOFT_DROP_POINTS_PER_ROW: u32 = 1;

/// Points for each row that a piece falls in a hard drop.
pub const HARD_DROP_POINTS_PER_ROW: u32 = 2;

impl DestroyPattern {
    /// The points of the pattern before multipliers.
    pub open spec fn spec_base_points(self) -> nat {
        match self {
            DestroyPattern::Nothing => 0,
            DestroyPattern::Single => SINGLE_POINTS as nat,
            DestroyPattern::Double => DOUBLE_POINTS as nat,
            DestroyPattern::Triple => TRIPLE_POINTS as nat,
            DestroyPattern::Tetris => TETRIS_POINTS as nat,
        }
    }

    /// The points of the pattern before multipliers.
    pub fn base_points(self) -> (points: u32)
        ensures
            points == self.spec_base_points(),
    {
        match self {
            DestroyPattern::Nothing => 0,
            DestroyPattern::Single => SINGLE_POINTS,
            DestroyPattern::Double => DOUBLE_POINTS,
            DestroyPattern::Triple => TRIPLE_POINTS,
            DestroyPattern::Tetris => TETRIS_POINTS,
        }
    }

    /// Whether the clear is a difficult one: only a tetris is.
    pub open spec fn spec_is_difficult(self) -> bool {
        self == DestroyPattern::Tetris
    }

    /// Whether the clear is a difficult one: only a tetris is.
    #[verifier::when_used_as_spec(spec_is_difficult)]
    pub fn is_difficult(self) -> (difficult: bool)
        ensures
            difficult == self.spec_is_difficult(),
    {
        match self {
            DestroyPattern::Tetris => true,
            _ => false,
        }
    }
}

/// A run of clears, one after the other.
#[derive(Clone, Copy, Debug, PartialEq, Eq, Structural)]
pub struct Combo {
    count: u32,
    difficult: bool,
}

/// A run of clears as a value.
pub struct ComboView {
    /// The clears in the run after its first.
    pub count: nat,
    /// Whether every clear of the run was a difficult one.
    pub difficult: bool,
}

impl View for Combo {
    type V = ComboView;

    closed spec fn view(&self) -> ComboView {
        ComboView { count: self.count as nat, difficult: self.difficult }
    }
}

/// The view of a run that may not be there.
pub open spec fn combo_view(combo: Option<Combo>) -> Option<ComboView> {
    match combo {
        Some(c) => Some(c@),
        None => None,
    }
}

/// The run after a clear of `pattern`: a pattern without points ends it, the
/// first clear starts it at count 0, and each further clear counts one up.
/// The run stays difficult only while every clear in it is.
pub open spec fn combo_after(combo: Option<ComboView>, pattern: DestroyPattern) -> Option<
    ComboView,
> {
    if pattern.spec_base_points() == 0 {
        None
    } else {
        match combo {
            None => Some(ComboView { count: 0, difficult: pattern.spec_is_difficult() }),
            Some(c) => Some(
                ComboView {
                    count: c.count + 1,
                    difficult: c.difficult && pattern.spec_is_difficult(),
                },
            ),
        }
    }
}

/// The points that a clear of `pattern` adds at `level`, `combo` being the
/// run with this clear counted in. The base points are multiplied by the
/// level plus one, and by one and a half in a run of difficult clears after
/// its first; each clear that the run counts adds the combo points. A half
/// point rounds up.
pub open spec fn clear_points(level: nat, combo: ComboView, pattern: DestroyPattern) -> nat {
    let halves: nat = if combo.count > 0 && combo.difficult {
        3
    } else {
        2
    };
    let doubled = pattern.spec_base_points() * (level + 1) * halves + 2 * COMBO_POINTS
        * combo.count;
    ((doubled + 1) / 2) as nat
}

/// The points that a clear of `pattern` adds to the score, given the run
/// before the clear.
pub open spec fn score_delta(level: nat, combo: Option<ComboView>, pattern: DestroyPattern) -> nat {
    match combo_after(combo, pattern) {
        Some(c) => clear_points(level, c, pattern),
        None => 0,
    }
}

/// The level once `lines` lines are cleared: one level for every
/// `LINES_PER_LEVEL` lines, but never below the level reached before.
pub open spec fn level_after(level: nat, lines: nat) -> nat {
    if lines / (LINES_PER_LEVEL as nat) > level {
        lines / (LINES_PER_LEVEL as nat)
    } else {
        level
    }
}

impl Combo {
    /// The clears in the run after its first.
    pub fn count(&self) -> (count: u32)
        ensures
            count == self@.count,
    {
        self.count
    }

    /// Whether every clear of the run was a difficult one.
    pub fn difficult(&self) -> (difficult: bool)
        ensures
            difficult == self@.difficult,
    {
        self.difficult
    }

    /// The run after a clear of `pattern`, `previous` being the run before.
    pub fn advance(previous: Option<Combo>, pattern: DestroyPattern) -> (next: Option<Combo>)
        requires
            combo_after(combo_view(previous), pattern) matches Some(c) ==> c.count <= u32::MAX,
        ensures
            combo_view(next) == combo_after(combo_view(previous), pattern),
    {
        if pattern.base_points() == 0 {
            None
        } else {
            match previous {
                None => Some(Combo { count: 0, difficult: pattern.is_difficult() }),
                Some(Combo { count, difficult }) => Some(
                    Combo { count: count + 1, difficult: difficult && pattern.is_difficult() },
                ),
            }
        }
    }

    /// The points that a clear of `pattern` adds at `level`, `self` being the
    /// run with this clear counted in.
    pub fn points(&self, level: u32, pattern: DestroyPattern) -> (points: u64)
        ensures
            points == clear_points(level as nat, self@, pattern),
    {
        let halves: u64 = if self.count > 0 && self.difficult {
            3
        } else {
            2
        };
        let base: u64 = pattern.base_points() as u64;
        let factor: u64 = level as u64 + 1;
        let count: u64 = self.count as u64;
        assert(base * factor * halves <= 800 * 0x1_0000_0000 * 3 && base * factor <= 800
            * 0x1_0000_0000) by (nonlinear_arith)
            requires
                base <= 800,
                factor <= 0x1_0000_0000,
                halves <= 3,
        ;
        assert(2 * COMBO_POINTS * count == 100 * count) by (nonlinear_arith)
            requires
                COMBO_POINTS == 50,
        ;
        let doubled: u64 = base * factor * halves + 2 * (COMBO_POINTS as u64) * count;
        (doubled + 1) / 2
    }
}

} // verus!
