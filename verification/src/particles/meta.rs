//! The sprites of the particle sheet.

use vstd::prelude::*;
use crate::game::tetromino::TetrominoShape;
use crate::geometry::Rect;
use crate::theme::ThemeName;

verus! {

/// The side of one sprite on the sheet, in pixels.
pub const PARTICLE_SPRITE_SIZE: u32 = 512;

/// The sprites in one row of the sheet. The top row holds one more.
pub const SPRITES_PER_ROW: u32 = 7;

/// The rectangle of the sprite in column `i` of row `j` of the sheet.
pub open spec fn sheet_rect(i: int, j: int) -> Rect {
    Rect {
        x: (i * PARTICLE_SPRITE_SIZE) as i32,
        y: (j * PARTICLE_SPRITE_SIZE) as i32,
        width: PARTICLE_SPRITE_SIZE,
        height: PARTICLE_SPRITE_SIZE,
    }
}

fn snip(i: i32, j: i32) -> (rect: Rect)
    requires
        0 <= i <= SPRITES_PER_ROW,
        0 <= j < SPRITES_PER_ROW,
    ensures
        rect == sheet_rect(i as int, j as int),
{
    Rect::new(
        i * PARTICLE_SPRITE_SIZE as i32,
        j * PARTICLE_SPRITE_SIZE as i32,
        PARTICLE_SPRITE_SIZE,
        PARTICLE_SPRITE_SIZE,
    )
}

/// What a particle can look like.
#[derive(Clone, Copy, Debug, PartialEq, Eq, Structural, Hash)]
pub enum ParticleSprite {
    Circle01,
    Circle02,
    Circle03,
    Circle04,
    Circle05,
    Dirt01,
    Dirt02,
    Dirt03,
    Fire01,
    Fire02,
    Flare01,
    Light01,
    Light02,
    Light03,
    Magic01,
    Magic02,
    Magic03,
    Magic04,
    Magic05,
    Scorch01,
    Scorch02,
    Scorch03,
    Smoke01,
    Smoke02,
    Smoke03,
    Smoke04,
    Smoke05,
    Smoke06,
    Smoke07,
    Smoke08,
    Smoke09,
    Smoke10,
    Spark01,
    Spark02,
    Spark03,
    Spark04,
    Star01,
    Star02,
    Star03,
    Star04,
    Star05,
    Star06,
    Star07,
    Star08,
    Star09,
    Symbol01,
    Symbol02,
    Twirl01,
    Twirl02,
    Twirl03,
    /// A piece as a theme draws it. It is not on the sheet.
    Tetromino(ThemeName, TetrominoShape),
}

impl ParticleSprite {
    /// The place of the sprite among the sprites of the sheet, in the order
    /// of their names.
    pub open spec fn ordinal(self) -> Option<nat> {
        match self {
            ParticleSprite::Circle01 => Some(0),
            ParticleSprite::Circle02 => Some(1),
            ParticleSprite::Circle03 => Some(2),
            ParticleSprite::Circle04 => Some(3),
            ParticleSprite::Circle05 => Some(4),
            ParticleSprite::Dirt01 => Some(5),
            ParticleSprite::Dirt02 => Some(6),
            ParticleSprite::Dirt03 => Some(7),
            ParticleSprite::Fire01 => Some(8),
            ParticleSprite::Fire02 => Some(9),
            ParticleSprite::Flare01 => Some(10),
            ParticleSprite::Light01 => Some(11),
            ParticleSprite::Light02 => Some(12),
            ParticleSprite::Light03 => Some(13),
            ParticleSprite::Magic01 => Some(14),
            ParticleSprite::Magic02 => Some(15),
            ParticleSprite::Magic03 => Some(16),
            ParticleSprite::Magic04 => Some(17),
            ParticleSprite::Magic05 => Some(18),
            ParticleSprite::Scorch01 => Some(19),
            ParticleSprite::Scorch02 => Some(20),
            ParticleSprite::Scorch03 => Some(21),
            ParticleSprite::Smoke01 => Some(22),
            ParticleSprite::Smoke02 => Some(23),
            ParticleSprite::Smoke03 => Some(24),
            ParticleSprite::Smoke04 => Some(25),
            ParticleSprite::Smoke05 => Some(26),
            ParticleSprite::Smoke06 => Some(27),
            ParticleSprite::Smoke07 => Some(28),
            ParticleSprite::Smoke08 => Some(29),
            ParticleSprite::Smoke09 => Some(30),
            ParticleSprite::Smoke10 => Some(31),
            ParticleSprite::Spark01 => Some(32),
            ParticleSprite::Spark02 => Some(33),
            ParticleSprite::Spark03 => Some(34),
            ParticleSprite::Spark04 => Some(35),
            ParticleSprite::Star01 => Some(36),
            ParticleSprite::Star02 => Some(37),
            ParticleSprite::Star03 => Some(38),
            ParticleSprite::Star04 => Some(39),
            ParticleSprite::Star05 => Some(40),
            ParticleSprite::Star06 => Some(41),
            ParticleSprite::Star07 => Some(42),
            ParticleSprite::Star08 => Some(43),
            ParticleSprite::Star09 => Some(44),
            ParticleSprite::Symbol01 => Some(45),
            ParticleSprite::Symbol02 => Some(46),
            ParticleSprite::Twirl01 => Some(47),
            ParticleSprite::Twirl02 => Some(48),
            ParticleSprite::Twirl03 => Some(49),
            ParticleSprite::Tetromino(_, _) => None,
        }
    }

    /// The column and the row of the sprite on the sheet. The sprites fill
    /// the sheet row by row in the order of their names, but for the last
    /// one, which stands at the end of the top row.
    pub open spec fn sheet_cell(self) -> Option<(int, int)> {
        match self.ordinal() {
            Some(k) => Some(
                if k == 49 {
                    (SPRITES_PER_ROW as int, 0)
                } else {
                    (k as int % SPRITES_PER_ROW as int, k as int / SPRITES_PER_ROW as int)
                },
            ),
            None => None,
        }
    }

    /// The stars.
    pub fn stars() -> (sprites: [ParticleSprite; 9])
        ensures
            forall|i: int|
                0 <= i < 9 ==> (#[trigger] sprites[i]).ordinal() == Some((36 + i) as nat),
    {
        [
            ParticleSprite::Star01,
            ParticleSprite::Star02,
            ParticleSprite::Star03,
            ParticleSprite::Star04,
            ParticleSprite::Star05,
            ParticleSprite::Star06,
            ParticleSprite::Star07,
            ParticleSprite::Star08,
            ParticleSprite::Star09,
        ]
    }

    /// The circles that are rings.
    pub fn hollow_circles() -> (sprites: [ParticleSprite; 4])
        ensures
            forall|i: int| 0 <= i < 4 ==> (#[trigger] sprites[i]).ordinal() == Some(i as nat),
    {
        [
            ParticleSprite::Circle01,
            ParticleSprite::Circle02,
            ParticleSprite::Circle03,
            ParticleSprite::Circle04,
        ]
    }

    /// The seven pieces as `theme` draws them.
    pub fn tetrominos(theme: ThemeName) -> (sprites: [ParticleSprite; 7])
        ensures
            sprites@ == seq![
                ParticleSprite::Tetromino(theme, TetrominoShape::I),
                ParticleSprite::Tetromino(theme, TetrominoShape::O),
                ParticleSprite::Tetromino(theme, TetrominoShape::T),
                ParticleSprite::Tetromino(theme, TetrominoShape::S),
                ParticleSprite::Tetromino(theme, TetrominoShape::Z),
                ParticleSprite::Tetromino(theme, TetrominoShape::J),
                ParticleSprite::Tetromino(theme, TetrominoShape::L),
            ],
    {
        let sprites = [
            ParticleSprite::Tetromino(theme, TetrominoShape::I),
            ParticleSprite::Tetromino(theme, TetrominoShape::O),
            ParticleSprite::Tetromino(theme, TetrominoShape::T),
            ParticleSprite::Tetromino(theme, TetrominoShape::S),
            ParticleSprite::Tetromino(theme, TetrominoShape::Z),
            ParticleSprite::Tetromino(theme, TetrominoShape::J),
            ParticleSprite::Tetromino(theme, TetrominoShape::L),
        ];
        assert(sprites@ =~= seq![
            ParticleSprite::Tetromino(theme, TetrominoShape::I),
            ParticleSprite::Tetromino(theme, TetrominoShape::O),
            ParticleSprite::Tetromino(theme, TetrominoShape::T),
            ParticleSprite::Tetromino(theme, TetrominoShape::S),
            ParticleSprite::Tetromino(theme, TetrominoShape::Z),
            ParticleSprite::Tetromino(theme, TetrominoShape::J),
            ParticleSprite::Tetromino(theme, TetrominoShape::L),
        ]);
        sprites
    }

    /// The rectangle of the sprite on the sheet, if it is on the sheet.
    pub fn snip(&self) -> (rect: Option<Rect>)
        ensures
            rect == match self.sheet_cell() {
                Some(cell) => Some(sheet_rect(cell.0, cell.1)),
                None => None,
            },
    {
        match self {
            ParticleSprite::Circle01 => Some(snip(0, 0)),
            ParticleSprite::Circle02 => Some(snip(1, 0)),
            ParticleSprite::Circle03 => Some(snip(2, 0)),
            ParticleSprite::Circle04 => Some(snip(3, 0)),
            ParticleSprite::Circle05 => Some(snip(4, 0)),
            ParticleSprite::Dirt01 => Some(snip(5, 0)),
            ParticleSprite::Dirt02 => Some(snip(6, 0)),
            ParticleSprite::Twirl03 => Some(snip(7, 0)),
            ParticleSprite::Dirt03 => Some(snip(0, 1)),
            ParticleSprite::Fire01 => Some(snip(1, 1)),
            ParticleSprite::Fire02 => Some(snip(2, 1)),
            ParticleSprite::Flare01 => Some(snip(3, 1)),
            ParticleSprite::Light01 => Some(snip(4, 1)),
            ParticleSprite::Light02 => Some(snip(5, 1)),
            ParticleSprite::Light03 => Some(snip(6, 1)),
            ParticleSprite::Magic01 => Some(snip(0, 2)),
            ParticleSprite::Magic02 => Some(snip(1, 2)),
            ParticleSprite::Magic03 => Some(snip(2, 2)),
            ParticleSprite::Magic04 => Some(snip(3, 2)),
            ParticleSprite::Magic05 => Some(snip(4, 2)),
            ParticleSprite::Scorch01 => Some(snip(5, 2)),
            ParticleSprite::Scorch02 => Some(snip(6, 2)),
            ParticleSprite::Scorch03 => Some(snip(0, 3)),
            ParticleSprite::Smoke01 => Some(snip(1, 3)),
            ParticleSprite::Smoke02 => Some(snip(2, 3)),
            ParticleSprite::Smoke03 => Some(snip(3, 3)),
            ParticleSprite::Smoke04 => Some(snip(4, 3)),
            ParticleSprite::Smoke05 => Some(snip(5, 3)),
            ParticleSprite::Smoke06 => Some(snip(6, 3)),
            ParticleSprite::Smoke07 => Some(snip(0, 4)),
            ParticleSprite::Smoke08 => Some(snip(1, 4)),
            ParticleSprite::Smoke09 => Some(snip(2, 4)),
            ParticleSprite::Smoke10 => Some(snip(3, 4)),
            ParticleSprite::Spark01 => Some(snip(4, 4)),
            ParticleSprite::Spark02 => Some(snip(5, 4)),
            ParticleSprite::Spark03 => Some(snip(6, 4)),
            ParticleSprite::Spark04 => Some(snip(0, 5)),
            ParticleSprite::Star01 => Some(snip(1, 5)),
            ParticleSprite::Star02 => Some(snip(2, 5)),
            ParticleSprite::Star03 => Some(snip(3, 5)),
            ParticleSprite::Star04 => Some(snip(4, 5)),
            ParticleSprite::Star05 => Some(snip(5, 5)),
            ParticleSprite::Star06 => Some(snip(6, 5)),
            ParticleSprite::Star07 => Some(snip(0, 6)),
            ParticleSprite::Star08 => Some(snip(1, 6)),
            ParticleSprite::Star09 => Some(snip(2, 6)),
            ParticleSprite::Symbol01 => Some(snip(3, 6)),
            ParticleSprite::Symbol02 => Some(snip(4, 6)),
            ParticleSprite::Twirl01 => Some(snip(5, 6)),
            ParticleSprite::Twirl02 => Some(snip(6, 6)),
            ParticleSprite::Tetromino(_, _) => None,
        }
    }
}

} // verus!
