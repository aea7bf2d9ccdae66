//! The seven pieces, their four orientations, and the cells they cover.

use vstd::prelude::*;
use crate::game::geometry::Point;

verus! {

/// The seven one-sided tetrominoes.
#[derive(Clone, Copy, Debug, PartialEq, Eq, Structural, Hash)]
pub enum TetrominoShape {
    I,
    O,
    T,
    S,
    Z,
    J,
    L,
}

/// An orientation, named by where the top of the spawn orientation points.
#[derive(Clone, Copy, Debug, PartialEq, Eq, Structural, Hash)]
pub enum Rotation {
    North,
    East,
    South,
    West,
}

impl Rotation {
    /// The orientation a quarter turn on.
    pub open spec fn spec_turned(self, clockwise: bool) -> Rotation {
        match self {
            Rotation::North => if clockwise { Rotation::East } else { Rotation::West },
            Rotation::East => if clockwise { Rotation::South } else { Rotation::North },
            Rotation::South => if clockwise { Rotation::West } else { Rotation::East },
            Rotation::West => if clockwise { Rotation::North } else { Rotation::South },
        }
    }

    /// The orientation a quarter turn on.
    #[verifier::when_used_as_spec(spec_turned)]
    pub fn turned(self, clockwise: bool) -> (r: Rotation)
        ensures
            r == self.spec_turned(clockwise),
    {
        match self {
            Rotation::North => if clockwise { Rotation::East } else { Rotation::West },
            Rotation::East => if clockwise { Rotation::South } else { Rotation::North },
            Rotation::South => if clockwise { Rotation::West } else { Rotation::East },
            Rotation::West => if clockwise { Rotation::North } else { Rotation::South },
        }
    }
}

impl TetrominoShape {
    /// The side of the square box in which the shape turns.
    pub open spec fn spec_box_size(self) -> int {
        match self {
            TetrominoShape::I => 4,
            TetrominoShape::O => 2,
            _ => 3,
        }
    }

    /// The side of the square box in which the shape turns.
    pub fn box_size(self) -> (n: i32)
        ensures
            n == self.spec_box_size(),
    {
        match self {
            TetrominoShape::I => 4,
            TetrominoShape::O => 2,
            _ => 3,
        }
    }

    /// The four cells of the spawn orientation inside the box, the box's
    /// lower left corner being (0, 0).
    pub open spec fn base_cells(self) -> Seq<(int, int)> {
        match self {
            TetrominoShape::I => seq![(0, 2), (1, 2), (2, 2), (3, 2)],
            TetrominoShape::O => seq![(0, 0), (1, 0), (0, 1), (1, 1)],
            TetrominoShape::T => seq![(0, 1), (1, 1), (2, 1), (1, 2)],
            TetrominoShape::S => seq![(0, 1), (1, 1), (1, 2), (2, 2)],
            TetrominoShape::Z => seq![(1, 1), (2, 1), (0, 2), (1, 2)],
            TetrominoShape::J => seq![(0, 1), (1, 1), (2, 1), (0, 2)],
            TetrominoShape::L => seq![(0, 1), (1, 1), (2, 1), (2, 2)],
        }
    }

    /// The lowest row of the box that the spawn orientation touches.
    pub open spec fn spec_base_floor(self) -> int {
        match self {
            TetrominoShape::I => 2,
            TetrominoShape::O => 0,
            _ => 1,
        }
    }

    /// The lowest row of the box that the spawn orientation touches.
    pub fn base_floor(self) -> (n: i32)
        ensures
            n == self.spec_base_floor(),
    {
        match self {
            TetrominoShape::I => 2,
            TetrominoShape::O => 0,
            _ => 1,
        }
    }

    /// Cell `i` of the spawn orientation.
    fn base_cell(self, i: usize) -> (c: (i32, i32))
        requires
            i < 4,
        ensures
            (c.0 as int, c.1 as int) == self.base_cells()[i as int],
            0 <= c.0 < self.spec_box_size(),
            0 <= c.1 < self.spec_box_size(),
    {
        match self {
            TetrominoShape::I => (i as i32, 2),
            TetrominoShape::O => if i == 0 {
                (0, 0)
            } else if i == 1 {
                (1, 0)
            } else if i == 2 {
                (0, 1)
            } else {
                (1, 1)
            },
            TetrominoShape::T => if i < 3 {
                (i as i32, 1)
            } else {
                (1, 2)
            },
            TetrominoShape::S => if i == 0 {
                (0, 1)
            } else if i == 1 {
                (1, 1)
            } else if i == 2 {
                (1, 2)
            } else {
                (2, 2)
            },
            TetrominoShape::Z => if i == 0 {
                (1, 1)
            } else if i == 1 {
                (2, 1)
            } else if i == 2 {
                (0, 2)
            } else {
                (1, 2)
            },
            TetrominoShape::J => if i < 3 {
                (i as i32, 1)
            } else {
                (0, 2)
            },
            TetrominoShape::L => if i < 3 {
                (i as i32, 1)
            } else {
                (2, 2)
            },
        }
    }
}

/// Where a cell of the spawn orientation lies after the box of side `n` has
/// been turned to `rotation`.
pub open spec fn turn_cell(cell: (int, int), n: int, rotation: Rotation) -> (int, int) {
    match rotation {
        Rotation::North => cell,
        Rotation::East => (cell.1, n - 1 - cell.0),
        Rotation::South => (n - 1 - cell.0, n - 1 - cell.1),
        Rotation::West => (n - 1 - cell.1, cell.0),
    }
}

/// A piece on the playfield: a shape, an orientation, and the position of the
/// lower left corner of its box.
#[derive(Clone, Copy, Debug, PartialEq, Eq, Structural)]
pub struct Tetromino {
    pub shape: TetrominoShape,
    pub rotation: Rotation,
    pub x: i32,
    pub y: i32,
}

/// The row on which the lowest minos of a new piece appear: the first one
/// above the visible field.
pub const SPAWN_ROW: i32 = 20;

/// The width that a new piece is centred in.
pub const SPAWN_WIDTH: i32 = 10;

impl Tetromino {
    /// The piece as it enters the field: spawn orientation, centred, its
    /// lowest minos on `SPAWN_ROW`.
    pub open spec fn spec_spawn(shape: TetrominoShape) -> Tetromino {
        Tetromino {
            shape,
            rotation: Rotation::North,
            x: ((SPAWN_WIDTH - shape.spec_box_size()) / 2) as i32,
            y: (SPAWN_ROW - shape.spec_base_floor()) as i32,
        }
    }

    /// The piece as it enters the field.
    #[verifier::when_used_as_spec(spec_spawn)]
    pub fn spawn(shape: TetrominoShape) -> (t: Tetromino)
        ensures
            t == Tetromino::spec_spawn(shape),
    {
        Tetromino {
            shape,
            rotation: Rotation::North,
            x: (SPAWN_WIDTH - shape.box_size()) / 2,
            y: SPAWN_ROW - shape.base_floor(),
        }
    }

    /// The position of mino `i`, for `i` from 0 to 3.
    pub open spec fn spec_mino(self, i: int) -> (int, int) {
        let c = turn_cell(self.shape.base_cells()[i], self.shape.spec_box_size(), self.rotation);
        (self.x + c.0, self.y + c.1)
    }

    /// Whether one of the four minos lies on column `x` of row `y`.
    pub open spec fn covers(self, x: int, y: int) -> bool {
        ||| self.spec_mino(0) == (x, y)
        ||| self.spec_mino(1) == (x, y)
        ||| self.spec_mino(2) == (x, y)
        ||| self.spec_mino(3) == (x, y)
    }

    /// The piece moved by `dx` columns and `dy` rows.
    pub open spec fn spec_shifted(self, dx: int, dy: int) -> Tetromino {
        Tetromino { x: (self.x + dx) as i32, y: (self.y + dy) as i32, ..self }
    }

    /// The piece a quarter turn on, in the same box.
    pub open spec fn spec_turned(self, clockwise: bool) -> Tetromino {
        Tetromino { rotation: self.rotation.spec_turned(clockwise), ..self }
    }

    /// Every mino lies inside the box, which is at most four cells wide.
    pub proof fn lemma_mino_in_box(self, i: int)
        requires
            0 <= i < 4,
        ensures
            self.x <= self.spec_mino(i).0 <= self.x + 3,
            self.y <= self.spec_mino(i).1 <= self.y + 3,
    {
    }

    /// A piece moved straight down or up moves each of its minos by as much.
    pub proof fn lemma_lowest_mino(self, moved: Tetromino)
        requires
            moved == (Tetromino { y: moved.y, ..self }),
        ensures
            forall|i: int|
                0 <= i < 4 ==> #[trigger] moved.spec_mino(i) == (
                    self.spec_mino(i).0,
                    self.spec_mino(i).1 + moved.y - self.y,
                ),
    {
    }

    /// The position of mino `i`.
    pub fn mino(&self, i: usize) -> (p: Point)
        requires
            i < 4,
            self.x + 3 <= i32::MAX,
            self.y + 3 <= i32::MAX,
        ensures
            (p.x as int, p.y as int) == self.spec_mino(i as int),
            self.x <= p.x <= self.x + 3,
            self.y <= p.y <= self.y + 3,
    {
        let n: i32 = self.shape.box_size();
        let c: (i32, i32) = self.shape.base_cell(i);
        let (dx, dy): (i32, i32) = match self.rotation {
            Rotation::North => c,
            Rotation::East => (c.1, n - 1 - c.0),
            Rotation::South => (n - 1 - c.0, n - 1 - c.1),
            Rotation::West => (n - 1 - c.1, c.0),
        };
        Point::new(self.x + dx, self.y + dy)
    }

    /// The piece moved by `dx` columns and `dy` rows.
    pub fn shifted(&self, dx: i32, dy: i32) -> (t: Tetromino)
        requires
            i32::MIN <= self.x + dx <= i32::MAX,
            i32::MIN <= self.y + dy <= i32::MAX,
        ensures
            t == self.spec_shifted(dx as int, dy as int),
    {
        Tetromino { shape: self.shape, rotation: self.rotation, x: self.x + dx, y: self.y + dy }
    }

    /// The piece a quarter turn on, in the same box.
    #[verifier::when_used_as_spec(spec_turned)]
    pub fn turned(self, clockwise: bool) -> (t: Tetromino)
        ensures
            t == self.spec_turned(clockwise),
    {
        Tetromino {
            shape: self.shape,
            rotation: self.rotation.turned(clockwise),
            x: self.x,
            y: self.y,
        }
    }
}

} // verus!
