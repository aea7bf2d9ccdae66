//! The playfield: the stack of locked minos, the piece in play, and the
//! moves that the match asks of it.
//!
//! The field is `BOARD_WIDTH` columns wide and `BOARD_HEIGHT` rows high, row
//! 0 being the floor. A piece enters lying down, centred, on the first rows
//! above the visible field. It moves by one cell at a time and turns inside
//! its box; a move or a turn that would take a mino out of the field or onto
//! the stack does not happen. A row that the stack fills from wall to wall is
//! full; full rows stay until they are destroyed.

use vstd::prelude::*;
use crate::game::block::BlockState;
use crate::game::tetromino::{Tetromino, TetrominoShape};

verus! {

/// Columns of the playfield.
pub const BOARD_WIDTH: u32 = 10;

/// Rows of the playfield, the rows above the visible field included.
pub const BOARD_HEIGHT: u32 = 40;

/// The most moves that may put off the lock of one piece.
pub const MAX_LOCK_PLACEMENTS: u32 = 15;

/// The rows that are complete and wait to be removed, by their number.
#[derive(Clone, Copy, Debug, PartialEq, Eq, Structural)]
pub enum DestroyPattern {
    Nothing,
    Single,
    Double,
    Triple,
    Tetris,
}

impl DestroyPattern {
    /// How many rows the pattern removes.
    pub open spec fn spec_lines(self) -> nat {
        match self {
            DestroyPattern::Nothing => 0,
            DestroyPattern::Single => 1,
            DestroyPattern::Double => 2,
            DestroyPattern::Triple => 3,
            DestroyPattern::Tetris => 4,
        }
    }

    /// How many rows the pattern removes.
    pub fn lines(self) -> (n: u32)
        ensures
            n == self.spec_lines(),
    {
        match self {
            DestroyPattern::Nothing => 0,
            DestroyPattern::Single => 1,
            DestroyPattern::Double => 2,
            DestroyPattern::Triple => 3,
            DestroyPattern::Tetris => 4,
        }
    }

    /// The pattern that `count` complete rows make: four or more are a tetris.
    pub open spec fn of_count(count: nat) -> DestroyPattern {
        if count == 0 {
            DestroyPattern::Nothing
        } else if count == 1 {
            DestroyPattern::Single
        } else if count == 2 {
            DestroyPattern::Double
        } else if count == 3 {
            DestroyPattern::Triple
        } else {
            DestroyPattern::Tetris
        }
    }
}

/// A move that a player asks of the piece in play.
#[derive(Clone, Copy, Debug, PartialEq, Eq, Structural)]
pub enum Motion {
    /// One column to the left.
    Left,
    /// One column to the right.
    Right,
    /// A quarter turn.
    Rotate { clockwise: bool },
}

/// A grid of cells, row 0 at the floor.
pub type Grid = Seq<Seq<BlockState>>;

/// Whether the grid has the playfield's height and width.
pub open spec fn grid_sized(g: Grid) -> bool {
    &&& g.len() == BOARD_HEIGHT
    &&& forall|y: int| 0 <= y < BOARD_HEIGHT ==> (#[trigger] g[y]).len() == BOARD_WIDTH
}

/// Whether column `x` of row `y` is a cell of the playfield.
pub open spec fn in_field(x: int, y: int) -> bool {
    0 <= x < BOARD_WIDTH && 0 <= y < BOARD_HEIGHT
}

/// The cell on column `x` of row `y`.
pub open spec fn cell_at(g: Grid, x: int, y: int) -> BlockState {
    g[y][x]
}

/// A row with nothing in it.
pub open spec fn empty_row() -> Seq<BlockState> {
    Seq::new(BOARD_WIDTH as nat, |x: int| BlockState::Empty)
}

/// The grid with `value` written into the four cells that `t` covers.
pub open spec fn painted(g: Grid, t: Tetromino, value: BlockState) -> Grid {
    Seq::new(
        BOARD_HEIGHT as nat,
        |y: int|
            Seq::new(
                BOARD_WIDTH as nat,
                |x: int|
                    if t.covers(x, y) {
                        value
                    } else {
                        g[y][x]
                    },
            ),
    )
}

/// The playfield as a value: the stack, the piece in play, and how often a
/// move has put off that piece's lock.
pub struct BoardView {
    /// The locked minos. No cell of it holds `BlockState::Tetromino`.
    pub stack: Grid,
    /// The piece in play, if there is one.
    pub active: Option<Tetromino>,
    /// The moves under lock that were counted for the piece in play.
    pub lock_placements: nat,
}

impl BoardView {
    /// The playfield before the first piece.
    pub open spec fn empty() -> BoardView {
        BoardView {
            stack: Seq::new(BOARD_HEIGHT as nat, |y: int| empty_row()),
            active: None,
            lock_placements: 0,
        }
    }

    /// The stack has the field's size and holds locked minos only, and the
    /// piece in play overlaps neither the stack nor the walls.
    pub open spec fn wf(self) -> bool {
        &&& grid_sized(self.stack)
        &&& forall|x: int, y: int|
            in_field(x, y) ==> !(#[trigger] cell_at(self.stack, x, y) is Tetromino)
        &&& self.active matches Some(t) ==> self.fits(t)
    }

    /// Whether the cell exists and the stack leaves it open.
    pub open spec fn is_free(self, cell: (int, int)) -> bool {
        in_field(cell.0, cell.1) && self.stack[cell.1][cell.0] is Empty
    }

    /// Whether all four minos of `t` lie on open cells.
    pub open spec fn fits(self, t: Tetromino) -> bool {
        &&& self.is_free(t.spec_mino(0))
        &&& self.is_free(t.spec_mino(1))
        &&& self.is_free(t.spec_mino(2))
        &&& self.is_free(t.spec_mino(3))
    }

    /// Whether a new piece of `shape` has room to enter.
    pub open spec fn can_spawn(self, shape: TetrominoShape) -> bool {
        self.fits(Tetromino::spec_spawn(shape))
    }

    /// The field after an attempt to bring in a piece of `shape`: where it
    /// has room it becomes the piece in play and the count of lock placements
    /// starts anew, else nothing changes.
    pub open spec fn spawned(self, shape: TetrominoShape) -> BoardView {
        if self.can_spawn(shape) {
            BoardView {
                active: Some(Tetromino::spec_spawn(shape)),
                lock_placements: 0,
                ..self
            }
        } else {
            self
        }
    }

    /// Whether there is a piece in play that can move by (`dx`, `dy`).
    pub open spec fn can_shift(self, dx: int, dy: int) -> bool {
        self.active matches Some(t) && self.fits(t.spec_shifted(dx, dy))
    }

    /// The field after an attempt to move the piece in play by (`dx`, `dy`).
    pub open spec fn shifted(self, dx: int, dy: int) -> BoardView {
        if self.can_shift(dx, dy) {
            BoardView { active: Some(self.active->0.spec_shifted(dx, dy)), ..self }
        } else {
            self
        }
    }

    /// Whether there is a piece in play that can make a quarter turn.
    pub open spec fn can_turn(self, clockwise: bool) -> bool {
        self.active matches Some(t) && self.fits(t.spec_turned(clockwise))
    }

    /// The field after an attempt to turn the piece in play.
    pub open spec fn turned(self, clockwise: bool) -> BoardView {
        if self.can_turn(clockwise) {
            BoardView { active: Some(self.active->0.spec_turned(clockwise)), ..self }
        } else {
            self
        }
    }

    /// Whether there is a piece in play that can make the move.
    pub open spec fn can_move(self, motion: Motion) -> bool {
        match motion {
            Motion::Left => self.can_shift(-1, 0),
            Motion::Right => self.can_shift(1, 0),
            Motion::Rotate { clockwise } => self.can_turn(clockwise),
        }
    }

    /// The field after an attempt at the move.
    pub open spec fn moved(self, motion: Motion) -> BoardView {
        match motion {
            Motion::Left => self.shifted(-1, 0),
            Motion::Right => self.shifted(1, 0),
            Motion::Rotate { clockwise } => self.turned(clockwise),
        }
    }

    /// Whether the piece in play rests on the floor or on the stack.
    pub open spec fn is_collision(self) -> bool {
        self.active is Some && !self.can_shift(0, -1)
    }

    /// The field after the piece in play has become part of the stack.
    pub open spec fn locked(self) -> BoardView {
        match self.active {
            Some(t) => BoardView {
                stack: painted(self.stack, t, BlockState::Stack(t.shape)),
                active: None,
                ..self
            },
            None => self,
        }
    }

    /// The field after the piece in play has been taken out.
    pub open spec fn held(self) -> BoardView {
        BoardView { active: None, ..self }
    }

    /// The field after one more lock placement has been counted.
    pub open spec fn placed(self) -> BoardView {
        BoardView { lock_placements: self.lock_placements + 1, ..self }
    }

    /// The rows that `t` can fall straight down.
    pub open spec fn drop_distance(self, t: Tetromino) -> nat
        decreases t.y + 4,
    {
        if t.y > -4 && self.fits(t.spec_shifted(0, -1)) {
            1 + self.drop_distance(t.spec_shifted(0, -1))
        } else {
            0
        }
    }

    /// Where `t` comes to rest when it falls straight down.
    pub open spec fn landing(self, t: Tetromino) -> Tetromino {
        t.spec_shifted(0, -(self.drop_distance(t) as int))
    }

    /// The field after the piece in play has fallen as far as it can.
    pub open spec fn dropped(self) -> BoardView {
        match self.active {
            Some(t) => BoardView { active: Some(self.landing(t)), ..self },
            None => self,
        }
    }

    /// The rows that the piece in play falls in a hard drop.
    pub open spec fn drop_rows(self) -> Option<nat> {
        match self.active {
            Some(t) => Some(self.drop_distance(t)),
            None => None,
        }
    }

    /// A piece that fits comes to rest where it still fits and cannot fall
    /// further, straight below where it was.
    pub proof fn lemma_landing_rests(self, t: Tetromino)
        requires
            self.fits(t),
        ensures
            self.fits(self.landing(t)),
            !self.fits(self.landing(t).spec_shifted(0, -1)),
            self.landing(t).y == t.y - self.drop_distance(t),
            self.landing(t) == (Tetromino { y: self.landing(t).y, ..t }),
        decreases t.y + 4,
    {
        t.lemma_mino_in_box(0);
        let below = t.spec_shifted(0, -1);
        if self.fits(below) {
            below.lemma_mino_in_box(0);
            self.lemma_landing_rests(below);
            assert(self.landing(t) == self.landing(below));
        } else {
            assert(self.landing(t) == t);
        }
    }

    /// A piece that fits falls fewer rows than the field has.
    pub proof fn lemma_drop_distance_bounded(self, t: Tetromino)
        requires
            self.fits(t),
        ensures
            self.drop_distance(t) < BOARD_HEIGHT,
    {
        self.lemma_landing_rests(t);
        t.lemma_lowest_mino(self.landing(t));
    }

    /// Locking the piece in play leaves a stack of the field's size that
    /// holds locked minos only.
    pub proof fn lemma_locked_is_stack(self)
        requires
            self.wf(),
        ensures
            self.locked().wf(),
    {
        let after = self.locked().stack;
        assert forall|x: int, y: int| in_field(x, y) implies !(#[trigger] cell_at(after, x, y)
            is Tetromino) by {
            assert(!(cell_at(self.stack, x, y) is Tetromino));
        }
    }

    /// Taking out full rows leaves the piece in play and its count of lock
    /// placements as they are, and a stack of locked minos.
    pub proof fn lemma_cleared_keeps(self, n: nat)
        requires
            grid_sized(self.stack),
            forall|x: int, y: int|
                in_field(x, y) ==> !(#[trigger] cell_at(self.stack, x, y) is Tetromino),
        ensures
            self.cleared(n).active == self.active,
            self.cleared(n).lock_placements == self.lock_placements,
            grid_sized(self.cleared(n).stack),
            forall|x: int, y: int|
                in_field(x, y) ==> !(#[trigger] cell_at(self.cleared(n).stack, x, y) is Tetromino),
        decreases n,
    {
        if n > 0 {
            let y = self.lowest_full_from(0);
            self.lemma_lowest_full_in_range(0);
            if y < BOARD_HEIGHT {
                let next = self.without_row(y);
                assert(grid_sized(next.stack));
                assert forall|i: int, j: int| in_field(i, j) implies !(#[trigger] cell_at(
                    next.stack,
                    i,
                    j,
                ) is Tetromino) by {
                    if j == BOARD_HEIGHT - 1 {
                    } else if j < y {
                        assert(cell_at(next.stack, i, j) == cell_at(self.stack, i, j));
                    } else {
                        assert(cell_at(next.stack, i, j) == cell_at(self.stack, i, j + 1));
                    }
                }
                next.lemma_cleared_keeps((n - 1) as nat);
            }
        }
    }

    /// The lowest full row from `y` on is not below `y`.
    pub proof fn lemma_lowest_full_in_range(self, y: int)
        requires
            0 <= y,
        ensures
            y <= self.lowest_full_from(y) || self.lowest_full_from(y) == BOARD_HEIGHT,
            self.lowest_full_from(y) <= BOARD_HEIGHT,
        decreases BOARD_HEIGHT - y,
    {
        if y < BOARD_HEIGHT && !self.row_full(y) {
            self.lemma_lowest_full_in_range(y + 1);
        }
    }

    /// Whether the stack fills row `y` from wall to wall.
    pub open spec fn row_full(self, y: int) -> bool {
        forall|x: int| 0 <= x < BOARD_WIDTH ==> #[trigger] cell_at(self.stack, x, y) is Stack
    }

    /// The number of full rows among the rows below `y`.
    pub open spec fn full_rows_below(self, y: int) -> nat
        decreases y,
    {
        if y <= 0 {
            0
        } else {
            self.full_rows_below(y - 1) + if self.row_full(y - 1) {
                1nat
            } else {
                0nat
            }
        }
    }

    /// The pattern that the full rows make.
    pub open spec fn pattern(self) -> DestroyPattern {
        DestroyPattern::of_count(self.full_rows_below(BOARD_HEIGHT as int))
    }

    /// The lowest full row that is not below `y`, or `BOARD_HEIGHT` if there
    /// is none.
    pub open spec fn lowest_full_from(self, y: int) -> int
        decreases BOARD_HEIGHT - y,
    {
        if y >= BOARD_HEIGHT {
            BOARD_HEIGHT as int
        } else if self.row_full(y) {
            y
        } else {
            self.lowest_full_from(y + 1)
        }
    }

    /// The field with row `y` taken out, the rows above it moved down by one,
    /// and an empty row on top.
    pub open spec fn without_row(self, y: int) -> BoardView {
        BoardView { stack: self.stack.remove(y).push(empty_row()), ..self }
    }

    /// The field after the `n` lowest full rows have been taken out, or all
    /// of them if there are fewer.
    pub open spec fn cleared(self, n: nat) -> BoardView
        decreases n,
    {
        if n == 0 {
            self
        } else {
            let y = self.lowest_full_from(0);
            if y < BOARD_HEIGHT {
                self.without_row(y).cleared((n - 1) as nat)
            } else {
                self
            }
        }
    }

    /// The field after the rows of `pattern` have been removed. While a piece
    /// is in play no row is removed.
    pub open spec fn destroyed(self, pattern: DestroyPattern) -> BoardView {
        if self.active is None {
            self.cleared(pattern.spec_lines())
        } else {
            self
        }
    }

    /// Row `y` as it is shown: the stack, with the piece in play on it.
    pub open spec fn row(self, y: int) -> Seq<BlockState> {
        Seq::new(
            BOARD_WIDTH as nat,
            |x: int|
                match self.active {
                    Some(t) if t.covers(x, y) => BlockState::Tetromino(t.shape),
                    _ => self.stack[y][x],
                },
        )
    }
}

/// The playfield.
pub struct Board {
    rows: Vec<Vec<BlockState>>,
    active: Option<Tetromino>,
    lock_placements: u32,
}

/// The rows of a board as a grid.
pub closed spec fn grid_of(rows: Vec<Vec<BlockState>>) -> Grid {
    Seq::new(rows.len() as nat, |y: int| rows[y]@)
}

/// The grid with every mino of a piece in play taken off.
pub closed spec fn settled(g: Grid) -> Grid {
    Seq::new(g.len(), |y: int| Seq::new(g[y].len(), |x: int| g[y][x].settled()))
}

impl View for Board {
    type V = BoardView;

    closed spec fn view(&self) -> BoardView {
        BoardView {
            stack: settled(grid_of(self.rows)),
            active: self.active,
            lock_placements: self.lock_placements as nat,
        }
    }
}

fn new_row() -> (row: Vec<BlockState>)
    ensures
        row@ == empty_row(),
{
    let mut row: Vec<BlockState> = Vec::new();
    let mut x: u32 = 0;
    while x < BOARD_WIDTH
        invariant
            x <= BOARD_WIDTH,
            row@.len() == x,
            forall|i: int| 0 <= i < x ==> row@[i] == BlockState::Empty,
        decreases BOARD_WIDTH - x,
    {
        row.push(BlockState::Empty);
        x += 1;
    }
    assert(row@ =~= empty_row());
    row
}

fn set_cell(rows: &mut Vec<Vec<BlockState>>, x: i32, y: i32, value: BlockState)
    requires
        grid_sized(grid_of(*old(rows))),
        in_field(x as int, y as int),
    ensures
        grid_sized(grid_of(*final(rows))),
        forall|i: int, j: int|
            in_field(i, j) ==> #[trigger] cell_at(grid_of(*final(rows)), i, j) == if i == x && j
                == y {
                value
            } else {
                cell_at(grid_of(*old(rows)), i, j)
            },
{
    assert(grid_of(*rows)[y as int].len() == BOARD_WIDTH);
    rows[y as usize][x as usize] = value;
    assert forall|j: int| 0 <= j < BOARD_HEIGHT implies (#[trigger] grid_of(*rows)[j]).len()
        == BOARD_WIDTH by {
        assert(grid_of(*old(rows))[j].len() == BOARD_WIDTH);
    }
}

fn paint(rows: &mut Vec<Vec<BlockState>>, t: &Tetromino, value: BlockState)
    requires
        grid_sized(grid_of(*old(rows))),
        in_field(t.spec_mino(0).0, t.spec_mino(0).1),
        in_field(t.spec_mino(1).0, t.spec_mino(1).1),
        in_field(t.spec_mino(2).0, t.spec_mino(2).1),
        in_field(t.spec_mino(3).0, t.spec_mino(3).1),
    ensures
        grid_sized(grid_of(*final(rows))),
        forall|i: int, j: int|
            in_field(i, j) ==> #[trigger] cell_at(grid_of(*final(rows)), i, j) == if t.covers(
                i,
                j,
            ) {
                value
            } else {
                cell_at(grid_of(*old(rows)), i, j)
            },
{
    proof {
        t.lemma_mino_in_box(0);
    }
    let a = t.mino(0);
    let b = t.mino(1);
    let c = t.mino(2);
    let d = t.mino(3);
    set_cell(rows, a.x, a.y, value);
    set_cell(rows, b.x, b.y, value);
    set_cell(rows, c.x, c.y, value);
    set_cell(rows, d.x, d.y, value);
}

impl Board {
    /// The rows have the field's size, the minos of the piece in play are
    /// drawn into them and no others, and the piece overlaps nothing.
    pub closed spec fn wf(&self) -> bool {
        &&& grid_sized(grid_of(self.rows))
        &&& forall|x: int, y: int|
            in_field(x, y) ==> (#[trigger] cell_at(grid_of(self.rows), x, y) is Tetromino <==> (
            self.active matches Some(t) && t.covers(x, y)))
        &&& forall|x: int, y: int|
            in_field(x, y) && (#[trigger] cell_at(grid_of(self.rows), x, y) is Tetromino)
                ==> cell_at(grid_of(self.rows), x, y) == BlockState::Tetromino(
                self.active->0.shape,
            )
        &&& self.active matches Some(t) ==> self@.fits(t)
    }

    /// A well-formed board has a well-formed view.
    pub proof fn lemma_view_wf(&self)
        requires
            self.wf(),
        ensures
            self@.wf(),
    {
        let v = self@;
        assert(grid_sized(v.stack));
        assert forall|x: int, y: int| in_field(x, y) implies !(#[trigger] cell_at(v.stack, x, y)
            is Tetromino) by {
            assert(cell_at(v.stack, x, y) == cell_at(grid_of(self.rows), x, y).settled());
        }
    }

    fn cell_free(&self, x: i32, y: i32) -> (r: bool)
        requires
            grid_sized(grid_of(self.rows)),
        ensures
            r == self@.is_free((x as int, y as int)),
    {
        if x < 0 || y < 0 || x >= BOARD_WIDTH as i32 || y >= BOARD_HEIGHT as i32 {
            return false;
        }
        assert(grid_of(self.rows)[y as int].len() == BOARD_WIDTH);
        !self.rows[y as usize][x as usize].is_stack()
    }

    fn fits(&self, t: &Tetromino) -> (r: bool)
        requires
            grid_sized(grid_of(self.rows)),
            t.x <= BOARD_WIDTH,
            t.y <= BOARD_HEIGHT,
        ensures
            r == self@.fits(*t),
    {
        let a = t.mino(0);
        let b = t.mino(1);
        let c = t.mino(2);
        let d = t.mino(3);
        self.cell_free(a.x, a.y) && self.cell_free(b.x, b.y) && self.cell_free(c.x, c.y)
            && self.cell_free(d.x, d.y)
    }

    /// A piece that fits has its box within a few cells of the field.
    proof fn lemma_fits_near(&self, t: Tetromino)
        requires
            self@.fits(t),
        ensures
            -3 <= t.x < BOARD_WIDTH,
            -3 <= t.y < BOARD_HEIGHT,
    {
        t.lemma_mino_in_box(0);
    }

    /// Takes the piece in play off the rows and draws `next` in its place.
    fn put(&mut self, next: Option<Tetromino>)
        requires
            old(self).wf(),
            next matches Some(t) ==> old(self)@.fits(t),
        ensures
            final(self).wf(),
            final(self)@ == (BoardView { active: next, ..old(self)@ }),
    {
        let ghost before = grid_of(self.rows);
        match self.active {
            Some(t) => {
                paint(&mut self.rows, &t, BlockState::Empty);
            },
            None => {},
        }
        let ghost erased = grid_of(self.rows);
        match next {
            Some(t) => {
                paint(&mut self.rows, &t, BlockState::Tetromino(t.shape));
            },
            None => {},
        }
        self.active = next;
        proof {
            let after = grid_of(self.rows);
            assert forall|x: int, y: int| in_field(x, y) implies cell_at(after, x, y).settled()
                == cell_at(before, x, y).settled() by {
                assert(cell_at(erased, x, y).settled() == cell_at(before, x, y).settled());
                assert(cell_at(settled(before), x, y) == cell_at(before, x, y).settled());
            }
            assert forall|y: int| 0 <= y < BOARD_HEIGHT implies #[trigger] settled(after)[y]
                =~= settled(before)[y] by {
                assert(after[y].len() == BOARD_WIDTH && before[y].len() == BOARD_WIDTH);
                assert forall|x: int| 0 <= x < BOARD_WIDTH implies settled(after)[y][x]
                    == settled(before)[y][x] by {
                    assert(cell_at(after, x, y).settled() == cell_at(before, x, y).settled());
                }
            }
            assert(settled(after) =~= settled(before));
        }
    }

    /// Makes `candidate` the piece in play if it fits.
    fn try_put(&mut self, candidate: Tetromino) -> (r: bool)
        requires
            old(self).wf(),
            candidate.x <= BOARD_WIDTH,
            candidate.y <= BOARD_HEIGHT,
        ensures
            final(self).wf(),
            r == old(self)@.fits(candidate),
            r ==> final(self)@ == (BoardView { active: Some(candidate), ..old(self)@ }),
            !r ==> final(self)@ == old(self)@,
    {
        if self.fits(&candidate) {
            self.put(Some(candidate));
            true
        } else {
            false
        }
    }

    /// An empty playfield.
    pub fn new() -> (board: Board)
        ensures
            board.wf(),
            board@ == BoardView::empty(),
    {
        let mut rows: Vec<Vec<BlockState>> = Vec::new();
        let mut y: u32 = 0;
        while y < BOARD_HEIGHT
            invariant
                y <= BOARD_HEIGHT,
                rows@.len() == y,
                forall|j: int| 0 <= j < y ==> (#[trigger] rows@[j])@ == empty_row(),
            decreases BOARD_HEIGHT - y,
        {
            rows.push(new_row());
            y += 1;
        }
        let board = Board { rows, active: None, lock_placements: 0 };
        assert(board@.stack =~~= BoardView::empty().stack);
        board
    }

    /// Brings in a new piece of `shape`, centred above the visible field.
    /// A piece without room is not brought in: the field stays as it is.
    pub fn try_spawn_tetromino(&mut self, shape: TetrominoShape) -> (spawned: bool)
        requires
            old(self).wf(),
        ensures
            final(self).wf(),
            spawned == old(self)@.can_spawn(shape),
            final(self)@ == old(self)@.spawned(shape),
    {
        if self.try_put(Tetromino::spawn(shape)) {
            self.lock_placements = 0;
            true
        } else {
            false
        }
    }

    /// Moves the piece in play down by one row if the row below has room.
    pub fn step_down(&mut self) -> (moved: bool)
        requires
            old(self).wf(),
        ensures
            final(self).wf(),
            moved == old(self)@.can_shift(0, -1),
            final(self)@ == old(self)@.shifted(0, -1),
    {
        self.shift(0, -1)
    }

    /// Moves the piece in play one column to the left if there is room.
    pub fn left(&mut self) -> (moved: bool)
        requires
            old(self).wf(),
        ensures
            final(self).wf(),
            moved == old(self)@.can_shift(-1, 0),
            final(self)@ == old(self)@.shifted(-1, 0),
    {
        self.shift(-1, 0)
    }

    /// Moves the piece in play one column to the right if there is room.
    pub fn right(&mut self) -> (moved: bool)
        requires
            old(self).wf(),
        ensures
            final(self).wf(),
            moved == old(self)@.can_shift(1, 0),
            final(self)@ == old(self)@.shifted(1, 0),
    {
        self.shift(1, 0)
    }

    fn shift(&mut self, dx: i32, dy: i32) -> (moved: bool)
        requires
            old(self).wf(),
            -1 <= dx <= 1,
            -1 <= dy <= 1,
        ensures
            final(self).wf(),
            moved == old(self)@.can_shift(dx as int, dy as int),
            final(self)@ == old(self)@.shifted(dx as int, dy as int),
    {
        match self.active {
            Some(t) => {
                proof {
                    self.lemma_fits_near(t);
                }
                self.try_put(t.shifted(dx, dy))
            },
            None => false,
        }
    }

    /// Turns the piece in play by a quarter inside its box if the cells it
    /// would take are open.
    pub fn rotate(&mut self, clockwise: bool) -> (turned: bool)
        requires
            old(self).wf(),
        ensures
            final(self).wf(),
            turned == old(self)@.can_turn(clockwise),
            final(self)@ == old(self)@.turned(clockwise),
    {
        match self.active {
            Some(t) => {
                proof {
                    self.lemma_fits_near(t);
                }
                self.try_put(t.turned(clockwise))
            },
            None => false,
        }
    }

    /// Attempts the move on the piece in play.
    pub fn attempt(&mut self, motion: Motion) -> (moved: bool)
        requires
            old(self).wf(),
        ensures
            final(self).wf(),
            moved == old(self)@.can_move(motion),
            final(self)@ == old(self)@.moved(motion),
    {
        match motion {
            Motion::Left => self.left(),
            Motion::Right => self.right(),
            Motion::Rotate { clockwise } => self.rotate(clockwise),
        }
    }

    /// Whether the piece in play rests on the floor or on the stack.
    pub fn is_collision(&self) -> (resting: bool)
        requires
            self.wf(),
        ensures
            resting == self@.is_collision(),
    {
        match self.active {
            Some(t) => {
                proof {
                    self.lemma_fits_near(t);
                }
                !self.fits(&t.shifted(0, -1))
            },
            None => false,
        }
    }

    /// Makes the piece in play part of the stack. Without a piece in play
    /// nothing happens.
    pub fn lock(&mut self)
        requires
            old(self).wf(),
        ensures
            final(self).wf(),
            final(self)@ == old(self)@.locked(),
    {
        match self.active {
            Some(t) => {
                let ghost before = grid_of(self.rows);
                paint(&mut self.rows, &t, BlockState::Stack(t.shape));
                self.active = None;
                proof {
                    let after = grid_of(self.rows);
                    let want = painted(settled(before), t, BlockState::Stack(t.shape));
                    assert forall|y: int| 0 <= y < BOARD_HEIGHT implies #[trigger] settled(
                        after,
                    )[y] =~= want[y] by {
                        assert(after[y].len() == BOARD_WIDTH && before[y].len() == BOARD_WIDTH);
                        assert forall|x: int| 0 <= x < BOARD_WIDTH implies settled(after)[y][x]
                            == want[y][x] by {
                            assert(cell_at(after, x, y) == if t.covers(x, y) {
                                BlockState::Stack(t.shape)
                            } else {
                                cell_at(before, x, y)
                            });
                        }
                    }
                    assert(settled(after) =~= want);
                }
            },
            None => {},
        }
    }

    /// How often a move has put off the lock of the piece in play.
    pub fn lock_placements(&self) -> (count: u32)
        ensures
            count == self@.lock_placements,
    {
        self.lock_placements
    }

    /// Counts one more move that put off the lock, and returns the new count.
    pub fn register_lock_placement(&mut self) -> (count: u32)
        requires
            old(self).wf(),
            old(self)@.lock_placements < u32::MAX,
        ensures
            final(self).wf(),
            final(self)@ == old(self)@.placed(),
            count == final(self)@.lock_placements,
    {
        self.lock_placements = self.lock_placements + 1;
        self.lock_placements
    }

    /// Takes the piece in play out of the field and returns its shape.
    pub fn hold(&mut self) -> (shape: Option<TetrominoShape>)
        requires
            old(self).wf(),
        ensures
            final(self).wf(),
            final(self)@ == old(self)@.held(),
            shape == match old(self)@.active {
                Some(t) => Some(t.shape),
                None => None,
            },
    {
        match self.active {
            Some(t) => {
                self.put(None);
                Some(t.shape)
            },
            None => None,
        }
    }

    /// The rows that the piece in play would fall in a hard drop.
    pub fn drop_rows(&self) -> (rows: Option<u32>)
        requires
            self.wf(),
        ensures
            match rows {
                Some(n) => self@.drop_rows() == Some(n as nat) && n < BOARD_HEIGHT,
                None => self@.drop_rows() is None,
            },
    {
        match self.active {
            Some(t) => {
                let mut current = t;
                let mut fallen: u32 = 0;
                proof {
                    self.lemma_fits_near(t);
                    self@.lemma_drop_distance_bounded(t);
                }
                while self.fits(&current.shifted(0, -1))
                    invariant
                        self.wf(),
                        self@.fits(current),
                        -3 <= current.y < BOARD_HEIGHT,
                        -3 <= current.x < BOARD_WIDTH,
                        self@.drop_distance(t) == fallen + self@.drop_distance(current),
                        self@.drop_distance(t) < BOARD_HEIGHT,
                    decreases current.y + 4,
                {
                    current = current.shifted(0, -1);
                    fallen = fallen + 1;
                    proof {
                        self.lemma_fits_near(current);
                    }
                }
                Some(fallen)
            },
            None => None,
        }
    }

    /// Lets the piece in play fall until it rests, and returns the rows it
    /// fell. Without a piece in play nothing happens.
    pub fn hard_drop(&mut self) -> (rows: Option<u32>)
        requires
            old(self).wf(),
        ensures
            final(self).wf(),
            final(self)@ == old(self)@.dropped(),
            match rows {
                Some(n) => old(self)@.drop_rows() == Some(n as nat) && n < BOARD_HEIGHT,
                None => old(self)@.drop_rows() is None,
            },
    {
        match self.active {
            Some(t) => {
                let rows = self.drop_rows();
                match rows {
                    Some(n) => {
                        proof {
                            self.lemma_fits_near(t);
                            self@.lemma_landing_rests(t);
                        }
                        self.put(Some(t.shifted(0, -(n as i32))));
                    },
                    None => {},
                }
                rows
            },
            None => None,
        }
    }

    /// The cells of row `y`, from the left wall to the right, the piece in
    /// play drawn on the stack.
    pub fn row(&self, y: u32) -> (cells: &[BlockState])
        requires
            self.wf(),
            y < BOARD_HEIGHT,
        ensures
            cells@ == self@.row(y as int),
    {
        let cells = self.rows[y as usize].as_slice();
        proof {
            let g = grid_of(self.rows);
            assert(g[y as int].len() == BOARD_WIDTH);
            assert forall|x: int| 0 <= x < BOARD_WIDTH implies cells@[x] == self@.row(
                y as int,
            )[x] by {
                let c = cell_at(g, x, y as int);
                assert(cell_at(settled(g), x, y as int) == c.settled());
            }
            assert(cells@ =~= self@.row(y as int));
        }
        cells
    }

    fn row_is_full(&self, y: u32) -> (full: bool)
        requires
            grid_sized(grid_of(self.rows)),
            y < BOARD_HEIGHT,
        ensures
            full == self@.row_full(y as int),
    {
        let ghost g = grid_of(self.rows);
        assert(g[y as int].len() == BOARD_WIDTH);
        let mut x: u32 = 0;
        while x < BOARD_WIDTH
            invariant
                x <= BOARD_WIDTH,
                y < BOARD_HEIGHT,
                g == grid_of(self.rows),
                grid_sized(g),
                forall|i: int| 0 <= i < x ==> #[trigger] cell_at(g, i, y as int) is Stack,
            decreases BOARD_WIDTH - x,
        {
            if !self.rows[y as usize][x as usize].is_stack() {
                assert(!(cell_at(self@.stack, x as int, y as int) is Stack)) by {
                    assert(cell_at(settled(g), x as int, y as int) == cell_at(
                        g,
                        x as int,
                        y as int,
                    ).settled());
                }
                return false;
            }
            x += 1;
        }
        assert forall|i: int| 0 <= i < BOARD_WIDTH implies #[trigger] cell_at(
            self@.stack,
            i,
            y as int,
        ) is Stack by {
            assert(cell_at(settled(g), i, y as int) == cell_at(g, i, y as int).settled());
        }
        true
    }

    /// The pattern that the full rows of the stack make.
    pub fn pattern(&self) -> (pattern: DestroyPattern)
        requires
            self.wf(),
        ensures
            pattern == self@.pattern(),
    {
        let mut count: u32 = 0;
        let mut y: u32 = 0;
        while y < BOARD_HEIGHT
            invariant
                y <= BOARD_HEIGHT,
                self.wf(),
                count == self@.full_rows_below(y as int),
                count <= y,
            decreases BOARD_HEIGHT - y,
        {
            if self.row_is_full(y) {
                count += 1;
            }
            y += 1;
        }
        if count == 0 {
            DestroyPattern::Nothing
        } else if count == 1 {
            DestroyPattern::Single
        } else if count == 2 {
            DestroyPattern::Double
        } else if count == 3 {
            DestroyPattern::Triple
        } else {
            DestroyPattern::Tetris
        }
    }

    /// The lowest full row, or `BOARD_HEIGHT` if no row is full.
    fn lowest_full(&self) -> (y: u32)
        requires
            self.wf(),
        ensures
            y == self@.lowest_full_from(0),
            y <= BOARD_HEIGHT,
    {
        let mut y: u32 = 0;
        while y < BOARD_HEIGHT
            invariant
                y <= BOARD_HEIGHT,
                self.wf(),
                self@.lowest_full_from(0) == self@.lowest_full_from(y as int),
            decreases BOARD_HEIGHT - y,
        {
            if self.row_is_full(y) {
                return y;
            }
            y += 1;
        }
        y
    }

    /// Removes the rows of `pattern`: its number of full rows, the lowest
    /// first, are taken out, what lies above them moves down, and empty rows
    /// come in at the top. While a piece is in play nothing happens.
    pub fn destroy(&mut self, pattern: DestroyPattern)
        requires
            old(self).wf(),
        ensures
            final(self).wf(),
            final(self)@ == old(self)@.destroyed(pattern),
            final(self)@.active == old(self)@.active,
    {
        if self.active.is_some() {
            return ;
        }
        let n: u32 = pattern.lines();
        let mut k: u32 = 0;
        while k < n
            invariant
                k <= n,
                self.wf(),
                self@.active is None,
                self@.cleared((n - k) as nat) == old(self)@.cleared(n as nat),
            ensures
                self.wf(),
                self@.active is None,
                self@ == old(self)@.cleared(n as nat),
            decreases n - k,
        {
            let y: u32 = self.lowest_full();
            if y >= BOARD_HEIGHT {
                assert(self@.cleared((n - k) as nat) == self@);
                break;
            }
            let ghost before = grid_of(self.rows);
            let ghost view_before = self@;
            let _ = self.rows.remove(y as usize);
            self.rows.push(new_row());
            k += 1;
            proof {
                let after = grid_of(self.rows);
                let want = view_before.stack.remove(y as int).push(empty_row());
                assert forall|j: int| 0 <= j < BOARD_HEIGHT implies #[trigger] after[j] == (if j
                    == BOARD_HEIGHT - 1 {
                    empty_row()
                } else if j < y {
                    before[j]
                } else {
                    before[j + 1]
                }) by {}
                assert forall|j: int| 0 <= j < BOARD_HEIGHT implies #[trigger] settled(after)[j]
                    =~= want[j] by {
                    assert(after[j].len() == BOARD_WIDTH);
                }
                assert(settled(after) =~= want);
                assert(self@ == view_before.without_row(y as int));
                assert forall|i: int, j: int| in_field(i, j) implies !(#[trigger] cell_at(
                    after,
                    i,
                    j,
                ) is Tetromino) by {
                    if j == BOARD_HEIGHT - 1 {
                    } else if j < y {
                        assert(cell_at(after, i, j) == cell_at(before, i, j));
                    } else {
                        assert(cell_at(after, i, j) == cell_at(before, i, j + 1));
                    }
                }
            }
        }
    }
}

} // verus!
