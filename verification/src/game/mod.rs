//! The match state machine and what it works on.
//!
//! A match is driven by ticks. Each tick adds its time to the phase that the
//! match is in; when the time of the phase is up, the tick does to the field
//! what ends the phase, and the match goes on to the next: a piece spawns,
//! falls, rests, locks; the full rows are found, and destroyed and scored;
//! the next piece spawns. Between ticks the player moves, turns, drops or
//! puts aside the piece in play.

pub mod block;
pub mod board;
pub mod geometry;
pub mod laws;
pub mod random;
pub mod scoring;
pub mod tetromino;
pub mod timing;

use vstd::prelude::*;
use crate::game::block::BlockState;
use crate::game::board::{
    Board, BoardView, DestroyPattern, Motion, BOARD_HEIGHT, MAX_LOCK_PLACEMENTS,
};
use crate::game::random::{RandomTetromino, PEEK_SIZE};
use crate::game::scoring::{
    combo_after, combo_view, level_after, score_delta, Combo, ComboView,
    HARD_DROP_POINTS_PER_ROW, SOFT_DROP_POINTS_PER_ROW,
};
use crate::game::tetromino::TetrominoShape;
use crate::game::timing::{
    base_delay, lock_delay, spawn_delay, step_delay, LINES_PER_LEVEL, LOCK_DURATION,
    MIN_SPAWN_DELAY, NANOS_PER_MILLI, SOFT_DROP_LOCK_DURATION, SOFT_DROP_SPAWN_FACTOR,
    SOFT_DROP_STEP_FACTOR,
};

verus! {

/// The ways in which a match is lost.
#[derive(Clone, Copy, Debug, PartialEq, Eq, Structural)]
pub enum GameOverCondition {
    /// An opponent's attack has pushed the stack past the top of the field.
    TopOut,
    /// A piece has locked wholly above the visible field.
    LockOut,
    /// A new piece had no room to enter.
    BlockOut,
}

/// The phase that a match is in. Times are nanoseconds spent in the phase.
#[derive(Clone, Copy, Debug, PartialEq, Eq, Structural)]
pub enum GameState {
    /// The next piece, of the shape given, waits to enter.
    Spawn(u64, TetrominoShape),
    /// The piece falls.
    Fall(u64),
    /// The piece rests and can still be moved.
    Lock(u64),
    /// The stack is to be searched for full rows.
    Pattern,
    /// The rows of the pattern are to be removed.
    Destroy(DestroyPattern),
    /// The match is lost. No tick leads out of this phase.
    GameOver(GameOverCondition),
}

/// The phase of a match as a value, with times as natural numbers.
pub enum Phase {
    Spawn(nat, TetrominoShape),
    Fall(nat),
    Lock(nat),
    Pattern,
    Destroy(DestroyPattern),
    GameOver(GameOverCondition),
}

impl View for GameState {
    type V = Phase;

    open spec fn view(&self) -> Phase {
        match *self {
            GameState::Spawn(elapsed, shape) => Phase::Spawn(elapsed as nat, shape),
            GameState::Fall(elapsed) => Phase::Fall(elapsed as nat),
            GameState::Lock(elapsed) => Phase::Lock(elapsed as nat),
            GameState::Pattern => Phase::Pattern,
            GameState::Destroy(pattern) => Phase::Destroy(pattern),
            GameState::GameOver(condition) => Phase::GameOver(condition),
        }
    }
}

/// The piece that a player has put aside.
#[derive(Clone, Copy, Debug, PartialEq, Eq, Structural)]
pub struct HoldState {
    /// The shape put aside.
    pub shape: TetrominoShape,
    /// Whether the hold has been used for the piece now in play. It is set
    /// when a piece is put aside and cleared when a piece locks.
    pub locked: bool,
}

/// A match as a value.
pub struct GameView {
    pub player: u32,
    pub level: nat,
    pub lines: nat,
    pub score: nat,
    pub combo: Option<ComboView>,
    pub phase: Phase,
    pub soft_drop: bool,
    /// Set by a hard drop: from then on a piece spawns without a wait.
    pub skip_next_spawn_delay: bool,
    pub hold: Option<HoldState>,
    pub board: BoardView,
    /// The shapes that the supplier shows as the ones to come, the next one
    /// first.
    pub queue: Seq<TetrominoShape>,
}

impl GameView {
    /// A match before its first tick, for a supplier that showed `queue`: an
    /// empty field, and the first shape of the queue waiting to enter.
    /// `refill` is the shape that came into the queue behind the others.
    pub open spec fn start(
        player: u32,
        level: nat,
        queue: Seq<TetrominoShape>,
        refill: TetrominoShape,
    ) -> GameView {
        GameView {
            player,
            level,
            lines: 0,
            score: 0,
            combo: None,
            phase: Phase::Spawn(0, queue[0]),
            soft_drop: false,
            skip_next_spawn_delay: false,
            hold: None,
            board: BoardView::empty(),
            queue: queue.skip(1).push(refill),
        }
    }

    /// The match after its supplier has handed out the first shape of the
    /// queue and `refill` has come in behind the others.
    pub open spec fn drawn(self, refill: TetrominoShape) -> GameView {
        GameView { queue: self.queue.skip(1).push(refill), ..self }
    }

    /// The field is well-formed, a piece is in play exactly while the match
    /// is in `Fall` or in `Lock`, and the queue of the supplier is full.
    pub open spec fn wf(self) -> bool {
        &&& self.board.wf()
        &&& (self.phase is Fall || self.phase is Lock) <==> self.board.active is Some
        &&& self.queue.len() == PEEK_SIZE
    }

    /// The match with another phase.
    pub open spec fn at(self, phase: Phase) -> GameView {
        GameView { phase, ..self }
    }

    /// The match after `elapsed` nanoseconds of waiting for `shape` to enter.
    /// While the wait is not over, and no hard drop has done away with it,
    /// the match goes on waiting. Else the piece enters and falls, or, where
    /// it has no room, the match is lost.
    pub open spec fn spawn(self, elapsed: nat, shape: TetrominoShape) -> GameView {
        if !self.skip_next_spawn_delay && elapsed < spawn_delay(self.level, self.soft_drop) {
            self.at(Phase::Spawn(elapsed, shape))
        } else if self.board.can_spawn(shape) {
            GameView { board: self.board.spawned(shape), phase: Phase::Fall(0), ..self }
        } else {
            self.at(Phase::GameOver(GameOverCondition::BlockOut))
        }
    }

    /// The match after `elapsed` nanoseconds of the piece's fall. Once the
    /// step delay has passed the piece steps down a row, which under soft
    /// drop earns a point. A piece that cannot step, or that rests after its
    /// step, goes on to lock: at once if its lock placements are used up.
    pub open spec fn fall(self, elapsed: nat) -> GameView {
        if elapsed < step_delay(self.level, self.soft_drop) {
            self.at(Phase::Fall(elapsed))
        } else if !self.board.can_shift(0, -1) {
            self.at(Phase::Lock(0))
        } else {
            let board = self.board.shifted(0, -1);
            GameView {
                board,
                score: self.score + if self.soft_drop {
                    SOFT_DROP_POINTS_PER_ROW as nat
                } else {
                    0
                },
                phase: if !board.is_collision() {
                    Phase::Fall(0)
                } else if board.lock_placements >= MAX_LOCK_PLACEMENTS {
                    Phase::Lock(LOCK_DURATION as nat)
                } else {
                    Phase::Lock(0)
                },
                ..self
            }
        }
    }

    /// The hold after a piece has locked: it may be used again.
    pub open spec fn released(hold: Option<HoldState>) -> Option<HoldState> {
        match hold {
            Some(h) => Some(HoldState { locked: false, ..h }),
            None => None,
        }
    }

    /// The match after `elapsed` nanoseconds of the piece's rest. Once the
    /// lock delay has passed, a piece that still rests becomes part of the
    /// stack, and one that has been moved over open cells falls again.
    pub open spec fn lock(self, elapsed: nat) -> GameView {
        if elapsed < lock_delay(self.soft_drop) {
            self.at(Phase::Lock(elapsed))
        } else if self.board.is_collision() {
            GameView {
                board: self.board.locked(),
                hold: GameView::released(self.hold),
                phase: Phase::Pattern,
                ..self
            }
        } else {
            self.at(Phase::Fall(0))
        }
    }

    /// The match after the stack has been searched for full rows.
    pub open spec fn pattern(self) -> GameView {
        self.at(Phase::Destroy(self.board.pattern()))
    }

    /// The match with a clear of `pattern` counted: the combo moves on, the
    /// points of the clear are added at the level before the clear, the
    /// lines are added, and the level follows the lines. A pattern without
    /// points ends the combo and changes nothing else.
    pub open spec fn scored(self, pattern: DestroyPattern) -> GameView {
        if pattern.spec_base_points() == 0 {
            GameView { combo: None, ..self }
        } else {
            let lines = self.lines + pattern.spec_lines();
            GameView {
                combo: combo_after(self.combo, pattern),
                score: self.score + score_delta(self.level, self.combo, pattern),
                lines,
                level: level_after(self.level, lines),
                ..self
            }
        }
    }

    /// The match after the rows of `pattern` have been removed and counted:
    /// the supplier hands out the next shape to spawn, and `refill` comes
    /// into its queue.
    pub open spec fn destroy(self, pattern: DestroyPattern, refill: TetrominoShape) -> GameView {
        GameView { board: self.board.destroyed(pattern), ..self.scored(pattern) }.drawn(refill).at(
            Phase::Spawn(0, self.queue[0]),
        )
    }

    /// The match after a tick of `delta` nanoseconds, `refill` being the
    /// shape that comes into the supplier's queue if the tick takes one out.
    pub open spec fn tick(self, delta: nat, refill: TetrominoShape) -> GameView {
        match self.phase {
            Phase::Spawn(elapsed, shape) => self.spawn(elapsed + delta, shape),
            Phase::Fall(elapsed) => self.fall(elapsed + delta),
            Phase::Lock(elapsed) => self.lock(elapsed + delta),
            Phase::Pattern => self.pattern(),
            Phase::Destroy(pattern) => self.destroy(pattern, refill),
            Phase::GameOver(_) => self,
        }
    }

    /// Whether the numbers of the match after a clear of `pattern` fit the
    /// machine's integers.
    pub open spec fn score_fits(self, pattern: DestroyPattern) -> bool {
        let next = self.scored(pattern);
        &&& next.score <= u32::MAX
        &&& next.lines <= u32::MAX
        &&& next.combo matches Some(c) ==> c.count <= u32::MAX
    }

    /// Whether the times and numbers of the match after a tick of `delta`
    /// nanoseconds fit the machine's integers.
    pub open spec fn tick_fits(self, delta: nat) -> bool {
        match self.phase {
            Phase::Spawn(elapsed, _) => elapsed + delta <= u64::MAX,
            Phase::Fall(elapsed) => elapsed + delta <= u64::MAX && self.fall(elapsed + delta).score
                <= u32::MAX,
            Phase::Lock(elapsed) => elapsed + delta <= u64::MAX,
            Phase::Pattern => true,
            Phase::Destroy(pattern) => self.score_fits(pattern),
            Phase::GameOver(_) => true,
        }
    }

    /// Whether the piece in play may be put aside: it falls, or rests with
    /// lock time to spare, and the hold has not been used for it.
    pub open spec fn hold_allowed(self) -> bool {
        &&& self.phase is Fall || (self.phase matches Phase::Lock(elapsed) && elapsed
            < LOCK_DURATION)
        &&& !(self.hold matches Some(h) && h.locked)
        &&& self.board.active is Some
    }

    /// The match after an attempt to put the piece in play aside. The shape
    /// put aside before is the next to spawn; if there is none, the supplier
    /// hands out the next one, and `refill` comes into its queue. Either way
    /// the wait of the spawn is already over.
    pub open spec fn held(self, refill: TetrominoShape) -> GameView {
        if self.hold_allowed() {
            let put_aside = Some(HoldState { shape: self.board.active->0.shape, locked: true });
            match self.hold {
                Some(h) => GameView {
                    board: self.board.held(),
                    phase: Phase::Spawn(MIN_SPAWN_DELAY as nat, h.shape),
                    hold: put_aside,
                    ..self
                },
                None => GameView {
                    board: self.board.held(),
                    phase: Phase::Spawn(MIN_SPAWN_DELAY as nat, self.queue[0]),
                    hold: put_aside,
                    ..self
                }.drawn(refill),
            }
        } else {
            self
        }
    }

    /// The match after an attempt at a hard drop: the piece in play falls as
    /// far as it can, each row earns the hard drop points, the lock delay
    /// counts as over, and from now on a piece spawns without a wait.
    pub open spec fn hard_dropped(self) -> GameView {
        match self.board.drop_rows() {
            Some(rows) => GameView {
                board: self.board.dropped(),
                phase: Phase::Lock(LOCK_DURATION as nat),
                score: self.score + rows * (HARD_DROP_POINTS_PER_ROW as nat),
                skip_next_spawn_delay: true,
                ..self
            },
            None => self,
        }
    }

    /// Whether an attempt at the move succeeds. A resting piece moves only
    /// with lock time to spare and lock placements left.
    pub open spec fn move_accepted(self, motion: Motion) -> bool {
        match self.phase {
            Phase::Lock(elapsed) => {
                &&& elapsed < LOCK_DURATION
                &&& self.board.lock_placements < MAX_LOCK_PLACEMENTS
                &&& self.board.can_move(motion)
            },
            _ => self.board.can_move(motion),
        }
    }

    /// The match after an attempt at the move. A falling piece just moves. A
    /// resting piece whose lock time is up stays; one whose lock placements
    /// are used up stays and locks at the next tick; else the move, if the
    /// field allows it, is counted as a lock placement and starts the lock
    /// time anew, unless it was the last placement, which ends the lock time.
    pub open spec fn moved(self, motion: Motion) -> GameView {
        match self.phase {
            Phase::Lock(elapsed) => {
                if elapsed >= LOCK_DURATION {
                    self
                } else if self.board.lock_placements >= MAX_LOCK_PLACEMENTS {
                    self.at(Phase::Lock(LOCK_DURATION as nat))
                } else if !self.board.can_move(motion) {
                    self
                } else {
                    let board = self.board.moved(motion).placed();
                    GameView {
                        board,
                        phase: if board.lock_placements < MAX_LOCK_PLACEMENTS {
                            Phase::Lock(0)
                        } else {
                            Phase::Lock(LOCK_DURATION as nat)
                        },
                        ..self
                    }
                }
            },
            _ => GameView { board: self.board.moved(motion), ..self },
        }
    }
}

/// What a match shows of itself.
#[derive(Clone, Copy, Debug, PartialEq, Eq)]
pub struct GameMetrics {
    pub player: u32,
    pub level: u32,
    pub lines: u32,
    pub score: u32,
    pub combo: Option<Combo>,
    pub queue: [TetrominoShape; PEEK_SIZE],
    pub hold: Option<TetrominoShape>,
}

/// One player's match.
pub struct Game<R: RandomTetromino> {
    player: u32,
    board: Board,
    random: R,
    level: u32,
    lines: u32,
    score: u32,
    combo: Option<Combo>,
    state: GameState,
    soft_drop: bool,
    skip_next_spawn_delay: bool,
    hold: Option<HoldState>,
}

impl<R: RandomTetromino> View for Game<R> {
    type V = GameView;

    closed spec fn view(&self) -> GameView {
        GameView {
            player: self.player,
            level: self.level as nat,
            lines: self.lines as nat,
            score: self.score as nat,
            combo: combo_view(self.combo),
            phase: self.state@,
            soft_drop: self.soft_drop,
            skip_next_spawn_delay: self.skip_next_spawn_delay,
            hold: self.hold,
            board: self.board@,
            queue: self.random.upcoming()@,
        }
    }
}

impl<R: RandomTetromino> Game<R> {
    /// The match is well-formed, and so is its field.
    pub closed spec fn wf(&self) -> bool {
        self.board.wf() && self@.wf()
    }

    /// The supplier of the match.
    pub closed spec fn supplier(&self) -> R {
        self.random
    }

    /// A new match for `player` that starts at `level` and takes its shapes
    /// from `random`. The first shape is taken at once.
    pub fn new(player: u32, level: u32, random: R) -> (game: Game<R>)
        ensures
            game.wf(),
            game@ == GameView::start(player, level as nat, random.upcoming()@, game@.queue.last()),
    {
        let mut random = random;
        let first_shape = random.next();
        let game = Game {
            player,
            board: Board::new(),
            random,
            level,
            lines: 0,
            score: 0,
            combo: None,
            state: GameState::Spawn(0, first_shape),
            soft_drop: false,
            skip_next_spawn_delay: false,
            hold: None,
        };
        proof {
            game.board.lemma_view_wf();
        }
        game
    }

    /// The player of the match.
    pub fn player(&self) -> (player: u32)
        ensures
            player == self@.player,
    {
        self.player
    }

    /// The phase that the match is in.
    pub fn state(&self) -> (state: GameState)
        ensures
            state@ == self@.phase,
    {
        self.state
    }

    /// Puts the piece in play aside. In its place comes the shape put aside
    /// before, or, the first time, the supplier's next one. The hold can be
    /// used once for each piece that spawns.
    pub fn hold(&mut self) -> (held: bool)
        requires
            old(self).wf(),
        ensures
            final(self).wf(),
            held == old(self)@.hold_allowed(),
            final(self)@ == old(self)@.held(final(self)@.queue.last()),
            !held || old(self)@.hold is Some ==> final(self).supplier() == old(self).supplier(),
    {
        proof {
            self.board.lemma_view_wf();
        }
        let in_time = match self.state {
            GameState::Fall(_) => true,
            GameState::Lock(duration) => duration < LOCK_DURATION,
            _ => false,
        };
        let used = match self.hold {
            Some(hold) => hold.locked,
            None => false,
        };
        if !in_time || used {
            return false;
        }
        let held_shape = match self.board.hold() {
            None => {
                return false;
            },
            Some(shape) => shape,
        };
        let next_shape = match self.hold {
            None => self.random.next(),
            Some(hold) => hold.shape,
        };
        self.state = GameState::Spawn(MIN_SPAWN_DELAY, next_shape);
        self.hold = Some(HoldState { locked: true, shape: held_shape });
        proof {
            self.board.lemma_view_wf();
        }
        true
    }

    /// Switches soft drop on or off, and returns the new setting.
    pub fn set_soft_drop(&mut self, soft_drop: bool) -> (set: bool)
        requires
            old(self).wf(),
        ensures
            final(self).wf(),
            set == soft_drop,
            final(self)@ == (GameView { soft_drop, ..old(self)@ }),
            final(self).supplier() == old(self).supplier(),
    {
        self.soft_drop = soft_drop;
        soft_drop
    }

    /// Whether the score has room for the points of a hard drop.
    pub fn hard_drop_fits(&self) -> (fits: bool)
        requires
            self.wf(),
        ensures
            fits == (self@.hard_dropped().score <= u32::MAX),
    {
        match self.board.drop_rows() {
            Some(rows) => rows * HARD_DROP_POINTS_PER_ROW <= u32::MAX - self.score,
            None => true,
        }
    }

    /// Drops the piece in play to where it rests, so that it locks at the
    /// next tick. Returns whether there was a piece to drop.
    pub fn hard_drop(&mut self) -> (dropped: bool)
        requires
            old(self).wf(),
            old(self)@.hard_dropped().score <= u32::MAX,
        ensures
            final(self).wf(),
            dropped == old(self)@.board.active is Some,
            final(self)@ == old(self)@.hard_dropped(),
            final(self).supplier() == old(self).supplier(),
    {
        match self.board.hard_drop() {
            None => false,
            Some(hard_dropped_rows) => {
                self.state = GameState::Lock(LOCK_DURATION);
                self.score = self.score + hard_dropped_rows * HARD_DROP_POINTS_PER_ROW;
                self.skip_next_spawn_delay = true;
                proof {
                    self.board.lemma_view_wf();
                }
                true
            },
        }
    }

    /// What the match shows of itself: its numbers, the shape put aside, and
    /// the upcoming shapes as the supplier shows them.
    pub fn metrics(&self) -> (metrics: GameMetrics)
        ensures
            metrics.player == self@.player,
            metrics.level == self@.level,
            metrics.lines == self@.lines,
            metrics.score == self@.score,
            combo_view(metrics.combo) == self@.combo,
            metrics.queue@ == self@.queue,
            metrics.hold == match self@.hold {
                Some(h) => Some(h.shape),
                None => None,
            },
    {
        GameMetrics {
            player: self.player,
            level: self.level,
            lines: self.lines,
            score: self.score,
            combo: self.combo,
            queue: self.random.peek(),
            hold: match self.hold {
                Some(hold) => Some(hold.shape),
                None => None,
            },
        }
    }

    /// Moves the piece in play one column to the left.
    pub fn left(&mut self) -> (moved: bool)
        requires
            old(self).wf(),
        ensures
            final(self).wf(),
            moved == old(self)@.move_accepted(Motion::Left),
            final(self)@ == old(self)@.moved(Motion::Left),
            final(self).supplier() == old(self).supplier(),
    {
        self.with_checking_lock(Motion::Left)
    }

    /// Moves the piece in play one column to the right.
    pub fn right(&mut self) -> (moved: bool)
        requires
            old(self).wf(),
        ensures
            final(self).wf(),
            moved == old(self)@.move_accepted(Motion::Right),
            final(self)@ == old(self)@.moved(Motion::Right),
            final(self).supplier() == old(self).supplier(),
    {
        self.with_checking_lock(Motion::Right)
    }

    /// Turns the piece in play by a quarter.
    pub fn rotate(&mut self, clockwise: bool) -> (moved: bool)
        requires
            old(self).wf(),
        ensures
            final(self).wf(),
            moved == old(self)@.move_accepted(Motion::Rotate { clockwise }),
            final(self)@ == old(self)@.moved(Motion::Rotate { clockwise }),
            final(self).supplier() == old(self).supplier(),
    {
        self.with_checking_lock(Motion::Rotate { clockwise })
    }

    /// Attempts the move, under the rules for a piece that rests.
    fn with_checking_lock(&mut self, motion: Motion) -> (moved: bool)
        requires
            old(self).wf(),
        ensures
            final(self).wf(),
            moved == old(self)@.move_accepted(motion),
            final(self)@ == old(self)@.moved(motion),
            final(self).supplier() == old(self).supplier(),
    {
        match self.state {
            GameState::Lock(lock_duration) => {
                // the lock time is up: the piece is past moving
                if lock_duration >= LOCK_DURATION {
                    return false;
                }
                // the piece has used up its moves under lock: lock it at the next tick
                if self.board.lock_placements() >= MAX_LOCK_PLACEMENTS {
                    self.state = GameState::Lock(LOCK_DURATION);
                    return false;
                }
                // the field does not allow the move
                if !self.board.attempt(motion) {
                    return false;
                }
                if self.board.register_lock_placement() < MAX_LOCK_PLACEMENTS {
                    // the move is allowed under lock, and the lock time starts anew
                    self.state = GameState::Lock(0);
                } else {
                    // this was the last move under lock: lock at the next tick
                    self.state = GameState::Lock(LOCK_DURATION);
                }
                proof {
                    self.board.lemma_view_wf();
                }
                true
            },
            _ => {
                let moved = self.board.attempt(motion);
                proof {
                    self.board.lemma_view_wf();
                }
                moved
            },
        }
    }

    /// Whether the times and numbers of the match have room for a tick of
    /// `delta` nanoseconds.
    pub fn tick_fits(&self, delta: u64) -> (fits: bool)
        requires
            self.wf(),
        ensures
            fits == self@.tick_fits(delta as nat),
    {
        proof {
            self.board.lemma_view_wf();
        }
        match self.state {
            GameState::Spawn(elapsed, _) => elapsed <= u64::MAX - delta,
            GameState::Lock(elapsed) => elapsed <= u64::MAX - delta,
            GameState::Fall(elapsed) => {
                if elapsed > u64::MAX - delta {
                    false
                } else if elapsed + delta < self.step_delay() || !self.soft_drop
                    || self.board.is_collision() {
                    true
                } else {
                    self.score <= u32::MAX - SOFT_DROP_POINTS_PER_ROW
                }
            },
            GameState::Destroy(pattern) => self.score_fits(pattern),
            GameState::Pattern => true,
            GameState::GameOver(_) => true,
        }
    }

    /// Whether the numbers of the match have room for a clear of `pattern`.
    pub fn score_fits(&self, pattern: DestroyPattern) -> (fits: bool)
        ensures
            fits == self@.score_fits(pattern),
    {
        if pattern.base_points() == 0 {
            return true;
        }
        let counted = match self.combo {
            Some(combo) => combo.count() < u32::MAX,
            None => true,
        };
        if !counted {
            return false;
        }
        match Combo::advance(self.combo, pattern) {
            Some(combo) => {
                combo.points(self.level, pattern) <= (u32::MAX - self.score) as u64
                    && pattern.lines() <= u32::MAX - self.lines
            },
            None => true,
        }
    }

    /// Lets `delta` nanoseconds pass, and returns the phase that the match
    /// is in after them. A tick makes at most one step of the match: the wait
    /// of a phase may end, and what ends it is done to the field.
    pub fn update(&mut self, delta: u64) -> (state: GameState)
        requires
            old(self).wf(),
            old(self)@.tick_fits(delta as nat),
        ensures
            final(self).wf(),
            state@ == final(self)@.phase,
            final(self)@ == old(self)@.tick(delta as nat, final(self)@.queue.last()),
            !(old(self)@.phase is Destroy) ==> final(self).supplier() == old(self).supplier(),
    {
        let state = match self.state {
            GameState::Spawn(duration, shape) => self.spawn(duration + delta, shape),
            GameState::Fall(duration) => self.fall(duration + delta),
            GameState::Lock(duration) => self.lock(duration + delta),
            GameState::Pattern => self.pattern(),
            GameState::Destroy(pattern) => self.destroy(pattern),
            GameState::GameOver(condition) => GameState::GameOver(condition),
        };
        state
    }

    fn spawn(&mut self, duration: u64, shape: TetrominoShape) -> (state: GameState)
        requires
            old(self).wf(),
            old(self)@.phase is Spawn,
        ensures
            final(self).wf(),
            state@ == final(self)@.phase,
            final(self)@ == old(self)@.spawn(duration as nat, shape),
            final(self).supplier() == old(self).supplier(),
    {
        proof {
            self.board.lemma_view_wf();
        }
        if !self.skip_next_spawn_delay && duration < self.spawn_delay() {
            self.state = GameState::Spawn(duration, shape);
        } else if self.board.try_spawn_tetromino(shape) {
            self.state = GameState::Fall(0);
        } else {
            // a piece that cannot enter ends the match
            self.state = GameState::GameOver(GameOverCondition::BlockOut);
        }
        proof {
            self.board.lemma_view_wf();
        }
        self.state
    }

    fn fall(&mut self, duration: u64) -> (state: GameState)
        requires
            old(self).wf(),
            old(self)@.phase is Fall,
            old(self)@.fall(duration as nat).score <= u32::MAX,
        ensures
            final(self).wf(),
            state@ == final(self)@.phase,
            final(self)@ == old(self)@.fall(duration as nat),
            final(self).supplier() == old(self).supplier(),
    {
        proof {
            self.board.lemma_view_wf();
        }
        if duration < self.step_delay() {
            self.state = GameState::Fall(duration);
            return self.state;
        }
        if !self.board.step_down() {
            // the piece cannot step down: its lock time starts
            self.state = GameState::Lock(0);
            return self.state;
        }
        // the piece has stepped down a row, which counts under soft drop
        if self.soft_drop {
            self.score = self.score + SOFT_DROP_POINTS_PER_ROW;
        }
        if self.board.is_collision() {
            // the step has brought the piece to rest: its lock time starts
            if self.board.lock_placements() >= MAX_LOCK_PLACEMENTS {
                self.state = GameState::Lock(LOCK_DURATION);
            } else {
                self.state = GameState::Lock(0);
            }
        } else {
            // nothing below: a new step of the fall starts
            self.state = GameState::Fall(0);
        }
        proof {
            self.board.lemma_view_wf();
        }
        self.state
    }

    fn lock(&mut self, duration: u64) -> (state: GameState)
        requires
            old(self).wf(),
            old(self)@.phase is Lock,
        ensures
            final(self).wf(),
            state@ == final(self)@.phase,
            final(self)@ == old(self)@.lock(duration as nat),
            final(self).supplier() == old(self).supplier(),
    {
        proof {
            self.board.lemma_view_wf();
        }
        let max_lock_duration = if self.soft_drop {
            SOFT_DROP_LOCK_DURATION
        } else {
            LOCK_DURATION
        };
        if duration < max_lock_duration {
            self.state = GameState::Lock(duration);
        } else if self.board.is_collision() {
            // the lock time is up and the piece still rests: it locks now
            self.board.lock();
            // the hold may be used for the next piece
            match self.hold {
                Some(HoldState { locked, shape }) if locked => {
                    self.hold = Some(HoldState { locked: false, shape });
                },
                _ => {},
            }
            self.state = GameState::Pattern;
        } else {
            // the piece has been moved over open cells: it falls again
            self.state = GameState::Fall(0);
        }
        proof {
            self.board.lemma_view_wf();
        }
        self.state
    }

    fn pattern(&mut self) -> (state: GameState)
        requires
            old(self).wf(),
            old(self)@.phase is Pattern,
        ensures
            final(self).wf(),
            state@ == final(self)@.phase,
            final(self)@ == old(self)@.pattern(),
            final(self).supplier() == old(self).supplier(),
    {
        self.state = GameState::Destroy(self.board.pattern());
        self.state
    }

    fn destroy(&mut self, pattern: DestroyPattern) -> (state: GameState)
        requires
            old(self).wf(),
            old(self)@.phase is Destroy,
            old(self)@.score_fits(pattern),
        ensures
            final(self).wf(),
            state@ == final(self)@.phase,
            final(self)@ == old(self)@.destroy(pattern, final(self)@.queue.last()),
    {
        proof {
            self.board.lemma_view_wf();
        }
        self.board.destroy(pattern);
        self.update_score(pattern);
        let next_shape = self.random.next();
        self.state = GameState::Spawn(0, next_shape);
        proof {
            self.board.lemma_view_wf();
        }
        self.state
    }

    fn update_score(&mut self, pattern: DestroyPattern)
        requires
            old(self)@.score_fits(pattern),
        ensures
            final(self)@ == (GameView { board: old(self)@.board, ..old(self)@.scored(pattern) }),
            final(self).board == old(self).board,
            final(self).supplier() == old(self).supplier(),
    {
        let action_score: u32 = pattern.base_points();
        if action_score == 0 {
            self.combo = None;
            return ;
        }
        // the combo moves on
        self.combo = Combo::advance(self.combo, pattern);
        // the points of the clear, at the level before it
        let score_delta: u64 = match self.combo {
            Some(combo) => combo.points(self.level, pattern),
            None => 0,
        };
        self.score = self.score + score_delta as u32;
        // the level follows the lines
        self.lines = self.lines + pattern.lines();
        let line_level: u32 = self.lines / LINES_PER_LEVEL;
        if line_level > self.level {
            self.level = line_level;
        }
    }

    /// The cells of row `y` of the field, for `y` below `BOARD_HEIGHT`.
    pub fn row(&self, y: u32) -> (cells: &[BlockState])
        requires
            self.wf(),
            y < BOARD_HEIGHT,
        ensures
            cells@ == self@.board.row(y as int),
    {
        self.board.row(y)
    }

    /// The wait before a piece spawns.
    pub fn spawn_delay(&self) -> (delay: u64)
        ensures
            delay == spawn_delay(self@.level, self@.soft_drop),
    {
        let base: u64 = self.base_delay(SOFT_DROP_SPAWN_FACTOR);
        if base < MIN_SPAWN_DELAY {
            base
        } else {
            MIN_SPAWN_DELAY
        }
    }

    /// The time between two steps down.
    pub fn step_delay(&self) -> (delay: u64)
        ensures
            delay == step_delay(self@.level, self@.soft_drop),
    {
        self.base_delay(SOFT_DROP_STEP_FACTOR)
    }

    /// The time of one step at the level of the match, divided by
    /// `soft_drop_factor` while soft drop is on.
    pub fn base_delay(&self, soft_drop_factor: u32) -> (delay: u64)
        requires
            soft_drop_factor > 0,
        ensures
            delay == base_delay(self@.level, self@.soft_drop, soft_drop_factor as nat),
    {
        let millis: u64 = match self.level {
            0 => 1000,
            1 => 793,
            2 => 618,
            3 => 473,
            4 => 355,
            5 => 262,
            6 => 190,
            7 => 135,
            8 => 94,
            9 => 64,
            10 => 43,
            11 => 28,
            12 => 18,
            13 => 11,
            _ => 7,
        };
        let base: u64 = millis * NANOS_PER_MILLI;
        if self.soft_drop {
            base / (soft_drop_factor as u64)
        } else {
            base
        }
    }
}

} // verus!
