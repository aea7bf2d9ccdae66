//! What holds of every match, whatever its players and its supplier do.

use vstd::prelude::*;
use crate::game::board::{DestroyPattern, Motion, BOARD_HEIGHT, MAX_LOCK_PLACEMENTS};
use crate::game::scoring::{
    clear_points, score_delta, ComboView, COMBO_POINTS, HARD_DROP_POINTS_PER_ROW, TETRIS_POINTS,
};
use crate::game::tetromino::TetrominoShape;
use crate::game::timing::{LINES_PER_LEVEL, LOCK_DURATION};
use crate::game::{GameOverCondition, GameView, Phase};

verus! {

/// What can be asked of a match.
pub enum Command {
    /// Let `delta` nanoseconds pass. `refill` is the shape that comes into
    /// the supplier's queue if the tick takes one out.
    Tick { delta: nat, refill: TetrominoShape },
    /// Put the piece in play aside. `refill` is the shape that comes into the
    /// supplier's queue if the hold takes one out.
    Hold { refill: TetrominoShape },
    /// Drop the piece in play to where it rests.
    HardDrop,
    /// Switch soft drop on or off.
    SoftDrop { enabled: bool },
    /// Move or turn the piece in play.
    Move { motion: Motion },
}

impl GameView {
    /// The match after `command`.
    pub open spec fn apply(self, command: Command) -> GameView {
        match command {
            Command::Tick { delta, refill } => self.tick(delta, refill),
            Command::Hold { refill } => self.held(refill),
            Command::HardDrop => self.hard_dropped(),
            Command::SoftDrop { enabled } => GameView { soft_drop: enabled, ..self },
            Command::Move { motion } => self.moved(motion),
        }
    }

    /// Whether `command` makes the piece in play part of the stack.
    pub open spec fn locks_piece(self, command: Command) -> bool {
        command is Tick && self.phase is Lock && self.apply(command).phase is Pattern
    }

    /// The match after the commands of `run`, the first one first.
    pub open spec fn after(self, run: Seq<Command>) -> GameView
        decreases run.len(),
    {
        if run.len() == 0 {
            self
        } else {
            self.apply(run[0]).after(run.skip(1))
        }
    }

    /// Whether some command of `run` makes a piece part of the stack.
    pub open spec fn locks_during(self, run: Seq<Command>) -> bool
        decreases run.len(),
    {
        run.len() > 0 && (self.locks_piece(run[0]) || self.apply(run[0]).locks_during(
            run.skip(1),
        ))
    }

    /// Whether the hold has been used for the piece now in play.
    pub open spec fn hold_used(self) -> bool {
        self.hold matches Some(h) && h.locked
    }
}

/// At level 0 a clear that starts a combo adds the base points of its
/// pattern to the score and nothing else.
pub proof fn lemma_first_clear_at_level_zero(game: GameView, pattern: DestroyPattern)
    requires
        game.level == 0,
        game.combo is None,
    ensures
        game.scored(pattern).score == game.score + pattern.spec_base_points(),
{
    lemma_first_clear_has_no_bonus(game, pattern);
    assert(pattern.spec_base_points() * (0 + 1) == pattern.spec_base_points()) by (nonlinear_arith);
}

/// The clear that starts a combo never has the multiplier for difficult
/// clears: at every level it adds the base points times the level plus one,
/// a tetris too.
pub proof fn lemma_first_clear_has_no_bonus(game: GameView, pattern: DestroyPattern)
    requires
        game.combo is None,
    ensures
        game.scored(pattern).score == game.score + pattern.spec_base_points() * (game.level + 1),
        score_delta(game.level, None, pattern) == pattern.spec_base_points() * (game.level + 1),
{
    let base = pattern.spec_base_points();
    let level = game.level;
    assert((base * (level + 1) * 2 + 1) / 2 == base * (level + 1)) by (nonlinear_arith);
    assert(0 * (level + 1) == 0) by (nonlinear_arith);
}

/// A tetris that follows on nothing but tetrises adds one and a half times
/// its points at the level, and the combo points for each clear before it
/// in the run.
pub proof fn lemma_back_to_back_tetris(game: GameView, combo: ComboView)
    requires
        game.combo == Some(combo),
        combo.difficult,
    ensures
        game.scored(DestroyPattern::Tetris).score == game.score + 1200 * (game.level + 1)
            + COMBO_POINTS * (combo.count + 1),
        game.scored(DestroyPattern::Tetris).combo == Some(
            ComboView { count: combo.count + 1, difficult: true },
        ),
{
    let level = game.level;
    let after = ComboView { count: combo.count + 1, difficult: true };
    assert(TETRIS_POINTS == 800 && COMBO_POINTS == 50);
    assert(800 * (level + 1) * 3 == 2400 * (level + 1)) by (nonlinear_arith);
    assert(clear_points(level, after, DestroyPattern::Tetris) == (2400 * (level + 1) + 100 * (
    combo.count + 1) + 1) / 2);
}

/// In a run that holds a clear other than a tetris no clear has the
/// multiplier for difficult clears.
pub proof fn lemma_broken_run_has_no_bonus(
    game: GameView,
    combo: ComboView,
    pattern: DestroyPattern,
)
    requires
        game.combo == Some(combo),
        !combo.difficult || pattern != DestroyPattern::Tetris,
        pattern != DestroyPattern::Nothing,
    ensures
        game.scored(pattern).score == game.score + pattern.spec_base_points() * (game.level + 1)
            + COMBO_POINTS * (combo.count + 1),
{
    let base = pattern.spec_base_points();
    let level = game.level;
    assert(COMBO_POINTS == 50);
    assert((base * (level + 1) * 2 + 2 * 50 * (combo.count + 1) + 1) / 2 == base * (level + 1) + 50
        * (combo.count + 1)) by (nonlinear_arith);
}

/// A tick that removes no line ends the combo, however long it was, and the
/// next clear starts a new one at count 0.
pub proof fn lemma_no_clear_ends_combo(game: GameView, next: DestroyPattern)
    requires
        next != DestroyPattern::Nothing,
    ensures
        game.scored(DestroyPattern::Nothing).combo is None,
        game.scored(DestroyPattern::Nothing).score == game.score,
        game.scored(DestroyPattern::Nothing).scored(next).combo == Some(
            ComboView { count: 0, difficult: next.spec_is_difficult() },
        ),
{
}

/// Each clear in a row counts the combo up by exactly one.
pub proof fn lemma_clear_counts_combo_up(game: GameView, combo: ComboView, pattern: DestroyPattern)
    requires
        game.combo == Some(combo),
        pattern != DestroyPattern::Nothing,
    ensures
        game.scored(pattern).combo matches Some(c) && c.count == combo.count + 1,
{
}

/// The level never falls, and it is never below a tenth of the lines.
pub proof fn lemma_level_never_falls(game: GameView, pattern: DestroyPattern)
    ensures
        game.scored(pattern).level >= game.level,
        game.scored(pattern).lines == game.lines + pattern.spec_lines(),
        pattern != DestroyPattern::Nothing ==> game.scored(pattern).level >= game.scored(
            pattern,
        ).lines / (LINES_PER_LEVEL as nat),
{
}

/// In a match whose level is that of its lines, the level rises exactly when
/// the lines pass a multiple of `LINES_PER_LEVEL`, and stays that of the
/// lines.
pub proof fn lemma_level_follows_lines(game: GameView, pattern: DestroyPattern)
    requires
        game.level == game.lines / (LINES_PER_LEVEL as nat),
    ensures
        game.scored(pattern).level == game.scored(pattern).lines / (LINES_PER_LEVEL as nat),
        game.scored(pattern).level > game.level <==> (game.lines + pattern.spec_lines()) / (
        LINES_PER_LEVEL as nat) > game.lines / (LINES_PER_LEVEL as nat),
{
}

/// Putting a piece aside uses the hold up.
pub proof fn lemma_hold_uses_hold(game: GameView, refill: TetrominoShape)
    requires
        game.hold_allowed(),
    ensures
        game.held(refill).hold_used(),
{
}

/// While the hold is used up, an attempt to put a piece aside fails and
/// changes nothing.
pub proof fn lemma_used_hold_refuses(game: GameView, refill: TetrominoShape)
    requires
        game.hold_used(),
    ensures
        !game.hold_allowed(),
        game.held(refill) == game,
{
}

/// The hold stays used up through every command that does not make a piece
/// part of the stack.
pub proof fn lemma_hold_stays_used(game: GameView, command: Command)
    requires
        game.hold_used(),
        !game.locks_piece(command),
    ensures
        game.apply(command).hold_used(),
{
}

/// The hold works once for each piece: after a piece has been put aside,
/// no attempt to put one aside succeeds before a piece has locked.
pub proof fn lemma_hold_once_per_piece(game: GameView, refill: TetrominoShape, run: Seq<Command>)
    requires
        game.hold_allowed(),
        !game.held(refill).locks_during(run),
    ensures
        !game.held(refill).after(run).hold_allowed(),
{
    lemma_hold_uses_hold(game, refill);
    lemma_used_through(game.held(refill), run);
}

/// The hold stays used up through every run of commands in which no piece
/// locks.
pub proof fn lemma_used_through(game: GameView, run: Seq<Command>)
    requires
        game.hold_used(),
        !game.locks_during(run),
    ensures
        game.after(run).hold_used(),
    decreases run.len(),
{
    if run.len() > 0 {
        lemma_hold_stays_used(game, run[0]);
        lemma_used_through(game.apply(run[0]), run.skip(1));
    }
}

/// The lock of a piece gives the hold back.
pub proof fn lemma_lock_frees_hold(game: GameView, command: Command)
    requires
        game.locks_piece(command),
    ensures
        !game.apply(command).hold_used(),
{
}

/// A resting piece with its lock placements used up cannot be moved, however
/// much lock time is left: the attempt fails and the field stays as it is.
pub proof fn lemma_spent_placements_refuse(game: GameView, motion: Motion)
    requires
        game.phase is Lock,
        game.board.lock_placements >= MAX_LOCK_PLACEMENTS,
    ensures
        !game.move_accepted(motion),
        game.moved(motion).board == game.board,
        game.moved(motion).phase is Lock,
{
}

/// A move under lock that succeeds counts as one lock placement, and the
/// last placement ends the lock time.
pub proof fn lemma_move_under_lock_counts(game: GameView, motion: Motion)
    requires
        game.phase is Lock,
        game.move_accepted(motion),
    ensures
        game.moved(motion).board.lock_placements == game.board.lock_placements + 1,
        game.moved(motion).phase == if game.board.lock_placements + 1 < MAX_LOCK_PLACEMENTS {
            Phase::Lock(0)
        } else {
            Phase::Lock(LOCK_DURATION as nat)
        },
{
}

/// After a hard drop the piece can be neither moved nor put aside, and the
/// next tick, however short, makes it part of the stack where it landed.
pub proof fn lemma_hard_drop_locks_at_next_tick(
    game: GameView,
    delta: nat,
    refill: TetrominoShape,
    motion: Motion,
)
    requires
        game.wf(),
        game.board.active is Some,
    ensures
        !game.hard_dropped().move_accepted(motion),
        game.hard_dropped().moved(motion) == game.hard_dropped(),
        game.hard_dropped().held(refill) == game.hard_dropped(),
        game.hard_dropped().tick(delta, refill).phase is Pattern,
        game.hard_dropped().tick(delta, refill).board == game.board.dropped().locked(),
{
    let t = game.board.active->0;
    game.board.lemma_landing_rests(t);
    let dropped = game.hard_dropped();
    assert(dropped.phase == Phase::Lock(LOCK_DURATION as nat));
    assert(dropped.board.is_collision());
}

/// A hard drop is worth less than the hard drop points for each row of the
/// field.
pub proof fn lemma_hard_drop_is_bounded(game: GameView)
    requires
        game.wf(),
    ensures
        game.hard_dropped().score < game.score + HARD_DROP_POINTS_PER_ROW * BOARD_HEIGHT,
{
    if game.board.active is Some {
        game.board.lemma_drop_distance_bounded(game.board.active->0);
    }
}

/// Every command leaves the match well-formed: the field keeps its size, the
/// piece in play overlaps nothing, and a piece is in play exactly in `Fall`
/// and in `Lock`.
pub proof fn lemma_command_keeps_wf(game: GameView, command: Command)
    requires
        game.wf(),
    ensures
        game.apply(command).wf(),
{
    let board = game.board;
    match command {
        Command::Tick { delta, refill } => {
            match game.phase {
                Phase::Lock(_) => {
                    board.lemma_locked_is_stack();
                },
                Phase::Destroy(pattern) => {
                    board.lemma_cleared_keeps(pattern.spec_lines());
                },
                _ => {},
            }
        },
        Command::HardDrop => {
            if board.active is Some {
                board.lemma_landing_rests(board.active->0);
            }
        },
        _ => {},
    }
}

/// Once a match is lost, no tick changes it, and no command does but the
/// switch of soft drop, which changes that setting alone.
pub proof fn lemma_game_over_is_final(game: GameView, command: Command)
    requires
        game.wf(),
        game.phase is GameOver,
    ensures
        game.apply(command) == match command {
            Command::SoftDrop { enabled } => GameView { soft_drop: enabled, ..game },
            _ => game,
        },
{
}

/// A match is lost by a tick in one way only: the piece that is to spawn has
/// no room.
pub proof fn lemma_only_block_out_ends(game: GameView, delta: nat, refill: TetrominoShape)
    requires
        !(game.phase is GameOver),
        game.tick(delta, refill).phase is GameOver,
    ensures
        game.tick(delta, refill).phase == Phase::GameOver(GameOverCondition::BlockOut),
        game.phase matches Phase::Spawn(_, shape) && !game.board.can_spawn(shape),
        game.tick(delta, refill) == game.at(Phase::GameOver(GameOverCondition::BlockOut)),
{
}

/// No command takes anything back: the level, the lines and the score never
/// fall.
pub proof fn lemma_numbers_never_fall(game: GameView, command: Command)
    ensures
        game.apply(command).level >= game.level,
        game.apply(command).lines >= game.lines,
        game.apply(command).score >= game.score,
        game.apply(command).player == game.player,
{
}

/// The count of lock placements belongs to the piece in play: it never falls
/// but when a new piece spawns.
pub proof fn lemma_placements_never_fall(game: GameView, command: Command)
    requires
        game.wf(),
        !(game.phase is Spawn),
    ensures
        game.apply(command).board.lock_placements >= game.board.lock_placements,
{
    match command {
        Command::Tick { delta, refill } => {
            match game.phase {
                Phase::Destroy(pattern) => {
                    game.board.lemma_cleared_keeps(pattern.spec_lines());
                },
                _ => {},
            }
        },
        _ => {},
    }
}

/// Only a hard drop does away with the wait before a spawn, and nothing
/// brings it back.
pub proof fn lemma_spawn_delay_is_skipped_for_good(game: GameView, command: Command)
    ensures
        game.skip_next_spawn_delay ==> game.apply(command).skip_next_spawn_delay,
        game.apply(command).skip_next_spawn_delay && !game.skip_next_spawn_delay ==> command
            is HardDrop && game.board.active is Some,
{
}

} // verus!
