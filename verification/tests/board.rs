use tetris_core::game::block::BlockState;
use tetris_core::game::board::{Board, DestroyPattern, Motion, BOARD_HEIGHT, BOARD_WIDTH};
use tetris_core::game::geometry::Point;
use tetris_core::game::tetromino::{Rotation, Tetromino, TetrominoShape};

use DestroyPattern::{Double, Nothing, Single, Tetris, Triple};
use TetrominoShape::{I, J, L, O, S, T, Z};

fn cells(board: &Board, wanted: BlockState) -> Vec<(u32, u32)> {
    let mut found = Vec::new();
    for y in 0..BOARD_HEIGHT {
        for (x, cell) in board.row(y).iter().enumerate() {
            if *cell == wanted {
                found.push((x as u32, y));
            }
        }
    }
    found
}

fn minos(piece: &Tetromino) -> Vec<(i32, i32)> {
    let mut all: Vec<(i32, i32)> = (0..4).map(|i| piece.mino(i)).map(|p| (p.x, p.y)).collect();
    all.sort();
    all
}

#[test]
fn a_new_board_is_empty() {
    let board = Board::new();
    for y in 0..BOARD_HEIGHT {
        assert_eq!(board.row(y).len(), BOARD_WIDTH as usize);
        assert!(board.row(y).iter().all(|c| *c == BlockState::Empty));
    }
    assert!(!board.is_collision());
    assert_eq!(board.lock_placements(), 0);
    assert_eq!(board.pattern(), DestroyPattern::Nothing);
}

#[test]
fn a_board_without_a_piece_refuses_every_move() {
    let mut board = Board::new();
    assert!(!board.left());
    assert!(!board.right());
    assert!(!board.rotate(true));
    assert!(!board.step_down());
    assert!(!board.attempt(Motion::Left));
    assert_eq!(board.hold(), None);
    assert_eq!(board.hard_drop(), None);
    board.lock();
    board.destroy(DestroyPattern::Tetris);
    assert_eq!(cells(&board, BlockState::Empty).len(), 400);
}

#[test]
fn pieces_spawn_centred_above_the_visible_rows() {
    let expected: [(TetrominoShape, [(u32, u32); 4]); 7] = [
        (I, [(3, 20), (4, 20), (5, 20), (6, 20)]),
        (O, [(4, 20), (5, 20), (4, 21), (5, 21)]),
        (T, [(3, 20), (4, 20), (5, 20), (4, 21)]),
        (S, [(3, 20), (4, 20), (4, 21), (5, 21)]),
        (Z, [(4, 20), (5, 20), (3, 21), (4, 21)]),
        (J, [(3, 20), (4, 20), (5, 20), (3, 21)]),
        (L, [(3, 20), (4, 20), (5, 20), (5, 21)]),
    ];
    for (shape, at) in expected {
        let mut board = Board::new();
        assert!(board.try_spawn_tetromino(shape));
        assert_eq!(cells(&board, BlockState::Tetromino(shape)), at.to_vec());
        assert_eq!(cells(&board, BlockState::Empty).len(), 396);
    }
}

#[test]
fn the_spawn_piece_is_described_by_its_minos() {
    let piece = Tetromino::spawn(T);
    assert_eq!(piece, Tetromino { shape: T, rotation: Rotation::North, x: 3, y: 19 });
    assert_eq!(piece.mino(3), Point { x: 4, y: 21 });
    assert_eq!(minos(&piece), vec![(3, 20), (4, 20), (4, 21), (5, 20)]);
    assert_eq!(Tetromino::spawn(I).y, 18);
    assert_eq!(Tetromino::spawn(O), Tetromino { shape: O, rotation: Rotation::North, x: 4, y: 20 });
    assert_eq!(piece.shifted(-2, 5), Tetromino { shape: T, rotation: Rotation::North, x: 1, y: 24 });
}

#[test]
fn a_quarter_turn_turns_the_box() {
    let t = Tetromino { shape: T, rotation: Rotation::North, x: 0, y: 0 };
    assert_eq!(minos(&t.turned(true)), vec![(1, 0), (1, 1), (1, 2), (2, 1)]);
    assert_eq!(minos(&t.turned(true).turned(true)), vec![(0, 1), (1, 0), (1, 1), (2, 1)]);
    assert_eq!(minos(&t.turned(false)), vec![(0, 1), (1, 0), (1, 1), (1, 2)]);
    let i = Tetromino { shape: I, rotation: Rotation::North, x: 0, y: 0 };
    assert_eq!(minos(&i), vec![(0, 2), (1, 2), (2, 2), (3, 2)]);
    assert_eq!(minos(&i.turned(true)), vec![(2, 0), (2, 1), (2, 2), (2, 3)]);
    assert_eq!(minos(&i.turned(false)), vec![(1, 0), (1, 1), (1, 2), (1, 3)]);
    let o = Tetromino { shape: O, rotation: Rotation::North, x: 0, y: 0 };
    assert_eq!(minos(&o.turned(true)), minos(&o));
    for shape in [I, O, T, S, Z, J, L] {
        let piece = Tetromino { shape, rotation: Rotation::North, x: 2, y: 7 };
        let round = piece.turned(true).turned(true).turned(true).turned(true);
        assert_eq!(round, piece);
        assert_eq!(piece.turned(true).turned(false), piece);
        assert_eq!(Rotation::West.turned(true), Rotation::North);
        assert_eq!(piece.shape.box_size(), if shape == I { 4 } else if shape == O { 2 } else { 3 });
    }
}

#[test]
fn a_piece_moves_until_a_wall_stops_it() {
    let mut board = Board::new();
    assert!(board.try_spawn_tetromino(O));
    for _ in 0..4 {
        assert!(board.left());
    }
    assert!(!board.left());
    assert_eq!(cells(&board, BlockState::Tetromino(O)), vec![(0, 20), (1, 20), (0, 21), (1, 21)]);
    for _ in 0..8 {
        assert!(board.attempt(Motion::Right));
    }
    assert!(!board.right());
    assert_eq!(cells(&board, BlockState::Tetromino(O)), vec![(8, 20), (9, 20), (8, 21), (9, 21)]);
    assert!(board.rotate(false));
    assert!(board.attempt(Motion::Rotate { clockwise: true }));
}

#[test]
fn a_turn_into_a_wall_is_refused() {
    let mut board = Board::new();
    assert!(board.try_spawn_tetromino(I));
    assert!(board.rotate(true));
    // upright in column 5
    for _ in 0..4 {
        assert!(board.right());
    }
    assert!(!board.right());
    assert_eq!(cells(&board, BlockState::Tetromino(I)), vec![(9, 18), (9, 19), (9, 20), (9, 21)]);
    // lying down it would reach past the wall
    assert!(!board.rotate(true));
    assert!(!board.rotate(false));
    assert_eq!(cells(&board, BlockState::Tetromino(I)).len(), 4);
}

#[test]
fn a_piece_steps_down_to_the_floor_and_rests() {
    let mut board = Board::new();
    assert!(board.try_spawn_tetromino(T));
    assert!(!board.is_collision());
    for _ in 0..20 {
        assert!(!board.is_collision());
        assert!(board.step_down());
    }
    assert!(board.is_collision());
    assert!(!board.step_down());
    assert_eq!(cells(&board, BlockState::Tetromino(T)), vec![(3, 0), (4, 0), (5, 0), (4, 1)]);
}

#[test]
fn hard_drop_counts_the_rows() {
    let mut board = Board::new();
    assert_eq!(board.drop_rows(), None);
    assert!(board.try_spawn_tetromino(T));
    assert_eq!(board.drop_rows(), Some(20));
    assert!(!board.is_collision());
    assert_eq!(board.hard_drop(), Some(20));
    assert_eq!(board.drop_rows(), Some(0));
    assert!(board.is_collision());
    assert_eq!(board.hard_drop(), Some(0));
    board.lock();
    assert!(!board.is_collision());
    assert_eq!(cells(&board, BlockState::Stack(T)), vec![(3, 0), (4, 0), (5, 0), (4, 1)]);
    assert!(board.try_spawn_tetromino(O));
    // the square comes to rest on the nub of the T
    assert_eq!(board.hard_drop(), Some(18));
    assert_eq!(cells(&board, BlockState::Tetromino(O)), vec![(4, 2), (5, 2), (4, 3), (5, 3)]);
}

#[test]
fn hold_takes_the_piece_out() {
    let mut board = Board::new();
    assert!(board.try_spawn_tetromino(S));
    assert_eq!(board.hold(), Some(S));
    assert_eq!(cells(&board, BlockState::Empty).len(), 400);
    assert_eq!(board.hold(), None);
    assert!(!board.left());
}

#[test]
fn lock_placements_count_up_and_start_anew_with_a_piece() {
    let mut board = Board::new();
    assert!(board.try_spawn_tetromino(S));
    assert_eq!(board.register_lock_placement(), 1);
    assert_eq!(board.register_lock_placement(), 2);
    assert_eq!(board.lock_placements(), 2);
    board.hard_drop();
    board.lock();
    assert_eq!(board.lock_placements(), 2);
    assert!(board.try_spawn_tetromino(Z));
    assert_eq!(board.lock_placements(), 0);
}

#[test]
fn a_piece_without_room_does_not_spawn() {
    let mut board = Board::new();
    for _ in 0..10 {
        assert!(board.try_spawn_tetromino(O));
        board.hard_drop();
        board.lock();
    }
    // the tenth square fills rows 18 and 19: the next has room on 20 and 21
    assert!(board.try_spawn_tetromino(O));
    board.lock();
    let before = cells(&board, BlockState::Stack(O));
    assert_eq!(before.len(), 44);
    assert!(!board.try_spawn_tetromino(O));
    assert!(!board.try_spawn_tetromino(T));
    assert_eq!(cells(&board, BlockState::Stack(O)), before);
    assert_eq!(board.hold(), None);
    // an upright bar would have room beside the squares, but a piece spawns
    // lying down
    assert!(!board.try_spawn_tetromino(I));
}

fn drop_at(board: &mut Board, shape: TetrominoShape, upright: bool, dx: i32) {
    assert!(board.try_spawn_tetromino(shape));
    if upright {
        assert!(board.rotate(true));
    }
    for _ in 0..dx.abs() {
        assert!(if dx < 0 { board.left() } else { board.right() });
    }
    assert!(board.hard_drop().is_some());
    board.lock();
}

#[test]
fn full_rows_make_the_pattern_and_destroy_removes_them() {
    let mut board = Board::new();
    drop_at(&mut board, I, false, -3);
    drop_at(&mut board, I, false, 1);
    assert_eq!(board.pattern(), DestroyPattern::Nothing);
    drop_at(&mut board, O, false, 4);
    assert_eq!(board.pattern(), DestroyPattern::Single);
    // a piece on top of the full row
    drop_at(&mut board, T, false, 0);
    assert_eq!(cells(&board, BlockState::Stack(T)), vec![(3, 1), (4, 1), (5, 1), (4, 2)]);
    board.destroy(DestroyPattern::Single);
    assert_eq!(board.pattern(), DestroyPattern::Nothing);
    assert_eq!(cells(&board, BlockState::Stack(I)), vec![]);
    assert_eq!(cells(&board, BlockState::Stack(O)), vec![(8, 0), (9, 0)]);
    assert_eq!(cells(&board, BlockState::Stack(T)), vec![(3, 0), (4, 0), (5, 0), (4, 1)]);
    assert_eq!(cells(&board, BlockState::Empty).len(), 394);
    // nothing is full: destroy removes nothing
    board.destroy(DestroyPattern::Tetris);
    assert_eq!(cells(&board, BlockState::Empty).len(), 394);
}

#[test]
fn the_pattern_counts_up_to_a_tetris() {
    let mut board = Board::new();
    let mut expected = vec![DestroyPattern::Single, DestroyPattern::Double, DestroyPattern::Triple];
    expected.extend([DestroyPattern::Tetris; 3]);
    for pattern in expected {
        drop_at(&mut board, I, false, -3);
        drop_at(&mut board, I, false, 1);
        drop_at(&mut board, I, true, 3);
        drop_at(&mut board, I, true, 4);
        // the two upright bars fill columns 8 and 9 four rows high each time
        while board.pattern() != pattern {
            drop_at(&mut board, I, false, -3);
            drop_at(&mut board, I, false, 1);
        }
        assert_eq!(board.pattern(), pattern);
        if pattern == DestroyPattern::Tetris {
            break;
        }
    }
}

#[test]
fn destroy_removes_the_lowest_rows_of_the_pattern_only() {
    let mut board = Board::new();
    // four full rows: bars lying on columns 0 to 7, squares on 8 and 9
    for _ in 0..4 {
        drop_at(&mut board, I, false, -3);
        drop_at(&mut board, I, false, 1);
    }
    drop_at(&mut board, O, false, 4);
    drop_at(&mut board, O, false, 4);
    assert_eq!(board.pattern(), DestroyPattern::Tetris);
    board.destroy(DestroyPattern::Double);
    assert_eq!(board.pattern(), DestroyPattern::Double);
    assert_eq!(cells(&board, BlockState::Empty).len(), 380);
    board.destroy(DestroyPattern::Nothing);
    assert_eq!(board.pattern(), DestroyPattern::Double);
    board.destroy(DestroyPattern::Triple);
    assert_eq!(board.pattern(), DestroyPattern::Nothing);
    assert_eq!(cells(&board, BlockState::Empty).len(), 400);
}

#[test]
fn patterns_have_lines_and_points() {
    let table = [(Nothing, 0, 0), (Single, 1, 100), (Double, 2, 300), (Triple, 3, 500), (Tetris, 4, 800)];
    for (pattern, lines, points) in table {
        assert_eq!(pattern.lines(), lines);
        assert_eq!(pattern.base_points(), points);
        assert_eq!(pattern.is_difficult(), pattern == Tetris);
    }
    assert!(BlockState::Stack(T).is_stack());
    assert!(!BlockState::Tetromino(T).is_stack());
    assert!(!BlockState::Empty.is_stack());
}

#[test]
fn no_row_is_removed_while_a_piece_is_in_play() {
    let mut board = Board::new();
    drop_at(&mut board, I, false, -3);
    drop_at(&mut board, I, false, 1);
    drop_at(&mut board, O, false, 4);
    assert!(board.try_spawn_tetromino(T));
    assert_eq!(board.pattern(), Single);
    board.destroy(Single);
    assert_eq!(board.pattern(), Single);
    assert_eq!(cells(&board, BlockState::Stack(I)).len(), 8);
    assert_eq!(board.hold(), Some(T));
    board.destroy(Single);
    assert_eq!(board.pattern(), Nothing);
    assert_eq!(cells(&board, BlockState::Stack(I)).len(), 0);
}
