use tetris_core::game::random::{Dice, RandomMode, RandomTetromino, Randomizer, PEEK_SIZE};
use tetris_core::game::tetromino::TetrominoShape;
use tetris_core::game::{Game, GameState};

#[test]
fn dice_follow_from_their_seed() {
    let mut a = Dice::new(42);
    let mut b = Dice::new(42);
    let mut c = Dice::new(43);
    let rolls_a: Vec<u32> = (0..32).map(|_| a.roll(1000)).collect();
    let rolls_b: Vec<u32> = (0..32).map(|_| b.roll(1000)).collect();
    let rolls_c: Vec<u32> = (0..32).map(|_| c.roll(1000)).collect();
    assert_eq!(rolls_a, rolls_b);
    assert_ne!(rolls_a, rolls_c);
    assert!(rolls_a.iter().all(|r| *r < 1000));
}

#[test]
fn the_first_roll_is_the_xorshift_of_the_seed() {
    // 1 ^ (1 << 13) = 0x2001; ^ (>> 7) = 0x2041; ^ (<< 17) = 0x4082_2041
    assert_eq!(Dice::new(1).roll(u32::MAX), 0);
    let state: u64 = 0x4082_2041;
    let a = state ^ (state << 13);
    let b = a ^ (a >> 7);
    let next = b ^ (b << 17);
    let mut dice = Dice::new(1);
    dice.roll(7);
    assert_eq!(dice.roll(1000), ((next >> 32) % 1000) as u32);
    assert_eq!(Dice::new(5).roll(1), 0);
}

#[test]
fn the_seed_zero_rolls_too() {
    let mut dice = Dice::new(0);
    let rolls: Vec<u32> = (0..64).map(|_| dice.roll(7)).collect();
    assert!(rolls.iter().any(|r| *r != rolls[0]));
}

#[test]
fn next_hands_out_what_peek_showed() {
    for mode in [RandomMode::True, RandomMode::Bag] {
        let mut random = mode.build(2024);
        for _ in 0..100 {
            let shown = random.peek();
            let shape = random.next();
            assert_eq!(shape, shown[0]);
            assert_eq!(&random.peek()[..PEEK_SIZE - 1], &shown[1..]);
        }
    }
}

#[test]
fn a_bag_deals_each_shape_once() {
    for seed in 0..50 {
        let mut random = Randomizer::new(RandomMode::Bag, seed);
        for _ in 0..10 {
            let mut bag: Vec<TetrominoShape> = (0..7).map(|_| random.next()).collect();
            for shape in [
                TetrominoShape::I,
                TetrominoShape::O,
                TetrominoShape::T,
                TetrominoShape::S,
                TetrominoShape::Z,
                TetrominoShape::J,
                TetrominoShape::L,
            ] {
                let at = bag.iter().position(|s| *s == shape).unwrap();
                bag.remove(at);
            }
            assert!(bag.is_empty());
        }
    }
}

#[test]
fn suppliers_follow_from_their_seed() {
    for mode in [RandomMode::True, RandomMode::Bag] {
        let mut a = mode.build(7);
        let mut b = mode.build(7);
        let mut c = mode.build(8);
        let from_a: Vec<TetrominoShape> = (0..50).map(|_| a.next()).collect();
        let from_b: Vec<TetrominoShape> = (0..50).map(|_| b.next()).collect();
        let from_c: Vec<TetrominoShape> = (0..50).map(|_| c.next()).collect();
        assert_eq!(from_a, from_b);
        assert_ne!(from_a, from_c);
    }
}

#[test]
fn a_match_draws_from_its_supplier() {
    let mut reference = RandomMode::Bag.build(99);
    let mut game = Game::new(1, 0, RandomMode::Bag.build(99));
    let first = reference.next();
    assert_eq!(game.state(), GameState::Spawn(0, first));
    assert_eq!(game.metrics().queue, reference.peek());
    // play the first piece out: the second is the supplier's next
    game.update(1_000_000_000);
    assert!(game.hard_drop());
    game.update(0);
    game.update(0);
    let second = reference.next();
    assert_eq!(game.update(0), GameState::Spawn(0, second));
    assert_eq!(game.metrics().queue, reference.peek());
}

#[test]
fn a_long_match_keeps_its_numbers_in_order() {
    for seed in 1..6u64 {
        let mut choice = Dice::new(seed.wrapping_mul(7919));
        let mut game = Game::new(3, 0, RandomMode::Bag.build(seed));
        let mut last = game.metrics();
        let mut pieces = 0;
        for _ in 0..20_000 {
            match choice.roll(8) {
                0 => {
                    game.left();
                }
                1 => {
                    game.right();
                }
                2 => {
                    game.rotate(true);
                }
                3 => {
                    game.rotate(false);
                }
                4 => {
                    game.hold();
                }
                5 => {
                    if game.hard_drop() {
                        pieces += 1;
                    }
                }
                6 => {
                    game.set_soft_drop(choice.roll(2) == 0);
                }
                _ => {}
            }
            let state = game.update(40_000_000);
            assert_eq!(state, game.state());
            let metrics = game.metrics();
            assert_eq!(metrics.player, 3);
            assert!(metrics.score >= last.score);
            assert!(metrics.lines >= last.lines);
            assert!(metrics.level >= last.level);
            assert!(metrics.level >= metrics.lines / 10);
            assert!(metrics.lines - last.lines <= 4);
            if let GameState::GameOver(_) = state {
                break;
            }
            last = metrics;
        }
        assert!(pieces >= 3);
        // every cell is empty, part of the stack, or one of the four minos
        // of the piece in play
        let mut minos = 0;
        for y in 0..40 {
            let row = game.row(y);
            assert_eq!(row.len(), 10);
            minos += row
                .iter()
                .filter(|c| matches!(c, tetris_core::game::block::BlockState::Tetromino(_)))
                .count();
        }
        assert!(minos == 0 || minos == 4);
    }
}
