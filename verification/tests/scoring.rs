use tetris_core::game::board::DestroyPattern;
use tetris_core::game::scoring::Combo;

use DestroyPattern::{Double, Nothing, Single, Tetris, Triple};

/// The run after the clears of `patterns`, one after the other.
fn run(patterns: &[DestroyPattern]) -> Option<Combo> {
    patterns.iter().fold(None, |combo, pattern| Combo::advance(combo, *pattern))
}

#[test]
fn the_first_clear_starts_a_combo_at_zero() {
    for pattern in [Single, Double, Triple, Tetris] {
        let combo = Combo::advance(None, pattern).unwrap();
        assert_eq!(combo.count(), 0);
        assert_eq!(combo.difficult(), pattern == Tetris);
    }
    assert_eq!(Combo::advance(None, Nothing), None);
}

#[test]
fn each_clear_counts_the_combo_up_by_one() {
    let mut combo = None;
    for expected in 0..20 {
        combo = Combo::advance(combo, Single);
        assert_eq!(combo.unwrap().count(), expected);
    }
    assert_eq!(Combo::advance(combo, Nothing), None);
    assert_eq!(run(&[Single, Double, Nothing, Triple]).unwrap().count(), 0);
}

#[test]
fn a_combo_is_difficult_while_every_clear_is_a_tetris() {
    assert!(run(&[Tetris, Tetris, Tetris]).unwrap().difficult());
    assert!(!run(&[Tetris, Single, Tetris]).unwrap().difficult());
    assert!(!run(&[Single, Tetris, Tetris]).unwrap().difficult());
    assert!(!run(&[Tetris, Tetris, Triple]).unwrap().difficult());
    assert_eq!(run(&[Tetris, Single, Tetris]).unwrap().count(), 2);
}

#[test]
fn a_first_clear_at_level_zero_scores_its_base_points() {
    for (pattern, points) in [(Single, 100), (Double, 300), (Triple, 500), (Tetris, 800)] {
        let combo = Combo::advance(None, pattern).unwrap();
        assert_eq!(combo.points(0, pattern), points);
    }
}

#[test]
fn the_level_multiplies_the_base_points() {
    let combo = run(&[Double]).unwrap();
    assert_eq!(combo.points(0, Double), 300);
    assert_eq!(combo.points(1, Double), 600);
    assert_eq!(combo.points(9, Double), 3000);
    assert_eq!(combo.points(u32::MAX, Double), 300 * (1u64 << 32));
}

#[test]
fn the_second_tetris_in_a_row_scores_one_and_a_half_times() {
    let first = run(&[Tetris]).unwrap();
    assert_eq!(first.points(4, Tetris), 4000);
    let second = run(&[Tetris, Tetris]).unwrap();
    assert_eq!(second.points(4, Tetris), 6050);
    assert_eq!(second.points(0, Tetris), 1250);
    let third = run(&[Tetris, Tetris, Tetris]).unwrap();
    assert_eq!(third.points(4, Tetris), 6100);
    assert_eq!(third.points(u32::MAX, Tetris), 1200 * (1u64 << 32) + 100);
}

#[test]
fn a_combo_that_is_not_difficult_adds_the_combo_points_only() {
    let combo = run(&[Tetris, Single]).unwrap();
    assert_eq!(combo.points(0, Single), 150);
    assert_eq!(combo.points(4, Single), 550);
    let combo = run(&[Single, Tetris]).unwrap();
    assert_eq!(combo.points(4, Tetris), 4050);
    let combo = run(&[Single, Single, Single, Triple]).unwrap();
    assert_eq!(combo.points(2, Triple), 1500 + 150);
}
