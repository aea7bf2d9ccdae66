use tetris_core::config::{
    GameConfig, GameInputConfig, InputConfig, MatchRules, MatchThemes, MenuInputConfig,
};
use tetris_core::game_input::GameInputKey;
use tetris_core::menu_input::MenuInputKey;

fn player(base: i32) -> GameInputConfig {
    GameInputConfig {
        move_left: base,
        move_right: base + 1,
        soft_drop: base + 2,
        hard_drop: base + 3,
        rotate_clockwise: base + 4,
        rotate_anticlockwise: base + 5,
        hold: base + 6,
    }
}

fn input(player2: Option<GameInputConfig>) -> InputConfig {
    InputConfig {
        menu: MenuInputConfig { up: 1, down: 2, left: 3, right: 4, select: 5, start: 6 },
        player1: player(100),
        player2,
        pause: 10,
        quit: 11,
        next_theme: 12,
    }
}

#[test]
fn only_a_battle_has_garbage() {
    assert!(MatchRules::Battle.garbage_enabled());
    assert!(!MatchRules::Marathon.garbage_enabled());
    assert!(!MatchRules::ScoreSprint { score: 0 }.garbage_enabled());
    assert!(!MatchRules::LineSprint { lines: 40 }.garbage_enabled());
}

#[test]
fn rules_are_named_with_grouped_numbers() {
    assert_eq!(MatchRules::Battle.name(), "battle");
    assert_eq!(MatchRules::Marathon.name(), "marathon");
    assert_eq!(MatchRules::default_score_sprint().name(), "10,000 point sprint");
    assert_eq!(MatchRules::default_line_sprint().name(), "40 line sprint");
    assert_eq!(MatchRules::ScoreSprint { score: 0 }.name(), "0 point sprint");
    assert_eq!(MatchRules::ScoreSprint { score: 999 }.name(), "999 point sprint");
    assert_eq!(MatchRules::ScoreSprint { score: 1000 }.name(), "1,000 point sprint");
    assert_eq!(MatchRules::ScoreSprint { score: 1_002_003 }.name(), "1,002,003 point sprint");
    assert_eq!(MatchRules::LineSprint { lines: 100_000 }.name(), "100,000 line sprint");
    assert_eq!(MatchRules::LineSprint { lines: u32::MAX }.name(), "4,294,967,295 line sprint");
}

#[test]
fn the_offered_rules_come_in_their_order() {
    assert_eq!(
        MatchRules::default_modes(),
        [
            MatchRules::Battle,
            MatchRules::LineSprint { lines: 40 },
            MatchRules::ScoreSprint { score: 10_000 },
            MatchRules::Marathon,
        ]
    );
}

#[test]
fn themes_have_names_and_a_count() {
    assert_eq!(MatchThemes::names(), vec!["all", "gameboy", "nes", "snes", "modern"]);
    assert_eq!(MatchThemes::count(), 4);
    assert_eq!(MatchThemes::Snes.name(), "snes");
}

#[test]
fn a_match_is_configured() {
    let config = GameConfig::new(2, 3, MatchRules::Marathon, MatchThemes::Nes);
    assert_eq!(config.players, 2);
    assert_eq!(config.level, 3);
    assert_eq!(config.rules, MatchRules::Marathon);
    assert_eq!(config.themes, MatchThemes::Nes);
    assert_eq!(GameConfig::default(), GameConfig::new(1, 0, MatchRules::Battle, MatchThemes::All));
}

#[test]
fn the_menu_map_binds_each_key() {
    let map = input(None).menu_map();
    assert_eq!(map.len(), 7);
    assert_eq!(map[&1], MenuInputKey::Up);
    assert_eq!(map[&2], MenuInputKey::Down);
    assert_eq!(map[&3], MenuInputKey::Left);
    assert_eq!(map[&4], MenuInputKey::Right);
    assert_eq!(map[&5], MenuInputKey::Select);
    assert_eq!(map[&6], MenuInputKey::Start);
    assert_eq!(map[&11], MenuInputKey::Quit);
    assert_eq!(map.get(&10), None);
}

#[test]
fn a_shared_menu_key_goes_to_the_later_action() {
    let mut config = input(None);
    config.menu.select = 1;
    config.quit = 6;
    let map = config.menu_map();
    assert_eq!(map.len(), 5);
    assert_eq!(map[&1], MenuInputKey::Select);
    assert_eq!(map[&6], MenuInputKey::Quit);
}

#[test]
fn the_game_map_binds_one_player() {
    let map = input(None).game_map();
    assert_eq!(map.len(), 10);
    assert_eq!(map[&11], GameInputKey::ReturnToMenu);
    assert_eq!(map[&10], GameInputKey::Pause);
    assert_eq!(map[&12], GameInputKey::NextTheme);
    assert_eq!(map[&100], GameInputKey::MoveLeft { player: 1 });
    assert_eq!(map[&101], GameInputKey::MoveRight { player: 1 });
    assert_eq!(map[&102], GameInputKey::SoftDrop { player: 1 });
    assert_eq!(map[&103], GameInputKey::HardDrop { player: 1 });
    assert_eq!(map[&104], GameInputKey::RotateClockwise { player: 1 });
    assert_eq!(map[&105], GameInputKey::RotateAnticlockwise { player: 1 });
    assert_eq!(map[&106], GameInputKey::Hold { player: 1 });
}

#[test]
fn the_game_map_binds_two_players() {
    let map = input(Some(player(200))).game_map();
    assert_eq!(map.len(), 17);
    assert_eq!(map[&100], GameInputKey::MoveLeft { player: 1 });
    assert_eq!(map[&200], GameInputKey::MoveLeft { player: 2 });
    assert_eq!(map[&204], GameInputKey::RotateClockwise { player: 2 });
    assert_eq!(map[&206], GameInputKey::Hold { player: 2 });
}

#[test]
fn a_key_of_both_players_goes_to_the_second() {
    let mut second = player(200);
    second.hold = 100;
    second.soft_drop = 10;
    let map = input(Some(second)).game_map();
    assert_eq!(map.len(), 15);
    assert_eq!(map[&100], GameInputKey::Hold { player: 2 });
    assert_eq!(map[&10], GameInputKey::SoftDrop { player: 2 });
}
