//! The settings of the game, and of one match.

use std::collections::HashMap;
use vstd::prelude::*;
use vstd::std_specs::hash::*;
use vstd::string::*;
use crate::game::random::RandomMode;
use crate::game_input::GameInputKey;
use crate::menu_input::MenuInputKey;

verus! {

/// How the game takes the screen.
#[derive(Clone, Copy, Debug, PartialEq, Eq, Structural)]
pub enum VideoMode {
    Window { width: u32, height: u32 },
    FullScreen { width: u32, height: u32 },
    FullScreenDesktop,
}

/// The video settings.
#[derive(Clone, Copy, Debug, PartialEq, Eq, Structural)]
pub struct VideoConfig {
    pub mode: VideoMode,
    pub vsync: bool,
    pub disable_screensaver: bool,
}

/// The settings of play.
#[derive(Clone, Copy, Debug, PartialEq, Eq, Structural)]
pub struct GameplayConfig {
    pub random_mode: RandomMode,
    pub min_garbage_per_hole: u32,
}

/// A key of the keyboard, by its code.
pub type Keycode = i32;

/// The keys of the menus.
#[derive(Clone, Copy, Debug, PartialEq, Eq, Structural)]
pub struct MenuInputConfig {
    pub up: Keycode,
    pub down: Keycode,
    pub left: Keycode,
    pub right: Keycode,
    pub select: Keycode,
    pub start: Keycode,
}

/// The keys of one player.
#[derive(Clone, Copy, Debug, PartialEq, Eq, Structural)]
pub struct GameInputConfig {
    pub move_left: Keycode,
    pub move_right: Keycode,
    pub soft_drop: Keycode,
    pub hard_drop: Keycode,
    pub rotate_clockwise: Keycode,
    pub rotate_anticlockwise: Keycode,
    pub hold: Keycode,
}

/// All keys of the game.
#[derive(Clone, Copy, Debug, PartialEq, Eq, Structural)]
pub struct InputConfig {
    pub menu: MenuInputConfig,
    pub player1: GameInputConfig,
    pub player2: Option<GameInputConfig>,
    pub pause: Keycode,
    pub quit: Keycode,
    pub next_theme: Keycode,
}

impl GameInputConfig {
    /// `map` with the keys of this player bound to the actions of `player`.
    /// Where two actions share a key, the later one in this list has it.
    pub open spec fn bound(self, map: Map<Keycode, GameInputKey>, player: u32) -> Map<
        Keycode,
        GameInputKey,
    > {
        map.insert(self.move_left, GameInputKey::MoveLeft { player }).insert(
            self.move_right,
            GameInputKey::MoveRight { player },
        ).insert(self.soft_drop, GameInputKey::SoftDrop { player }).insert(
            self.hard_drop,
            GameInputKey::HardDrop { player },
        ).insert(self.rotate_anticlockwise, GameInputKey::RotateAnticlockwise { player }).insert(
            self.rotate_clockwise,
            GameInputKey::RotateClockwise { player },
        ).insert(self.hold, GameInputKey::Hold { player })
    }

    fn bind(&self, map: &mut HashMap<Keycode, GameInputKey>, player: u32)
        ensures
            final(map)@ == self.bound(old(map)@, player),
    {
        broadcast use group_hash_axioms;

        map.insert(self.move_left, GameInputKey::MoveLeft { player });
        map.insert(self.move_right, GameInputKey::MoveRight { player });
        map.insert(self.soft_drop, GameInputKey::SoftDrop { player });
        map.insert(self.hard_drop, GameInputKey::HardDrop { player });
        map.insert(self.rotate_anticlockwise, GameInputKey::RotateAnticlockwise { player });
        map.insert(self.rotate_clockwise, GameInputKey::RotateClockwise { player });
        map.insert(self.hold, GameInputKey::Hold { player });
    }
}

impl InputConfig {
    /// What each key means in a menu. Where two actions share a key, the
    /// later one in this list has it.
    pub open spec fn spec_menu_map(self) -> Map<Keycode, MenuInputKey> {
        Map::<Keycode, MenuInputKey>::empty().insert(self.menu.up, MenuInputKey::Up).insert(
            self.menu.down,
            MenuInputKey::Down,
        ).insert(self.menu.left, MenuInputKey::Left).insert(
            self.menu.right,
            MenuInputKey::Right,
        ).insert(self.menu.start, MenuInputKey::Start).insert(
            self.menu.select,
            MenuInputKey::Select,
        ).insert(self.quit, MenuInputKey::Quit)
    }

    /// What each key means during a match: the keys of the game, then those
    /// of the first player, then those of the second if there is one. Where
    /// two actions share a key, the later one has it.
    pub open spec fn spec_game_map(self) -> Map<Keycode, GameInputKey> {
        let shared = Map::<Keycode, GameInputKey>::empty().insert(
            self.quit,
            GameInputKey::ReturnToMenu,
        ).insert(self.pause, GameInputKey::Pause).insert(self.next_theme, GameInputKey::NextTheme);
        let first = self.player1.bound(shared, 1);
        match self.player2 {
            Some(second) => second.bound(first, 2),
            None => first,
        }
    }

    /// What each key means in a menu.
    pub fn menu_map(&self) -> (map: HashMap<Keycode, MenuInputKey>)
        ensures
            map@ == self.spec_menu_map(),
    {
        broadcast use group_hash_axioms;

        let mut map: HashMap<Keycode, MenuInputKey> = HashMap::new();
        map.insert(self.menu.up, MenuInputKey::Up);
        map.insert(self.menu.down, MenuInputKey::Down);
        map.insert(self.menu.left, MenuInputKey::Left);
        map.insert(self.menu.right, MenuInputKey::Right);
        map.insert(self.menu.start, MenuInputKey::Start);
        map.insert(self.menu.select, MenuInputKey::Select);
        map.insert(self.quit, MenuInputKey::Quit);
        map
    }

    /// What each key means during a match.
    pub fn game_map(&self) -> (map: HashMap<Keycode, GameInputKey>)
        ensures
            map@ == self.spec_game_map(),
    {
        broadcast use group_hash_axioms;

        let mut map: HashMap<Keycode, GameInputKey> = HashMap::new();
        map.insert(self.quit, GameInputKey::ReturnToMenu);
        map.insert(self.pause, GameInputKey::Pause);
        map.insert(self.next_theme, GameInputKey::NextTheme);
        self.player1.bind(&mut map, 1);
        match self.player2 {
            None => {},
            Some(second) => {
                second.bind(&mut map, 2);
            },
        }
        map
    }
}

/// The rules by which a match is won.
#[derive(Clone, Copy, Debug, PartialEq, Eq, Structural)]
pub enum MatchRules {
    /// Endless, with garbage.
    Battle,
    /// The first to reach a score wins.
    ScoreSprint { score: u32 },
    /// The first to clear a number of lines wins.
    LineSprint { lines: u32 },
    /// Endless.
    Marathon,
}

/// The decimal digit for a value below ten.
pub open spec fn digit(value: nat) -> char {
    ((48 + value) as u8) as char
}

/// The decimal digits of `n`, the most significant first.
pub open spec fn decimal(n: nat) -> Seq<char>
    decreases n,
{
    if n < 10 {
        seq![digit(n)]
    } else {
        decimal(n / 10).push(digit(n % 10))
    }
}

/// The decimal digits of `n` in groups of three from the right, with a comma
/// between two groups.
pub open spec fn grouped(n: nat) -> Seq<char>
    decreases n,
{
    if n < 1000 {
        decimal(n)
    } else {
        grouped(n / 1000) + seq![',', digit(n % 1000 / 100), digit(n % 100 / 10), digit(n % 10)]
    }
}

/// `num_format::ToFormattedString::to_formatted_string` for a `u32`, with
/// `num_format::Locale::en` as the format: that locale groups the decimal
/// digits by three and puts a comma between the groups.
#[verifier::external_body]
fn format_en(n: u32) -> (text: String)
    ensures
        text@ == grouped(n as nat),
{
    num_format::ToFormattedString::to_formatted_string(&n, &num_format::Locale::en)
}

impl MatchRules {
    /// The line sprint that is offered first.
    pub fn default_line_sprint() -> (rules: MatchRules)
        ensures
            rules == (MatchRules::LineSprint { lines: 40 }),
    {
        MatchRules::LineSprint { lines: 40 }
    }

    /// The score sprint that is offered first.
    pub fn default_score_sprint() -> (rules: MatchRules)
        ensures
            rules == (MatchRules::ScoreSprint { score: 10_000 }),
    {
        MatchRules::ScoreSprint { score: 10_000 }
    }

    /// The rules that are offered, in the order of the offer.
    pub fn default_modes() -> (modes: [MatchRules; 4])
        ensures
            modes@ == seq![
                MatchRules::Battle,
                MatchRules::LineSprint { lines: 40 },
                MatchRules::ScoreSprint { score: 10_000 },
                MatchRules::Marathon,
            ],
    {
        let modes = [
            MatchRules::Battle,
            MatchRules::default_line_sprint(),
            MatchRules::default_score_sprint(),
            MatchRules::Marathon,
        ];
        assert(modes@ =~= seq![
            MatchRules::Battle,
            MatchRules::LineSprint { lines: 40 },
            MatchRules::ScoreSprint { score: 10_000 },
            MatchRules::Marathon,
        ]);
        modes
    }

    /// Whether players send each other garbage: only in a battle.
    pub fn garbage_enabled(&self) -> (enabled: bool)
        ensures
            enabled == (*self == MatchRules::Battle),
    {
        match self {
            MatchRules::Battle => true,
            _ => false,
        }
    }

    /// The name of the rules as it is shown.
    pub open spec fn spec_name(self) -> Seq<char> {
        match self {
            MatchRules::Battle => "battle"@,
            MatchRules::ScoreSprint { score } => grouped(score as nat) + " point sprint"@,
            MatchRules::LineSprint { lines } => grouped(lines as nat) + " line sprint"@,
            MatchRules::Marathon => "marathon"@,
        }
    }

    /// The name of the rules as it is shown, the number of a sprint with a
    /// comma between its thousands.
    pub fn name(&self) -> (name: String)
        ensures
            name@ == self.spec_name(),
    {
        match self {
            MatchRules::Battle => String::from_str("battle"),
            MatchRules::ScoreSprint { score } => format_en(*score).concat(" point sprint"),
            MatchRules::LineSprint { lines } => format_en(*lines).concat(" line sprint"),
            MatchRules::Marathon => String::from_str("marathon"),
        }
    }
}

/// The themes that a match can be shown in.
#[derive(Clone, Copy, Debug, PartialEq, Eq, Structural)]
pub enum MatchThemes {
    /// The themes in their order, the next one at each new level.
    All,
    GameBoy,
    Nes,
    Snes,
    Modern,
}

impl MatchThemes {
    /// The choices in the order in which they are offered.
    pub open spec fn all() -> Seq<MatchThemes> {
        seq![
            MatchThemes::All,
            MatchThemes::GameBoy,
            MatchThemes::Nes,
            MatchThemes::Snes,
            MatchThemes::Modern,
        ]
    }

    /// The name of the choice.
    pub open spec fn spec_name(self) -> Seq<char> {
        match self {
            MatchThemes::All => "all"@,
            MatchThemes::GameBoy => "gameboy"@,
            MatchThemes::Nes => "nes"@,
            MatchThemes::Snes => "snes"@,
            MatchThemes::Modern => "modern"@,
        }
    }

    /// The name of the choice.
    pub fn name(self) -> (name: &'static str)
        ensures
            name@ == self.spec_name(),
    {
        match self {
            MatchThemes::All => "all",
            MatchThemes::GameBoy => "gameboy",
            MatchThemes::Nes => "nes",
            MatchThemes::Snes => "snes",
            MatchThemes::Modern => "modern",
        }
    }

    /// The names of all choices, in the order in which they are offered.
    pub fn names() -> (names: Vec<&'static str>)
        ensures
            names@.len() == MatchThemes::all().len(),
            forall|i: int|
                0 <= i < names@.len() ==> (#[trigger] names@[i])@
                    == MatchThemes::all()[i].spec_name(),
    {
        let mut names: Vec<&'static str> = Vec::new();
        names.push(MatchThemes::All.name());
        names.push(MatchThemes::GameBoy.name());
        names.push(MatchThemes::Nes.name());
        names.push(MatchThemes::Snes.name());
        names.push(MatchThemes::Modern.name());
        names
    }

    /// The number of themes: every choice but `All` is one.
    pub fn count() -> (count: usize)
        ensures
            count == MatchThemes::all().filter(|t: MatchThemes| t != MatchThemes::All).len(),
            count == 4,
    {
        proof {
            reveal_with_fuel(Seq::filter, 6);
        }
        4
    }
}

/// The settings of one match.
#[derive(Clone, Copy, Debug, PartialEq, Eq, Structural)]
pub struct GameConfig {
    pub players: u32,
    pub level: u32,
    pub rules: MatchRules,
    pub themes: MatchThemes,
}

impl GameConfig {
    /// The settings of a match.
    pub fn new(players: u32, level: u32, rules: MatchRules, themes: MatchThemes) -> (config: Self)
        ensures
            config == (GameConfig { players, level, rules, themes }),
    {
        Self { players, level, rules, themes }
    }
}

impl Default for GameConfig {
    /// One player, from level 0, in a battle, through all themes.
    fn default() -> (config: Self)
        ensures
            config == (GameConfig {
                players: 1,
                level: 0,
                rules: MatchRules::Battle,
                themes: MatchThemes::All,
            }),
    {
        Self::new(1, 0, MatchRules::Battle, MatchThemes::All)
    }
}

} // verus!
