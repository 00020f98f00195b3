//! Where the game and the mod live on disk.
//!
//! A path is held as the list of its parts, outermost first; putting the
//! parts together is left to whoever opens the files.

use vstd::prelude::*;
use vstd::string::*;

verus! {

/// The installation of the game.
#[derive(Debug)]
pub struct GameConfig {
    game_root_path: String,
}

/// The mod that is being written.
#[derive(Debug)]
pub struct ModConfig {
    mod_root_path: String,
}

/// The paths a run works with.
#[derive(Debug)]
pub struct Config {
    pub game: GameConfig,
    pub source_path: String,
    pub mod_config: ModConfig,
}

impl GameConfig {
    /// The root directory of the game.
    pub closed spec fn root(&self) -> Seq<char> {
        self.game_root_path@
    }

    /// The game installed under `game_root_path`.
    pub fn new(game_root_path: &str) -> (config: Self)
        ensures
            config.root() == game_root_path@,
    {
        Self { game_root_path: String::from_str(game_root_path) }
    }

    /// The localization directory of the game: `game`, then `localization`,
    /// below the root.
    pub fn localization_path(&self) -> (path: Vec<String>)
        ensures
            path.deep_view() == seq![self.root(), "game"@, "localization"@],
    {
        let mut path: Vec<String> = Vec::with_capacity(3);
        path.push(self.game_root_path.clone());
        path.push(String::from_str("game"));
        path.push(String::from_str("localization"));
        assert(path.deep_view() =~= seq![self.root(), "game"@, "localization"@]);
        path
    }
}

impl ModConfig {
    /// The root directory of the mod.
    pub closed spec fn root(&self) -> Seq<char> {
        self.mod_root_path@
    }

    /// The mod kept under `mod_root_path`.
    pub fn new(mod_root_path: &str) -> (config: Self)
        ensures
            config.root() == mod_root_path@,
    {
        Self { mod_root_path: String::from_str(mod_root_path) }
    }

    /// The localization directory of the mod: `localization` below the root.
    pub fn localization_path(&self) -> (path: Vec<String>)
        ensures
            path.deep_view() == seq![self.root(), "localization"@],
    {
        let mut path: Vec<String> = Vec::with_capacity(2);
        path.push(self.mod_root_path.clone());
        path.push(String::from_str("localization"));
        assert(path.deep_view() =~= seq![self.root(), "localization"@]);
        path
    }
}

impl Config {
    /// The paths of a run: the game, the directory of the content sources,
    /// and the mod.
    pub fn new(game: GameConfig, source_path: &str, mod_config: ModConfig) -> (config: Self)
        ensures
            config.game == game,
            config.source_path@ == source_path@,
            config.mod_config == mod_config,
    {
        Self { game, source_path: String::from_str(source_path), mod_config }
    }
}

} // verus!
