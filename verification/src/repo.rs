//! What a store of localization files needs to know about its surroundings.

use crate::config::{GameConfig, ModConfig};
use vstd::prelude::*;

verus! {

/// Something that knows where localization files are kept.
pub trait Config {
    /// The parts of the localization directory, outermost first.
    spec fn localization_path_spec(&self) -> Seq<Seq<char>>;

    /// The localization directory.
    fn localization_path(&self) -> (path: Vec<String>)
        ensures
            path.deep_view() == self.localization_path_spec(),
    ;
}

impl Config for GameConfig {
    open spec fn localization_path_spec(&self) -> Seq<Seq<char>> {
        seq![self.root(), "game"@, "localization"@]
    }

    fn localization_path(&self) -> (path: Vec<String>) {
        GameConfig::localization_path(self)
    }
}

impl Config for ModConfig {
    open spec fn localization_path_spec(&self) -> Seq<Seq<char>> {
        seq![self.root(), "localization"@]
    }

    fn localization_path(&self) -> (path: Vec<String>) {
        ModConfig::localization_path(self)
    }
}

} // verus!
