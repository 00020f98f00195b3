use ck3_community_title_project::config::{Config, GameConfig, ModConfig};
use ck3_community_title_project::repo::Config as PathProvider;
use std::path::PathBuf;

fn joined(parts: &[String]) -> PathBuf {
    parts.iter().collect()
}

#[test]
fn game_localization_path_is_game_localization_below_the_root() {
    let game = GameConfig::new("/opt/ck3");
    assert_eq!(game.localization_path(), vec!["/opt/ck3", "game", "localization"]);
    assert_eq!(joined(&game.localization_path()), PathBuf::from("/opt/ck3").join("game").join("localization"));
}

#[test]
fn game_localization_path_with_an_empty_root() {
    let game = GameConfig::new("");
    assert_eq!(game.localization_path(), vec!["", "game", "localization"]);
    assert_eq!(joined(&game.localization_path()), PathBuf::from("").join("game").join("localization"));
}

#[test]
fn mod_localization_path_is_localization_below_the_root() {
    let mod_config = ModConfig::new("out");
    assert_eq!(mod_config.localization_path(), vec!["out", "localization"]);
    assert_eq!(joined(&mod_config.localization_path()), PathBuf::from("out").join("localization"));
}

#[test]
fn config_holds_its_three_parts() {
    let cfg = Config::new(GameConfig::new("g"), "doc", ModConfig::new("out"));
    assert_eq!(cfg.source_path, "doc");
    assert_eq!(cfg.game.localization_path(), vec!["g", "game", "localization"]);
    assert_eq!(cfg.mod_config.localization_path(), vec!["out", "localization"]);
}

#[test]
fn both_configs_provide_their_path_through_the_trait() {
    fn path_of<P: PathProvider>(provider: &P) -> Vec<String> {
        provider.localization_path()
    }
    assert_eq!(path_of(&GameConfig::new("g")), vec!["g", "game", "localization"]);
    assert_eq!(path_of(&ModConfig::new("m")), vec!["m", "localization"]);
}
