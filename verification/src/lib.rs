//! Localization files for a strategy-game mod: entries with per-language
//! content, their bundling into named sets, and the per-language files a set
//! is stored as.

pub mod common;
pub mod config;
pub mod localization;
pub mod repo;
pub mod template;
pub mod text;
pub mod yaml_loc;
