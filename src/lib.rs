//! Regenerates a themed configuration file from a template holding `$key`
//! placeholders and a TOML document whose `colors` table gives the values.

mod chars;
pub mod replace;
pub mod substitute;
pub mod variables;
pub mod config;
pub mod substitutor;
