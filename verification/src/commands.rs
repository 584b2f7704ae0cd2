//! The commands that the bot registers, everywhere and per guild.

pub mod global;
pub mod guild;
pub mod settings;
pub mod stats;
