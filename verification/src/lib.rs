//! The logic of a chat bot that sends the emotes of Final Fantasy XIV: the
//! prompt from which a user picks an emote and a target, the composer of the
//! message that is sent, and the commands around them.
//!
//! Everything here decides and computes; nothing here talks to the platform
//! or to the store. Contracts state what each function returns, and Verus
//! proves them.

pub mod builder;
pub mod commands;
pub mod db;
pub mod handler;
pub mod id;
pub mod interaction;
pub mod message;
pub mod session;
pub mod text;
pub mod ui;
pub mod util;
