//! What the persistent store keeps of users and guilds, as the rest of the
//! library reads it.

pub mod models;
pub mod util;
