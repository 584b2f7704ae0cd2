//! How identifiers are written in the store.

use vstd::prelude::*;

use crate::id::{GuildId, RoleId, UserId};
use crate::text::{zero_padded, zero_padded_string};

verus! {

/// Number of digits that an identifier has in the store.
pub const DB_ID_WIDTH: usize = 20;

/// An identifier that the store keeps as text of fixed width, so that the
/// order of the texts is the order of the numbers.
pub trait DiscordIdExt {
    /// The identifier as a number.
    spec fn raw(&self) -> u64;

    /// The identifier in decimal, filled with zeros on the left to
    /// [`DB_ID_WIDTH`] digits.
    fn to_db_string(&self) -> (r: String)
        ensures
            r@ == zero_padded(self.raw() as nat, DB_ID_WIDTH as nat),
    ;
}

impl DiscordIdExt for UserId {
    open spec fn raw(&self) -> u64 {
        self.0
    }

    fn to_db_string(&self) -> (r: String) {
        zero_padded_string(self.0, DB_ID_WIDTH)
    }
}

impl DiscordIdExt for GuildId {
    open spec fn raw(&self) -> u64 {
        self.0
    }

    fn to_db_string(&self) -> (r: String) {
        zero_padded_string(self.0, DB_ID_WIDTH)
    }
}

impl DiscordIdExt for RoleId {
    open spec fn raw(&self) -> u64 {
        self.0
    }

    fn to_db_string(&self) -> (r: String) {
        zero_padded_string(self.0, DB_ID_WIDTH)
    }
}

} // verus!
