//! User rows and the tables scoped to a user.

use vstd::prelude::*;

pub mod afk;
pub mod birthday;
pub mod giveaway;
pub mod leveling;
pub mod voice;

verus! {

/// A user's membership row in a guild.
#[derive(Debug, Clone, PartialEq, Eq)]
pub struct UserSchema {
    pub id: String,
    pub guild_id: String,
    pub created_at: String,
}

/// Columns of the users table.
#[derive(Debug, Clone, Copy, PartialEq, Eq, Structural)]
pub enum User {
    Table,
    Id,
    GuildId,
    CreatedAt,
}

} // verus!
