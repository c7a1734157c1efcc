//! AFK status rows.

use vstd::prelude::*;

verus! {

/// One user's AFK status, optionally scoped to a guild.
#[derive(Debug, Clone, PartialEq, Eq)]
pub struct AfkStatusSchema {
    pub user_id: String,
    pub guild_id: Option<String>,
    pub reason: String,
    pub created_at: String,
}

/// Columns of the AFK status table.
#[derive(Debug, Clone, Copy, PartialEq, Eq, Structural)]
pub enum AfkStatus {
    Table,
    UserId,
    GuildId,
    Reason,
    CreatedAt,
}

} // verus!
