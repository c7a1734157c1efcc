//! Log configuration and ignore-list rows.

use vstd::prelude::*;

verus! {

/// A channel whose events are not logged.
#[derive(Debug, Clone, PartialEq, Eq)]
pub struct GuildIgnoreChannelsSchema {
    pub guild_id: String,
    pub channel_id: String,
    pub created_at: String,
    pub updated_at: String,
}

/// Columns of the ignored channels table.
#[derive(Debug, Clone, Copy, PartialEq, Eq, Structural)]
pub enum GuildIgnoreChannels {
    Table,
    GuildId,
    ChannelId,
    CreatedAt,
    UpdatedAt,
}

/// A user whose events are not logged.
#[derive(Debug, Clone, PartialEq, Eq)]
pub struct GuildIgnoreUsersSchema {
    pub guild_id: String,
    pub user_id: String,
    pub created_at: String,
    pub updated_at: String,
}

/// Columns of the ignored users table.
#[derive(Debug, Clone, Copy, PartialEq, Eq, Structural)]
pub enum GuildIgnoreUsers {
    Table,
    GuildId,
    UserId,
    CreatedAt,
    UpdatedAt,
}

} // verus!
