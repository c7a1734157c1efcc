//! Birthday announcement configuration rows.

use vstd::prelude::*;

verus! {

/// A guild's birthday announcement settings.
#[derive(Debug, Clone, PartialEq, Eq)]
pub struct BirthdayConfigsSchema {
    pub guild_id: String,
    pub channel_id: Option<String>,
    pub message: String,
    pub created_at: String,
    pub updated_at: String,
}

/// Columns of the birthday configuration table.
#[derive(Debug, Clone, Copy, PartialEq, Eq, Structural)]
pub enum BirthdayConfigs {
    Table,
    GuildId,
    ChannelId,
    Message,
    CreatedAt,
    UpdatedAt,
}

} // verus!
