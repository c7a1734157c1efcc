//! Per-guild log channel configuration rows.

use vstd::prelude::*;

verus! {

/// Columns of the guild log configuration table.
#[derive(Debug, Clone, Copy, PartialEq, Eq, Structural)]
pub enum GuildLogConfigs {
    Table,
    GuildId,
    LogType,
    Data,
    UpdatedAt,
    CreatedAt,
}

/// The kinds of guild events a log channel can record.
#[derive(Debug, Clone, Copy, PartialEq, Eq, Structural)]
pub enum LogTypes {
    Message,
    Voice,
    Moderation,
    Member,
    Channel,
    Role,
    Emoji,
    Guild,
}

/// One guild's configuration for one log type.
#[derive(Debug, Clone, PartialEq, Eq)]
pub struct GuildLogConfigsData {
    pub guild_id: String,
    pub log_type: LogTypes,
    pub data: String,
}

} // verus!
