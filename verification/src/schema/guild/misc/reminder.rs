//! Reminder rows.

use vstd::prelude::*;

verus! {

/// A reminder a user asked for.
#[derive(Debug, Clone, PartialEq, Eq)]
pub struct RemindersSchema {
    pub id: i32,
    pub user_id: String,
    pub guild_id: String,
    pub channel_id: Option<String>,
    pub message: String,
    pub remind_at: String,
    pub created_at: String,
}

/// Columns of the reminders table.
#[derive(Debug, Clone, Copy, PartialEq, Eq, Structural)]
pub enum Reminders {
    Table,
    Id,
    UserId,
    GuildId,
    ChannelId,
    Message,
    RemindAt,
    CreatedAt,
}

} // verus!
