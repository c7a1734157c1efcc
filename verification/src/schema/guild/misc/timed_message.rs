//! Timed message rows.

use vstd::prelude::*;

verus! {

/// A message posted on a schedule.
#[derive(Debug, Clone, PartialEq, Eq)]
pub struct TimedMessagesSchema {
    pub id: i32,
    pub guild_id: String,
    pub channel_id: String,
    pub message: String,
    pub interval: String,
    pub send_at: String,
    pub created_at: String,
}

/// Columns of the timed messages table.
#[derive(Debug, Clone, Copy, PartialEq, Eq, Structural)]
pub enum TimedMessages {
    Table,
    Id,
    GuildId,
    ChannelId,
    Message,
    Interval,
    SendAt,
    CreatedAt,
}

} // verus!
