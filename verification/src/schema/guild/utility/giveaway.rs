//! Giveaway rows.

use vstd::prelude::*;

verus! {

/// A running or ended giveaway.
#[derive(Debug, Clone, PartialEq, Eq)]
pub struct GiveawaysSchema {
    pub giveaway_id: String,
    pub guild_id: String,
    pub channel_id: String,
    pub message_id: String,
    pub prize: String,
    pub end_time: String,
    pub winners_count: i32,
    pub host_id: String,
    pub ended: bool,
    pub created_at: String,
    pub updated_at: String,
}

/// Columns of the giveaways table.
#[derive(Debug, Clone, Copy, PartialEq, Eq, Structural)]
pub enum Giveaways {
    Table,
    GiveawayId,
    GuildId,
    ChannelId,
    MessageId,
    Prize,
    EndTime,
    WinnersCount,
    HostId,
    Ended,
    CreatedAt,
    UpdatedAt,
}

} // verus!
