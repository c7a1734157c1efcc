//! Reaction trigger and reaction channel rows.

use vstd::prelude::*;

verus! {

/// A reaction posted when a trigger word is seen.
#[derive(Debug, Clone, PartialEq, Eq)]
pub struct ReactionTriggersSchema {
    pub guild_id: String,
    pub emoji: String,
    pub trigger: String,
    pub owner_id: String,
    pub created_at: String,
    pub updated_at: String,
}

/// Columns of the reaction triggers table.
#[derive(Debug, Clone, Copy, PartialEq, Eq, Structural)]
pub enum ReactionTriggers {
    Table,
    GuildId,
    Emoji,
    Trigger,
    OwnerId,
    CreatedAt,
    UpdatedAt,
}

/// A channel where every message gets a reaction.
#[derive(Debug, Clone, PartialEq, Eq)]
pub struct ReactionChannelsSchema {
    pub guild_id: String,
    pub channel_id: String,
    pub emoji: String,
    pub created_at: String,
    pub updated_at: String,
}

/// Columns of the reaction channels table.
#[derive(Debug, Clone, Copy, PartialEq, Eq, Structural)]
pub enum ReactionChannels {
    Table,
    GuildId,
    ChannelId,
    Emoji,
    CreatedAt,
    UpdatedAt,
}

} // verus!
