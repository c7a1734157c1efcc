//! Voice-master channel rows.

use vstd::prelude::*;

verus! {

/// A master channel that spawns voice channels.
#[derive(Debug, Clone, PartialEq, Eq)]
pub struct VoiceMastersSchema {
    pub guild_id: String,
    pub master_id: String,
    pub category_id: String,
    pub created_at: String,
    pub updated_at: String,
}

/// Columns of the voice masters table.
#[derive(Debug, Clone, Copy, PartialEq, Eq, Structural)]
pub enum VoiceMasters {
    Table,
    GuildId,
    MasterId,
    CategoryId,
    CreatedAt,
    UpdatedAt,
}

} // verus!
