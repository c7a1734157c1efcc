//! Giveaway entry rows.

use vstd::prelude::*;

verus! {

/// A user's entry into a giveaway.
#[derive(Debug, Clone, PartialEq, Eq)]
pub struct GiveawayEntriesSchema {
    pub giveaway_id: String,
    pub user_id: String,
    pub created_at: String,
}

/// Columns of the giveaway entries table.
#[derive(Debug, Clone, Copy, PartialEq, Eq, Structural)]
pub enum GiveawayEntries {
    Table,
    GiveawayId,
    UserId,
    CreatedAt,
}

} // verus!
