//! Shard bookkeeping rows.

use vstd::prelude::*;

verus! {

/// One shard's persisted state.
#[derive(Debug, Clone, PartialEq, Eq)]
pub struct ShardSchema {
    pub id: u32,
    pub status: String,
    pub latency: Option<u32>,
    pub members: u32,
    pub last_updated: Option<String>,
    pub started_at: Option<String>,
}

/// Columns of the shards table.
#[derive(Debug, Clone, Copy, PartialEq, Eq, Structural)]
pub enum Shards {
    Table,
    Id,
    Status,
    Latency,
    Members,
    LastUpdated,
    StartedAt,
}

} // verus!
