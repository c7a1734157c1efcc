//! Per-user AFK configuration rows.

use vstd::prelude::*;

verus! {

/// A user's AFK defaults.
#[derive(Debug, Clone, PartialEq, Eq)]
pub struct AfkConfigSchema {
    pub user_id: String,
    pub per_guild: bool,
    pub default_reason: Option<String>,
    pub created_at: String,
    pub updated_at: String,
}

/// Columns of the AFK configuration table.
#[derive(Debug, Clone, Copy, PartialEq, Eq, Structural)]
pub enum AfkConfig {
    Table,
    UserId,
    PerGuild,
    DefaultReason,
    CreatedAt,
    UpdatedAt,
}

} // verus!
