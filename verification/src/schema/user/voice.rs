//! Per-user voice channel preference rows.

use vstd::prelude::*;

verus! {

/// A user's saved voice-channel preferences.
#[derive(Debug, Clone, PartialEq, Eq)]
pub struct VoiceConfigsSchema {
    pub user_id: Option<String>,
    pub guild_id: Option<String>,
    pub name: Option<String>,
    pub bitrate: Option<i32>,
    pub user_limit: Option<i32>,
    pub locked: Option<String>,
    pub created_at: String,
    pub updated_at: String,
}

/// Columns of the per-user voice configuration table.
#[derive(Debug, Clone, Copy, PartialEq, Eq, Structural)]
pub enum VoiceConfigs {
    Table,
    UserId,
    GuildId,
    Name,
    Bitrate,
    UserLimit,
    Locked,
    CreatedAt,
    UpdatedAt,
}

} // verus!
