//! Per-guild voice-channel configuration columns.

use vstd::prelude::*;

verus! {

/// Columns of the per-guild voice configuration table.
#[derive(Debug, Clone, Copy, PartialEq, Eq, Structural)]
pub enum VoiceConfigs {
    Table,
    GuildId,
    Masters,
    Name,
    Bitrate,
    UserLimit,
    Locked,
    CreatedAt,
    UpdatedAt,
}

} // verus!
