//! Level profile rows.

use vstd::prelude::*;

verus! {

/// A user's level-card customisation.
#[derive(Debug, Clone, PartialEq, Eq)]
pub struct UserLevelProfilesSchema {
    pub user_id: String,
    pub avatar_url: Option<String>,
    pub background_url: Option<String>,
    pub created_at: String,
    pub updated_at: String,
}

/// Columns of the level profiles table.
#[derive(Debug, Clone, Copy, PartialEq, Eq, Structural)]
pub enum UserLevelProfiles {
    Table,
    UserId,
    AvatarUrl,
    BackgroundUrl,
    CreatedAt,
    UpdatedAt,
}

} // verus!
