//! Leveling rows: per-user XP, per-guild configuration, level roles.

use vstd::prelude::*;

verus! {

/// One user's level and XP in one guild.
#[derive(Debug, Clone, PartialEq, Eq)]
pub struct UserLevelsSchema {
    pub user_id: String,
    pub guild_id: String,
    pub level: i32,
    pub xp: i32,
    pub last_message_at: String,
}

/// Columns of the user levels table.
#[derive(Debug, Clone, Copy, PartialEq, Eq, Structural)]
pub enum UserLevels {
    Table,
    UserId,
    GuildId,
    Level,
    Xp,
    LastMessageAt,
}

/// A guild's leveling configuration.
#[derive(Debug, Clone, PartialEq, Eq)]
pub struct LevelConfigsSchema {
    pub guild_id: String,
    pub minimum_xp_gain: i32,
    pub maximum_xp_gain: i32,
    pub level_up_message: String,
    pub channel_id: Option<String>,
    pub created_at: String,
    pub updated_at: String,
}

/// Columns of the level configuration table.
#[derive(Debug, Clone, Copy, PartialEq, Eq, Structural)]
pub enum LevelConfigs {
    Table,
    GuildId,
    MinimumXpGain,
    MaximumXpGain,
    LevelUpMessage,
    ChannelId,
    CreatedAt,
    UpdatedAt,
}

/// A role granted at a level.
#[derive(Debug, Clone, PartialEq, Eq)]
pub struct LevelRolesSchema {
    pub guild_id: String,
    pub role_id: String,
    pub level: i32,
    pub stackable: bool,
    pub created_at: String,
    pub updated_at: String,
}

/// Columns of the level roles table.
#[derive(Debug, Clone, Copy, PartialEq, Eq, Structural)]
pub enum LevelRoles {
    Table,
    GuildId,
    RoleId,
    Level,
    Stackable,
    CreatedAt,
    UpdatedAt,
}

/// Columns of the XP multiplier table.
#[derive(Debug, Clone, Copy, PartialEq, Eq, Structural)]
pub enum LevelXpMultipliers {
    Table,
    GuildId,
    Multiplier,
    RoleId,
    CreatedAt,
    UpdatedAt,
}

} // verus!
