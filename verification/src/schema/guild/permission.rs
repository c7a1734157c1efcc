//! Per-guild permission grants to roles and users.

use vstd::prelude::*;

verus! {

/// A permission granted to a role.
#[derive(Debug, Clone, PartialEq, Eq)]
pub struct PermissionRolesSchema {
    pub guild_id: String,
    pub permission: String,
    pub role_id: Option<String>,
}

/// Columns of the role permissions table.
#[derive(Debug, Clone, Copy, PartialEq, Eq, Structural)]
pub enum PermissionRoles {
    Table,
    GuildId,
    Permission,
    RoleId,
}

/// A permission granted to a user.
#[derive(Debug, Clone, PartialEq, Eq)]
pub struct PermissionUsersSchema {
    pub guild_id: String,
    pub permission: String,
    pub user_id: Option<String>,
}

/// Columns of the user permissions table.
#[derive(Debug, Clone, Copy, PartialEq, Eq, Structural)]
pub enum PermissionUsers {
    Table,
    GuildId,
    Permission,
    UserId,
}

} // verus!
