//! Stored embed rows.

use vstd::prelude::*;

verus! {

/// A reusable message with embeds and components.
#[derive(Debug, Clone, PartialEq, Eq)]
pub struct EmbedsSchema {
    pub name: String,
    pub guild_id: String,
    pub content: Option<String>,
    pub embeds: String,
    pub components: String,
    pub created_at: String,
    pub updated_at: String,
}

/// Columns of the embeds table.
#[derive(Debug, Clone, Copy, PartialEq, Eq, Structural)]
pub enum Embeds {
    Table,
    Name,
    GuildId,
    Content,
    Embeds,
    Components,
    CreatedAt,
    UpdatedAt,
}

} // verus!
