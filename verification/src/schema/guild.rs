//! Guild rows and the tables scoped to a guild.

use vstd::prelude::*;

pub mod configuration;
pub mod misc;
pub mod permission;
pub mod setting;
pub mod utility;

verus! {

/// A guild as the dashboard lists it: its id and whether the bot is
/// enabled in it.
#[derive(Debug, Clone, PartialEq, Eq)]
pub struct GuildData {
    id: String,
    enabled: bool,
}

impl GuildData {
    pub fn new(id: String, enabled: bool) -> (r: Self)
        ensures
            r.spec_id() == id@,
            r.spec_enabled() == enabled,
    {
        GuildData { id, enabled }
    }

    pub closed spec fn spec_id(&self) -> Seq<char> {
        self.id@
    }

    pub closed spec fn spec_enabled(&self) -> bool {
        self.enabled
    }

    pub fn id(&self) -> (r: &String)
        ensures
            r@ == self.spec_id(),
    {
        &self.id
    }

    pub fn enabled(&self) -> (r: bool)
        ensures
            r == self.spec_enabled(),
    {
        self.enabled
    }

    pub fn set_enabled(&mut self, enabled: bool)
        ensures
            final(self).spec_enabled() == enabled,
            final(self).spec_id() == old(self).spec_id(),
    {
        self.enabled = enabled;
    }

    pub fn set_id(&mut self, id: String)
        ensures
            final(self).spec_id() == id@,
            final(self).spec_enabled() == old(self).spec_enabled(),
    {
        self.id = id;
    }

    pub fn to_owned(&self) -> (r: Self)
        ensures
            r == *self,
    {
        GuildData { id: self.id.clone(), enabled: self.enabled }
    }
}

/// Columns of the guilds table.
#[derive(Debug, Clone, Copy, PartialEq, Eq, Structural)]
pub enum Guilds {
    Table,
    Id,
    Enabled,
}

impl Guilds {
    /// The unquoted column name, as it stands in the schema.
    pub fn unquoted(&self) -> (r: String)
        ensures
            *self is Table ==> r@ == "guilds"@,
            *self is Id ==> r@ == "id"@,
            *self is Enabled ==> r@ == "enabled"@,
    {
        match self {
            Guilds::Table => String::from_str("guilds"),
            Guilds::Id => String::from_str("id"),
            Guilds::Enabled => String::from_str("enabled"),
        }
    }
}

/// A guild row with its shard assignment and bookkeeping timestamps.
#[derive(Debug, Clone, PartialEq, Eq)]
pub struct GuildSchema {
    pub id: String,
    pub enabled: bool,
    pub shard_id: u32,
    pub last_updated: String,
    pub started_at: String,
}

/// Columns of the guilds table, shard assignment included.
#[derive(Debug, Clone, Copy, PartialEq, Eq, Structural)]
pub enum Guild {
    Table,
    Id,
    Enabled,
    ShardId,
    AddedAt,
    LastUpdated,
}

} // verus!
