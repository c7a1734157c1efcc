//! Guild settings rows.

use vstd::prelude::*;

verus! {

/// A guild's settings row.
#[derive(Debug, Clone, PartialEq, Eq)]
pub struct GuildSettingsSchema {
    pub id: String,
    pub prefix: String,
    pub language: String,
    pub colour: Option<String>,
}

impl GuildSettingsSchema {
    /// The settings a new guild starts with: `!` prefix, English, no
    /// accent colour.
    pub fn default(guild_id: String) -> (r: Self)
        ensures
            r.id@ == guild_id@,
            r.prefix@ == "!"@,
            r.language@ == "en"@,
            r.colour is None,
    {
        GuildSettingsSchema {
            id: guild_id,
            prefix: String::from_str("!"),
            language: SupportedLanguages::English.to_string(),
            colour: None,
        }
    }
}

/// Columns of the guild settings table.
#[derive(Debug, Clone, Copy, PartialEq, Eq, Structural)]
pub enum GuildSettings {
    Table,
    Id,
    Prefix,
    Language,
    Colour,
}

/// The languages the bot can answer in.
#[derive(Debug, Clone, Copy, PartialEq, Eq, Structural)]
pub enum SupportedLanguages {
    English,
}

impl SupportedLanguages {
    /// The language code a value of this enum stands for.
    pub open spec fn spec_code(&self) -> Seq<char> {
        "en"@
    }

    /// The language code, as stored and sent on the wire.
    pub fn to_string(&self) -> (r: String)
        ensures
            r@ == self.spec_code(),
    {
        match self {
            SupportedLanguages::English => String::from_str("en"),
        }
    }
}


} // verus!
