//! Guild settings as the dashboard edits them.

use vstd::prelude::*;

pub mod logs;
pub mod voice_configs;

verus! {

/// A guild's dashboard-editable settings.
#[derive(Debug, Clone, PartialEq, Eq)]
pub struct GuildSettingsData {
    id: String,
    prefix: String,
    language: String,
}

impl GuildSettingsData {
    pub fn new(id: String, prefix: &str, language: SupportedLanguages) -> (r: Self)
        ensures
            r.spec_id() == id@,
            r.spec_prefix() == prefix@,
            r.spec_language() == language.spec_code(),
    {
        GuildSettingsData { id, prefix: prefix.to_owned(), language: language.to_string() }
    }

    /// The settings a guild starts with: `!` prefix, English.
    pub fn default(id: String) -> (r: Self)
        ensures
            r.spec_id() == id@,
            r.spec_prefix() == "!"@,
            r.spec_language() == "en"@,
    {
        GuildSettingsData {
            id,
            prefix: String::from_str("!"),
            language: SupportedLanguages::English.to_string(),
        }
    }

    pub closed spec fn spec_id(&self) -> Seq<char> {
        self.id@
    }

    pub closed spec fn spec_prefix(&self) -> Seq<char> {
        self.prefix@
    }

    pub closed spec fn spec_language(&self) -> Seq<char> {
        self.language@
    }

    pub fn id(&self) -> (r: &String)
        ensures
            r@ == self.spec_id(),
    {
        &self.id
    }

    pub fn prefix(&self) -> (r: &String)
        ensures
            r@ == self.spec_prefix(),
    {
        &self.prefix
    }

    pub fn language(&self) -> (r: &String)
        ensures
            r@ == self.spec_language(),
    {
        &self.language
    }

    pub fn set_prefix(&mut self, prefix: String)
        ensures
            final(self).spec_prefix() == prefix@,
            final(self).spec_id() == old(self).spec_id(),
            final(self).spec_language() == old(self).spec_language(),
    {
        self.prefix = prefix;
    }

    pub fn set_language(&mut self, language: String)
        ensures
            final(self).spec_language() == language@,
            final(self).spec_id() == old(self).spec_id(),
            final(self).spec_prefix() == old(self).spec_prefix(),
    {
        self.language = language;
    }

    pub fn to_owned(&self) -> (r: Self)
        ensures
            r == *self,
    {
        GuildSettingsData {
            id: self.id.clone(),
            prefix: self.prefix.clone(),
            language: self.language.clone(),
        }
    }
}

/// Columns of the guild settings table.
#[derive(Debug, Clone, Copy, PartialEq, Eq, Structural)]
pub enum GuildSettings {
    Table,
    Id,
    Prefix,
    Language,
}

impl GuildSettings {
    /// The unquoted column name, as it stands in the schema.
    pub fn unquoted(&self) -> (r: String)
        ensures
            *self is Table ==> r@ == "guild_settings"@,
            *self is Id ==> r@ == "id"@,
            *self is Prefix ==> r@ == "prefix"@,
            *self is Language ==> r@ == "language"@,
    {
        match self {
            GuildSettings::Table => String::from_str("guild_settings"),
            GuildSettings::Id => String::from_str("id"),
            GuildSettings::Prefix => String::from_str("prefix"),
            GuildSettings::Language => String::from_str("language"),
        }
    }
}

/// The languages the bot can answer in.
#[derive(Debug, Clone, Copy, PartialEq, Eq, Structural)]
pub enum SupportedLanguages {
    English,
}

impl SupportedLanguages {
    /// The language code a value of this enum stands for.
    pub open spec fn spec_code(&self) -> Seq<char> {
        "en"@
    }

    /// The language code, as stored and sent on the wire.
    pub fn to_string(&self) -> (r: String)
        ensures
            r@ == self.spec_code(),
    {
        match self {
            SupportedLanguages::English => String::from_str("en"),
        }
    }
}

impl Default for SupportedLanguages {
    fn default() -> (r: Self)
        ensures
            r is English,
    {
        SupportedLanguages::English
    }
}

} // verus!
