//! Request and response bodies of the HTTP routes that the router exposes
//! around the library.

use vstd::prelude::*;

use crate::schema::user::afk::AfkConfigSchema;

verus! {

/// Body of a request that sets a user's AFK configuration.
#[derive(Debug, Clone, PartialEq, Eq)]
pub struct NewAfkConfigBody {
    pub per_guild: Option<bool>,
    pub default_reason: Option<String>,
}

/// Response to setting a user's AFK configuration: the configuration that
/// was replaced, if any, and the one now in force.
#[derive(Debug, Clone, PartialEq, Eq)]
pub struct AfkConfigResponse {
    pub old_config: Option<AfkConfigSchema>,
    pub new_config: AfkConfigSchema,
}

} // verus!
