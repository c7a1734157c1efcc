//! Domain services behind the API surface.

pub mod guilds;
