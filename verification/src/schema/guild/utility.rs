//! Utility feature tables: embeds and giveaways.

pub mod embed;
pub mod giveaway;
