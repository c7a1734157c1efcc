//! The relational store's row and column vocabulary: one plain row type
//! per table and one column-name enum per table, shared by the query
//! plumbing around the library.

pub mod afk;
pub mod config;
pub mod guild;
pub mod shard;
pub mod user;
