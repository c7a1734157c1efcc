//! Miscellaneous per-guild feature tables.

pub mod birthday;
pub mod reaction;
pub mod reminder;
pub mod timed_message;
