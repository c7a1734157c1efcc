//! Per-guild feature configuration tables.

pub mod aliases;
pub mod leveling;
pub mod logs;
pub mod voice_master;
