//! Command alias columns.

use vstd::prelude::*;

verus! {

/// Columns of the command alias table.
#[derive(Debug, Clone, Copy, PartialEq, Eq, Structural)]
pub enum CommandAliases {
    Table,
    GuildId,
    Command,
    Alias,
    Arguments,
    CreatedAt,
    UpdatedAt,
}

} // verus!
