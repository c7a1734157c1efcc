//! Birthday rows.

use vstd::prelude::*;

verus! {

/// A user's birthday.
#[derive(Debug, Clone, PartialEq, Eq)]
pub struct BirthdaysSchema {
    pub user_id: String,
    pub birthday: String,
    pub created_at: String,
    pub updated_at: String,
}

/// Columns of the birthdays table.
#[derive(Debug, Clone, Copy, PartialEq, Eq, Structural)]
pub enum Birthdays {
    Table,
    UserId,
    Birthday,
    CreatedAt,
    UpdatedAt,
}

} // verus!
