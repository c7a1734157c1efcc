//! Backend library for a chat-platform bot dashboard.
//!
//! The core is the gateway relay actor: it classifies WebSocket peers,
//! relays envelope-coded events between the bot process and dashboard
//! clients, aggregates shard telemetry, and runs a self-rescheduling
//! timer queue whose platform wake-up request always targets the
//! earliest pending action.

use vstd::prelude::*;

pub mod actor;
pub mod codec;
pub mod registry;
pub mod routes;
pub mod schema;
pub mod services;
pub mod shards;
pub mod state;
pub mod timer;

verus! {

/// A Discord snowflake is a string of 17 to 19 ASCII digits.
pub open spec fn is_snowflake(s: Seq<char>) -> bool {
    &&& 17 <= s.len() <= 19
    &&& forall|i: int| 0 <= i < s.len() ==> '0' <= #[trigger] s[i] <= '9'
}

/// Checks if a string is a valid Discord snowflake (17-19 digits).
pub fn check_snowflake(id: &str) -> (r: bool)
    ensures
        r == is_snowflake(id@),
{
    let len = id.unicode_len();
    if len < 17 || len > 19 {
        return false;
    }
    let mut i: usize = 0;
    while i < len
        invariant
            0 <= i <= len,
            len == id@.len(),
            17 <= len <= 19,
            forall|j: int| 0 <= j < i ==> '0' <= #[trigger] id@[j] <= '9',
        decreases len - i,
    {
        let c = id.get_char(i);
        if c < '0' || c > '9' {
            return false;
        }
        i = i + 1;
    }
    true
}

} // verus!
