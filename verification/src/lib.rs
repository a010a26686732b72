//! The rules of a desktop companion that shows what its user is working on
//! through a rich-presence transport and reports shared time to a remote
//! service.
//!
//! The library decides and never performs: every operation works on plain
//! values, takes the current time as an argument, and answers with the state
//! that follows and with what is to be done on the transport or the network.
//! Each contract states that answer exactly.
use vstd::prelude::*;

pub mod commands;
pub mod data;
pub mod external;
pub mod services;
pub mod sharing;
pub mod text;
pub mod tray;

verus! {

/// Seconds between `earlier` and `now`, or zero when the clock went backwards.
pub open spec fn elapsed_between(now: u64, earlier: u64) -> u64 {
    if now >= earlier {
        (now - earlier) as u64
    } else {
        0
    }
}

/// Whole seconds from `earlier` to `now`, never negative.
pub fn seconds_since(now: u64, earlier: u64) -> (gap: u64)
    ensures
        gap == elapsed_between(now, earlier),
{
    if now >= earlier {
        now - earlier
    } else {
        0
    }
}

} // verus!
