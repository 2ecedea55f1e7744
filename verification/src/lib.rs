//! Verified core of a receipt-printing backend.
//!
//! The host OS does the actual printing through its own command-line
//! utilities; this crate holds everything that can be decided without
//! running a process: parsing the output of printer-listing commands,
//! building the argument lists of the dispatch commands, and choosing
//! between the ordered fallback mechanisms from their recorded outcomes.
//! A thin unverified shell runs the processes and feeds their outcomes
//! back into these functions.

pub mod dispatch;
pub mod listing;
pub mod outcome;
pub mod text;

use vstd::prelude::*;
use vstd::string::StringExecFns;

verus! {

/// Greeting shown by the front-end demo command.
pub fn greet(name: &str) -> (r: String)
    ensures
        r@ == "Hello, "@ + name@ + "! You've been greeted from Rust!"@,
{
    let mut r = String::from_str("Hello, ");
    r.append(name);
    r.append("! You've been greeted from Rust!");
    r
}

} // verus!
