//! Verified core of the securechat server: the domain types and their
//! validation rules, the request typestate, the key material codecs, the
//! error model and the decisions that the HTTP and database layers act on.

use vstd::prelude::*;

pub mod chain;
pub mod commands;
pub mod crypto;
pub mod database;
pub mod dto;
pub mod error;
pub mod keys;
pub mod models;
pub mod primitives;
pub mod request;
pub mod stages;
pub mod steps;
pub mod telemetry;
pub mod text;

verus! {

/// Adds two counters.
pub fn add(left: u64, right: u64) -> (sum: u64)
    requires
        left + right <= u64::MAX,
    ensures
        sum == left + right,
{
    left + right
}

} // verus!
