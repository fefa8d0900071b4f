//! Rules of a regulated fundraising campaign: investors deposit a stable-value
//! currency into a custody pool, the administrator releases the deposits,
//! confirms their off-chain conversion and issues shares, or refunds them.
//!
//! * `instructions` holds one verified transition per operation, over the
//!   records it touches, with the exact error each rule gives.
//! * `program` keeps every record in one table and proves that the table's
//!   aggregates always agree with its investments.
//! * `laws` states the safety properties that follow.
//!
//! Token movements are not performed here: an operation returns the transfer
//! or share creation that its caller must carry out, and the caller abandons
//! the whole operation if the custodian refuses it.

use vstd::prelude::*;

pub mod custody;
pub mod errors;
pub mod guard;
pub mod instructions;
pub mod laws;
pub mod program;
pub mod pubkey;
pub mod state;
pub mod totals;

verus! {

} // verus!
