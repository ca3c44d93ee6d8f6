//! Agent library for monitoring a blockchain node's transaction-relay
//! statistics and forwarding periodic deltas to a remote collection service.
//!
//! The polling engine and the relay client are modelled as state machines
//! over plain values; the asynchronous shell that drives them performs the
//! actual network calls and feeds their outcomes back in.

use vstd::prelude::*;

pub mod clock;
pub mod config;
pub mod engine;
pub mod envelope;
pub mod hexcodec;
pub mod identity;
pub mod queue;
pub mod record;
pub mod relay;
pub mod stats;

verus! {

} // verus!
