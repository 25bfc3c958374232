//! Economic and liveness-verification engine of a confidential-compute
//! mining network: worker state machine, round scheduler, probabilistic
//! heartbeat challenges, offline slashing and the Fire reward ledger.
use vstd::prelude::*;

pub mod error;
pub mod events;
pub mod fire;
pub mod hashing;
pub mod laws;
pub mod messaging;
pub mod mining;
pub mod registry;
pub mod round;
pub mod slashing;
pub mod state;
pub mod sums;
pub mod types;
pub mod u256;
pub mod whitelist;

verus! {

/// Fixed-point scale used for fractional reward targets.
pub const PERCENTAGE_BASE: u32 = 100_000;

} // verus!
