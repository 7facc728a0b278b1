//! Verified core of a multi-asset liquid-staking-token (LST) pool controller:
//! the LST registry and pool-state bookkeeping, the two-phase rebalance
//! protocol, the SOL-value calculator abstraction, the flat-fee pricing
//! instruction codec, and the program-derived-address authorization layer.

use vstd::prelude::*;

pub mod accounts;
pub mod bytes;
pub mod calculator;
pub mod controller;
pub mod errors;
pub mod flat_fee;
pub mod laws;
pub mod pda;
pub mod pubkey;
pub mod value_range;

verus! {

} // verus!
