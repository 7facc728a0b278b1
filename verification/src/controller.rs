//! The pool controller: its persisted state records, the LST registry, and
//! the two-phase rebalance protocol.

pub mod instructions;
pub mod registry;
pub mod rebalance;
pub mod state;
