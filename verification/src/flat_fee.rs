//! The flat-fee pricing program: its instruction wire format, account lists,
//! persisted records, and the exact-in pricing processor.

pub mod builders;
pub mod instructions;
pub mod keys;
pub mod processor;
pub mod state;
