//! Error taxonomy: parse errors for fixed-layout records, state-precondition
//! and protocol-sequencing errors of the pool controller, calculator errors,
//! and the address/privilege errors of the account-authorization layer.
//!
//! None of these is ever recovered from locally: every error aborts the
//! enclosing transaction and is surfaced verbatim to the caller.

use vstd::prelude::*;

use crate::pubkey::Pubkey;

verus! {

/// Failure to decode a fixed-layout binary record or instruction.
#[derive(Clone, Copy, Debug, PartialEq, Eq, Structural)]
pub enum ParseError {
    /// The buffer ends before the record does.
    UnexpectedEnd,
    /// The leading discriminant byte is not the expected one.
    WrongDiscm,
    /// The leading discriminant byte names no known instruction.
    UnknownDiscm,
}

/// State-precondition and protocol-sequencing errors of the pool controller.
#[derive(Clone, Copy, Debug, PartialEq, Eq, Structural)]
pub enum SControllerError {
    /// The mint being added is already in the registry.
    DuplicateLst,
    /// The LST being removed still has nonzero reserves or SOL value.
    LstStillHasValue,
    /// An LST index is out of bounds of the registry.
    InvalidLstIndex,
    /// The registry entry at the given index does not carry the claimed mint.
    IncorrectLstMint,
    /// The registry cannot grow past the largest addressable index.
    RegistryFull,
    /// A rebalance is already in progress.
    PoolRebalancing,
    /// No rebalance is in progress.
    PoolNotRebalancing,
    /// The pool is disabled.
    PoolDisabled,
    /// The LST is disabled as a swap input.
    LstInputDisabled,
    /// Pool reserves do not cover the requested transfer.
    InsufficientReserves,
    /// A supplied calculator program is not the one the registry entry
    /// names.
    IncorrectSolValueCalculator,
    /// No matching end-rebalance instruction follows in the transaction.
    NoSucceedingEndRebalance,
    /// Total SOL value after the rebalance would fall below the tolerated
    /// drift under the value recorded at its start.
    PoolWouldLoseSolValue,
    /// Arithmetic on SOL values overflowed.
    MathError,
    /// No bump byte yields a valid derived address for the given seeds.
    UnderivableAddress,
}

/// A privilege missing from a supplied account.
#[derive(Clone, Copy, Debug, PartialEq, Eq, Structural)]
pub enum PrivilegeError {
    /// The account must sign but did not.
    NotSigner(Pubkey),
    /// The account must be writable but is not.
    NotWritable(Pubkey),
}

/// Any failure of a controller or pricing operation.
#[derive(Clone, Copy, Debug, PartialEq, Eq, Structural)]
pub enum ProgError {
    /// A supplied account key differs from the derived expected key:
    /// `(actual, expected)`.
    WrongAccount(Pubkey, Pubkey),
    /// A supplied account lacks a required privilege.
    Privilege(PrivilegeError),
    /// Fewer accounts were supplied than the operation needs.
    NotEnoughAccountKeys,
    /// A record failed to decode.
    Parse(ParseError),
    /// A state precondition or protocol rule failed.
    Controller(SControllerError),
}

/// Failures of a SOL-value calculator.
#[derive(Clone, Copy, Debug, PartialEq, Eq, Structural)]
pub enum LstSolValCalcError {
    /// Pricing was attempted before the backend pool state was fetched.
    StakePoolNotFetched,
    /// Pricing was attempted before the clock was fetched.
    ClockNotFetched,
    /// A fetched backend state names a different mint than expected.
    WrongLstMint,
    /// The cached backend state was last updated in an earlier epoch.
    PoolNotUpdatedForThisEpoch,
    /// A fetched snapshot account failed to decode.
    InvalidSnapshotData,
    /// A tagged calculator was converted to the wrong concrete variant.
    WrongLstSolValCalc,
    /// The backend pool state cannot price (zero supply, or the result does
    /// not fit in 64 bits).
    MathError,
}

} // verus!
