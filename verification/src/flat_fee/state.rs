//! Persisted records of the flat-fee program: its state singleton and the
//! per-LST fee accounts.

use vstd::prelude::*;

use crate::bytes::{i16v, push_i16_le, push_u16_le, read_i16_le, read_u16_le, u16v};
use crate::errors::ParseError;
use crate::pubkey::{pk_at, push_pubkey, read_pubkey, Pubkey};

verus! {

/// Size of a per-LST fee account record.
pub const FEE_ACCOUNT_SIZE: usize = 8;

/// A per-LST fee account: the swap fee in basis points levied when this LST
/// is the input or the output side, and the account's bump. Layout: input
/// fee at 0, output fee at 2, bump at 4, three padding bytes.
#[derive(Clone, Copy, Debug, PartialEq, Eq, Structural)]
pub struct FeeAccount {
    pub input_fee_bps: i16,
    pub output_fee_bps: i16,
    pub bump: u8,
}

/// The fee account a record carries, or why it cannot be read.
pub open spec fn parse_fee_account(s: Seq<u8>) -> Result<FeeAccount, ParseError> {
    if s.len() != 8 {
        Err(ParseError::UnexpectedEnd)
    } else {
        Ok(
            FeeAccount {
                input_fee_bps: i16v(s, 0) as i16,
                output_fee_bps: i16v(s, 2) as i16,
                bump: s[4],
            },
        )
    }
}

/// Decodes a fee account record.
pub fn try_fee_account(data: &[u8]) -> (r: Result<FeeAccount, ParseError>)
    ensures
        r == parse_fee_account(data@),
{
    let n: usize = data.len();
    if n != FEE_ACCOUNT_SIZE {
        Err(ParseError::UnexpectedEnd)
    } else {
        Ok(
            FeeAccount {
                input_fee_bps: read_i16_le(data, 0),
                output_fee_bps: read_i16_le(data, 2),
                bump: data[4],
            },
        )
    }
}

impl FeeAccount {
    /// Encodes the record canonically; decoding gives the record back.
    pub fn to_vec(&self) -> (r: Vec<u8>)
        ensures
            r@.len() == 8,
            parse_fee_account(r@) == Ok::<FeeAccount, ParseError>(*self),
    {
        let mut out: Vec<u8> = Vec::new();
        push_i16_le(&mut out, self.input_fee_bps);
        push_i16_le(&mut out, self.output_fee_bps);
        out.push(self.bump);
        out.push(0);
        out.push(0);
        out.push(0);
        out
    }
}

/// Size of the flat-fee program's state record.
pub const PROGRAM_STATE_SIZE: usize = 40;

/// The flat-fee program's state singleton: its manager and the fee levied
/// on LP withdrawals. Layout: manager at 0, LP withdrawal fee at 32, six
/// padding bytes.
#[derive(Clone, Copy, Debug, PartialEq, Eq, Structural)]
pub struct ProgramState {
    pub manager: Pubkey,
    pub lp_withdrawal_fee_bps: u16,
}

/// The program state a record carries, or why it cannot be read.
pub open spec fn parse_program_state(s: Seq<u8>) -> Result<ProgramState, ParseError> {
    if s.len() != 40 {
        Err(ParseError::UnexpectedEnd)
    } else {
        Ok(ProgramState { manager: pk_at(s, 0), lp_withdrawal_fee_bps: u16v(s, 32) as u16 })
    }
}

/// Decodes the flat-fee program's state record.
pub fn try_program_state(data: &[u8]) -> (r: Result<ProgramState, ParseError>)
    ensures
        r == parse_program_state(data@),
{
    let n: usize = data.len();
    if n != PROGRAM_STATE_SIZE {
        Err(ParseError::UnexpectedEnd)
    } else {
        Ok(
            ProgramState {
                manager: read_pubkey(data, 0),
                lp_withdrawal_fee_bps: read_u16_le(data, 32),
            },
        )
    }
}

impl ProgramState {
    /// Encodes the record canonically; decoding gives the record back.
    pub fn to_vec(&self) -> (r: Vec<u8>)
        ensures
            r@.len() == 40,
            parse_program_state(r@) == Ok::<ProgramState, ParseError>(*self),
    {
        let mut out: Vec<u8> = Vec::new();
        push_pubkey(&mut out, &self.manager);
        push_u16_le(&mut out, self.lp_withdrawal_fee_bps);
        out.push(0);
        out.push(0);
        out.push(0);
        out.push(0);
        out.push(0);
        out.push(0);
        out
    }
}

} // verus!
