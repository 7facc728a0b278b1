//! Wire format of the flat-fee pricing program's instructions.
//!
//! Every instruction is one leading discriminant byte followed by a
//! fixed-layout little-endian argument struct. Decoding reads a prefix of the
//! buffer and ignores trailing bytes; encoding always produces the canonical
//! fixed-size form. The payloads come in four shapes (two 64-bit words, one
//! unsigned 16-bit word, two signed 16-bit words, empty), specified once each
//! and shared by the per-instruction types.

use vstd::prelude::*;

use crate::bytes::{
    i16v, lemma_u16_field_unique, lemma_u64_field_unique, push_i16_le, push_u16_le, push_u64_le,
    read_i16_le, read_u16_le, read_u64_le, u16v, u64v,
};
use crate::errors::ParseError;

verus! {

pub const PRICE_EXACT_IN_IX_DISCM: u8 = 0;
pub const PRICE_EXACT_OUT_IX_DISCM: u8 = 1;
pub const PRICE_LP_TOKENS_TO_MINT_IX_DISCM: u8 = 2;
pub const PRICE_LP_TOKENS_TO_REDEEM_IX_DISCM: u8 = 3;
pub const SET_LP_WITHDRAWAL_FEE_IX_DISCM: u8 = 250;
pub const SET_LST_FEE_IX_DISCM: u8 = 251;
pub const REMOVE_LST_IX_DISCM: u8 = 252;
pub const ADD_LST_IX_DISCM: u8 = 253;
pub const SET_MANAGER_IX_DISCM: u8 = 254;
pub const INITIALIZE_IX_DISCM: u8 = 255;

// ---------------------------------------------------------------------------
// The four payload shapes.

/// `s` is the discriminant byte followed by two 64-bit little-endian words.
pub open spec fn encodes_two_u64(s: Seq<u8>, discm: u8, a: u64, b: u64) -> bool {
    &&& s.len() == 17
    &&& s[0] == discm
    &&& u64v(s, 1) == a
    &&& u64v(s, 9) == b
}

/// `s` is the discriminant byte followed by one unsigned 16-bit word.
pub open spec fn encodes_one_u16(s: Seq<u8>, discm: u8, a: u16) -> bool {
    &&& s.len() == 3
    &&& s[0] == discm
    &&& u16v(s, 1) == a
}

/// `s` is the discriminant byte followed by two signed 16-bit words.
pub open spec fn encodes_two_i16(s: Seq<u8>, discm: u8, a: i16, b: i16) -> bool {
    &&& s.len() == 5
    &&& s[0] == discm
    &&& i16v(s, 1) == a
    &&& i16v(s, 3) == b
}

/// `s` is the discriminant byte alone.
pub open spec fn encodes_empty(s: Seq<u8>, discm: u8) -> bool {
    &&& s.len() == 1
    &&& s[0] == discm
}

/// Result of parsing a prefix of `s` as a two-64-bit-word payload behind
/// `discm`: trailing bytes are ignored, as the wire format prescribes.
pub open spec fn parse_two_u64(s: Seq<u8>, discm: u8) -> Result<(u64, u64), ParseError> {
    if s.len() < 1 {
        Err(ParseError::UnexpectedEnd)
    } else if s[0] != discm {
        Err(ParseError::WrongDiscm)
    } else if s.len() < 17 {
        Err(ParseError::UnexpectedEnd)
    } else {
        Ok((u64v(s, 1) as u64, u64v(s, 9) as u64))
    }
}

/// Result of parsing a prefix of `s` as a one-unsigned-16-bit-word payload.
pub open spec fn parse_one_u16(s: Seq<u8>, discm: u8) -> Result<u16, ParseError> {
    if s.len() < 1 {
        Err(ParseError::UnexpectedEnd)
    } else if s[0] != discm {
        Err(ParseError::WrongDiscm)
    } else if s.len() < 3 {
        Err(ParseError::UnexpectedEnd)
    } else {
        Ok(u16v(s, 1) as u16)
    }
}

/// Result of parsing a prefix of `s` as a two-signed-16-bit-word payload.
pub open spec fn parse_two_i16(s: Seq<u8>, discm: u8) -> Result<(i16, i16), ParseError> {
    if s.len() < 1 {
        Err(ParseError::UnexpectedEnd)
    } else if s[0] != discm {
        Err(ParseError::WrongDiscm)
    } else if s.len() < 5 {
        Err(ParseError::UnexpectedEnd)
    } else {
        Ok((i16v(s, 1) as i16, i16v(s, 3) as i16))
    }
}

/// Result of parsing a prefix of `s` as an empty payload behind `discm`.
pub open spec fn parse_empty(s: Seq<u8>, discm: u8) -> Result<(), ParseError> {
    if s.len() < 1 {
        Err(ParseError::UnexpectedEnd)
    } else if s[0] != discm {
        Err(ParseError::WrongDiscm)
    } else {
        Ok(())
    }
}

fn serialize_two_u64(discm: u8, a: u64, b: u64) -> (r: Vec<u8>)
    ensures
        encodes_two_u64(r@, discm, a, b),
{
    let mut out: Vec<u8> = Vec::new();
    out.push(discm);
    push_u64_le(&mut out, a);
    push_u64_le(&mut out, b);
    out
}

fn serialize_one_u16(discm: u8, a: u16) -> (r: Vec<u8>)
    ensures
        encodes_one_u16(r@, discm, a),
{
    let mut out: Vec<u8> = Vec::new();
    out.push(discm);
    push_u16_le(&mut out, a);
    out
}

fn serialize_two_i16(discm: u8, a: i16, b: i16) -> (r: Vec<u8>)
    ensures
        encodes_two_i16(r@, discm, a, b),
{
    let mut out: Vec<u8> = Vec::new();
    out.push(discm);
    push_i16_le(&mut out, a);
    push_i16_le(&mut out, b);
    out
}

fn serialize_empty(discm: u8) -> (r: Vec<u8>)
    ensures
        encodes_empty(r@, discm),
{
    let mut out: Vec<u8> = Vec::new();
    out.push(discm);
    out
}

fn deserialize_two_u64(buf: &[u8], discm: u8) -> (r: Result<(u64, u64), ParseError>)
    ensures
        r == parse_two_u64(buf@, discm),
{
    let n: usize = buf.len();
    if n < 1 {
        Err(ParseError::UnexpectedEnd)
    } else if buf[0] != discm {
        Err(ParseError::WrongDiscm)
    } else if n < 17 {
        Err(ParseError::UnexpectedEnd)
    } else {
        Ok((read_u64_le(buf, 1), read_u64_le(buf, 9)))
    }
}

fn deserialize_one_u16(buf: &[u8], discm: u8) -> (r: Result<u16, ParseError>)
    ensures
        r == parse_one_u16(buf@, discm),
{
    let n: usize = buf.len();
    if n < 1 {
        Err(ParseError::UnexpectedEnd)
    } else if buf[0] != discm {
        Err(ParseError::WrongDiscm)
    } else if n < 3 {
        Err(ParseError::UnexpectedEnd)
    } else {
        Ok(read_u16_le(buf, 1))
    }
}

fn deserialize_two_i16(buf: &[u8], discm: u8) -> (r: Result<(i16, i16), ParseError>)
    ensures
        r == parse_two_i16(buf@, discm),
{
    let n: usize = buf.len();
    if n < 1 {
        Err(ParseError::UnexpectedEnd)
    } else if buf[0] != discm {
        Err(ParseError::WrongDiscm)
    } else if n < 5 {
        Err(ParseError::UnexpectedEnd)
    } else {
        Ok((read_i16_le(buf, 1), read_i16_le(buf, 3)))
    }
}

fn deserialize_empty(buf: &[u8], discm: u8) -> (r: Result<(), ParseError>)
    ensures
        r == parse_empty(buf@, discm),
{
    let n: usize = buf.len();
    if n < 1 {
        Err(ParseError::UnexpectedEnd)
    } else if buf[0] != discm {
        Err(ParseError::WrongDiscm)
    } else {
        Ok(())
    }
}

// ---------------------------------------------------------------------------
// Round-trip laws for the payload shapes.

/// A byte sequence that encodes a two-64-bit-word payload parses back to
/// exactly those words.
pub proof fn lemma_two_u64_round_trip(s: Seq<u8>, discm: u8, a: u64, b: u64)
    requires
        encodes_two_u64(s, discm, a, b),
    ensures
        parse_two_u64(s, discm) == Ok::<(u64, u64), ParseError>((a, b)),
{
}

/// Parsing a two-64-bit-word payload determines the 17-byte prefix read:
/// any two buffers that parse to the same words agree on it.
pub proof fn lemma_parse_two_u64_canonical(s1: Seq<u8>, s2: Seq<u8>, discm: u8)
    requires
        parse_two_u64(s1, discm) is Ok,
        parse_two_u64(s1, discm) == parse_two_u64(s2, discm),
    ensures
        forall|j: int| 0 <= j < 17 ==> s1[j] == s2[j],
{
    lemma_u64_field_unique(s1, 1, s2, 1);
    lemma_u64_field_unique(s1, 9, s2, 9);
    assert forall|j: int| 0 <= j < 17 implies s1[j] == s2[j] by {
        if j == 0 {
            assert(s1[0] == discm && s2[0] == discm);
        } else if j < 9 {
            assert(s1[1 + (j - 1)] == s2[1 + (j - 1)]);
        } else {
            assert(s1[9 + (j - 9)] == s2[9 + (j - 9)]);
        }
    }
}

/// A byte sequence that encodes a one-16-bit-word payload parses back to
/// exactly that word.
pub proof fn lemma_one_u16_round_trip(s: Seq<u8>, discm: u8, a: u16)
    requires
        encodes_one_u16(s, discm, a),
    ensures
        parse_one_u16(s, discm) == Ok::<u16, ParseError>(a),
{
}

/// A byte sequence that encodes a two-signed-16-bit-word payload parses back
/// to exactly those words.
pub proof fn lemma_two_i16_round_trip(s: Seq<u8>, discm: u8, a: i16, b: i16)
    requires
        encodes_two_i16(s, discm, a, b),
    ensures
        parse_two_i16(s, discm) == Ok::<(i16, i16), ParseError>((a, b)),
{
}

/// Parsing a two-signed-16-bit-word payload determines the 5-byte prefix
/// read.
pub proof fn lemma_parse_two_i16_canonical(s1: Seq<u8>, s2: Seq<u8>, discm: u8)
    requires
        parse_two_i16(s1, discm) is Ok,
        parse_two_i16(s1, discm) == parse_two_i16(s2, discm),
    ensures
        forall|j: int| 0 <= j < 5 ==> s1[j] == s2[j],
{
    assert(u16v(s1, 1) == u16v(s2, 1));
    assert(u16v(s1, 3) == u16v(s2, 3));
    lemma_u16_field_unique(s1, 1, s2, 1);
    lemma_u16_field_unique(s1, 3, s2, 3);
    assert forall|j: int| 0 <= j < 5 implies s1[j] == s2[j] by {
        if j == 0 {
            assert(s1[0] == discm && s2[0] == discm);
        } else if j < 3 {
            assert(s1[1 + (j - 1)] == s2[1 + (j - 1)]);
        } else {
            assert(s1[3 + (j - 3)] == s2[3 + (j - 3)]);
        }
    }
}

// ---------------------------------------------------------------------------
// Per-instruction argument and data types.

#[derive(Clone, Copy, Debug, PartialEq, Eq, Structural)]
pub struct PriceExactInIxArgs {
    pub amount: u64,
    pub sol_value: u64,
}

#[derive(Clone, Copy, Debug, PartialEq, Eq, Structural)]
pub struct PriceExactInIxData(pub PriceExactInIxArgs);

impl PriceExactInIxData {
    pub fn serialize(&self) -> (r: Vec<u8>)
        ensures
            encodes_two_u64(r@, PRICE_EXACT_IN_IX_DISCM, self.0.amount, self.0.sol_value),
    {
        serialize_two_u64(PRICE_EXACT_IN_IX_DISCM, self.0.amount, self.0.sol_value)
    }

    pub fn deserialize(buf: &[u8]) -> (r: Result<Self, ParseError>)
        ensures
            r == (match parse_two_u64(buf@, PRICE_EXACT_IN_IX_DISCM) {
                Ok(okv) => { let p: (u64, u64) = okv; Ok(PriceExactInIxData(PriceExactInIxArgs { amount: p.0, sol_value: p.1 })) },
                Err(e) => Err(e),
            }),
    {
        match deserialize_two_u64(buf, PRICE_EXACT_IN_IX_DISCM) {
            Ok(p) => Ok(PriceExactInIxData(PriceExactInIxArgs { amount: p.0, sol_value: p.1 })),
            Err(e) => Err(e),
        }
    }
}

#[derive(Clone, Copy, Debug, PartialEq, Eq, Structural)]
pub struct PriceExactOutIxArgs {
    pub amount: u64,
    pub sol_value: u64,
}

#[derive(Clone, Copy, Debug, PartialEq, Eq, Structural)]
pub struct PriceExactOutIxData(pub PriceExactOutIxArgs);

impl PriceExactOutIxData {
    pub fn serialize(&self) -> (r: Vec<u8>)
        ensures
            encodes_two_u64(r@, PRICE_EXACT_OUT_IX_DISCM, self.0.amount, self.0.sol_value),
    {
        serialize_two_u64(PRICE_EXACT_OUT_IX_DISCM, self.0.amount, self.0.sol_value)
    }

    pub fn deserialize(buf: &[u8]) -> (r: Result<Self, ParseError>)
        ensures
            r == (match parse_two_u64(buf@, PRICE_EXACT_OUT_IX_DISCM) {
                Ok(okv) => { let p: (u64, u64) = okv; Ok(PriceExactOutIxData(PriceExactOutIxArgs { amount: p.0, sol_value: p.1 })) },
                Err(e) => Err(e),
            }),
    {
        match deserialize_two_u64(buf, PRICE_EXACT_OUT_IX_DISCM) {
            Ok(p) => Ok(PriceExactOutIxData(PriceExactOutIxArgs { amount: p.0, sol_value: p.1 })),
            Err(e) => Err(e),
        }
    }
}

#[derive(Clone, Copy, Debug, PartialEq, Eq, Structural)]
pub struct PriceLpTokensToMintIxArgs {
    pub amount: u64,
    pub sol_value: u64,
}

#[derive(Clone, Copy, Debug, PartialEq, Eq, Structural)]
pub struct PriceLpTokensToMintIxData(pub PriceLpTokensToMintIxArgs);

impl PriceLpTokensToMintIxData {
    pub fn serialize(&self) -> (r: Vec<u8>)
        ensures
            encodes_two_u64(r@, PRICE_LP_TOKENS_TO_MINT_IX_DISCM, self.0.amount, self.0.sol_value),
    {
        serialize_two_u64(PRICE_LP_TOKENS_TO_MINT_IX_DISCM, self.0.amount, self.0.sol_value)
    }

    pub fn deserialize(buf: &[u8]) -> (r: Result<Self, ParseError>)
        ensures
            r == (match parse_two_u64(buf@, PRICE_LP_TOKENS_TO_MINT_IX_DISCM) {
                Ok(okv) => { let p: (u64, u64) = okv; Ok(PriceLpTokensToMintIxData(
                    PriceLpTokensToMintIxArgs { amount: p.0, sol_value: p.1 },
                )) },
                Err(e) => Err(e),
            }),
    {
        match deserialize_two_u64(buf, PRICE_LP_TOKENS_TO_MINT_IX_DISCM) {
            Ok(p) => Ok(
                PriceLpTokensToMintIxData(PriceLpTokensToMintIxArgs { amount: p.0, sol_value: p.1 }),
            ),
            Err(e) => Err(e),
        }
    }
}

#[derive(Clone, Copy, Debug, PartialEq, Eq, Structural)]
pub struct PriceLpTokensToRedeemIxArgs {
    pub amount: u64,
    pub sol_value: u64,
}

#[derive(Clone, Copy, Debug, PartialEq, Eq, Structural)]
pub struct PriceLpTokensToRedeemIxData(pub PriceLpTokensToRedeemIxArgs);

impl PriceLpTokensToRedeemIxData {
    pub fn serialize(&self) -> (r: Vec<u8>)
        ensures
            encodes_two_u64(
                r@, PRICE_LP_TOKENS_TO_REDEEM_IX_DISCM, self.0.amount, self.0.sol_value,
            ),
    {
        serialize_two_u64(PRICE_LP_TOKENS_TO_REDEEM_IX_DISCM, self.0.amount, self.0.sol_value)
    }

    pub fn deserialize(buf: &[u8]) -> (r: Result<Self, ParseError>)
        ensures
            r == (match parse_two_u64(buf@, PRICE_LP_TOKENS_TO_REDEEM_IX_DISCM) {
                Ok(okv) => { let p: (u64, u64) = okv; Ok(PriceLpTokensToRedeemIxData(
                    PriceLpTokensToRedeemIxArgs { amount: p.0, sol_value: p.1 },
                )) },
                Err(e) => Err(e),
            }),
    {
        match deserialize_two_u64(buf, PRICE_LP_TOKENS_TO_REDEEM_IX_DISCM) {
            Ok(p) => Ok(
                PriceLpTokensToRedeemIxData(
                    PriceLpTokensToRedeemIxArgs { amount: p.0, sol_value: p.1 },
                ),
            ),
            Err(e) => Err(e),
        }
    }
}

#[derive(Clone, Copy, Debug, PartialEq, Eq, Structural)]
pub struct SetLpWithdrawalFeeIxArgs {
    pub lp_withdrawal_fee_bps: u16,
}

#[derive(Clone, Copy, Debug, PartialEq, Eq, Structural)]
pub struct SetLpWithdrawalFeeIxData(pub SetLpWithdrawalFeeIxArgs);

impl SetLpWithdrawalFeeIxData {
    pub fn serialize(&self) -> (r: Vec<u8>)
        ensures
            encodes_one_u16(r@, SET_LP_WITHDRAWAL_FEE_IX_DISCM, self.0.lp_withdrawal_fee_bps),
    {
        serialize_one_u16(SET_LP_WITHDRAWAL_FEE_IX_DISCM, self.0.lp_withdrawal_fee_bps)
    }

    pub fn deserialize(buf: &[u8]) -> (r: Result<Self, ParseError>)
        ensures
            r == (match parse_one_u16(buf@, SET_LP_WITHDRAWAL_FEE_IX_DISCM) {
                Ok(okv) => { let a: u16 = okv; Ok(SetLpWithdrawalFeeIxData(
                    SetLpWithdrawalFeeIxArgs { lp_withdrawal_fee_bps: a },
                )) },
                Err(e) => Err(e),
            }),
    {
        match deserialize_one_u16(buf, SET_LP_WITHDRAWAL_FEE_IX_DISCM) {
            Ok(a) => Ok(
                SetLpWithdrawalFeeIxData(SetLpWithdrawalFeeIxArgs { lp_withdrawal_fee_bps: a }),
            ),
            Err(e) => Err(e),
        }
    }
}

#[derive(Clone, Copy, Debug, PartialEq, Eq, Structural)]
pub struct SetLstFeeIxArgs {
    pub input_fee_bps: i16,
    pub output_fee_bps: i16,
}

#[derive(Clone, Copy, Debug, PartialEq, Eq, Structural)]
pub struct SetLstFeeIxData(pub SetLstFeeIxArgs);

impl SetLstFeeIxData {
    pub fn serialize(&self) -> (r: Vec<u8>)
        ensures
            encodes_two_i16(r@, SET_LST_FEE_IX_DISCM, self.0.input_fee_bps, self.0.output_fee_bps),
    {
        serialize_two_i16(SET_LST_FEE_IX_DISCM, self.0.input_fee_bps, self.0.output_fee_bps)
    }

    pub fn deserialize(buf: &[u8]) -> (r: Result<Self, ParseError>)
        ensures
            r == (match parse_two_i16(buf@, SET_LST_FEE_IX_DISCM) {
                Ok(okv) => { let p: (i16, i16) = okv; Ok(SetLstFeeIxData(
                    SetLstFeeIxArgs { input_fee_bps: p.0, output_fee_bps: p.1 },
                )) },
                Err(e) => Err(e),
            }),
    {
        match deserialize_two_i16(buf, SET_LST_FEE_IX_DISCM) {
            Ok(p) => Ok(SetLstFeeIxData(SetLstFeeIxArgs { input_fee_bps: p.0, output_fee_bps: p.1 })),
            Err(e) => Err(e),
        }
    }
}

#[derive(Clone, Copy, Debug, PartialEq, Eq, Structural)]
pub struct RemoveLstIxArgs {}

#[derive(Clone, Copy, Debug, PartialEq, Eq, Structural)]
pub struct RemoveLstIxData(pub RemoveLstIxArgs);

impl RemoveLstIxData {
    pub fn serialize(&self) -> (r: Vec<u8>)
        ensures
            encodes_empty(r@, REMOVE_LST_IX_DISCM),
    {
        serialize_empty(REMOVE_LST_IX_DISCM)
    }

    pub fn deserialize(buf: &[u8]) -> (r: Result<Self, ParseError>)
        ensures
            r == (match parse_empty(buf@, REMOVE_LST_IX_DISCM) {
                Ok(okv) => { let u: () = okv; Ok(RemoveLstIxData(RemoveLstIxArgs {})) },
                Err(e) => Err(e),
            }),
    {
        match deserialize_empty(buf, REMOVE_LST_IX_DISCM) {
            Ok(_) => Ok(RemoveLstIxData(RemoveLstIxArgs {})),
            Err(e) => Err(e),
        }
    }
}

#[derive(Clone, Copy, Debug, PartialEq, Eq, Structural)]
pub struct AddLstIxArgs {
    pub input_fee_bps: i16,
    pub output_fee_bps: i16,
}

#[derive(Clone, Copy, Debug, PartialEq, Eq, Structural)]
pub struct AddLstIxData(pub AddLstIxArgs);

impl AddLstIxData {
    pub fn serialize(&self) -> (r: Vec<u8>)
        ensures
            encodes_two_i16(r@, ADD_LST_IX_DISCM, self.0.input_fee_bps, self.0.output_fee_bps),
    {
        serialize_two_i16(ADD_LST_IX_DISCM, self.0.input_fee_bps, self.0.output_fee_bps)
    }

    pub fn deserialize(buf: &[u8]) -> (r: Result<Self, ParseError>)
        ensures
            r == (match parse_two_i16(buf@, ADD_LST_IX_DISCM) {
                Ok(okv) => { let p: (i16, i16) = okv; Ok(AddLstIxData(
                    AddLstIxArgs { input_fee_bps: p.0, output_fee_bps: p.1 },
                )) },
                Err(e) => Err(e),
            }),
    {
        match deserialize_two_i16(buf, ADD_LST_IX_DISCM) {
            Ok(p) => Ok(AddLstIxData(AddLstIxArgs { input_fee_bps: p.0, output_fee_bps: p.1 })),
            Err(e) => Err(e),
        }
    }
}

#[derive(Clone, Copy, Debug, PartialEq, Eq, Structural)]
pub struct SetManagerIxArgs {}

#[derive(Clone, Copy, Debug, PartialEq, Eq, Structural)]
pub struct SetManagerIxData(pub SetManagerIxArgs);

impl SetManagerIxData {
    pub fn serialize(&self) -> (r: Vec<u8>)
        ensures
            encodes_empty(r@, SET_MANAGER_IX_DISCM),
    {
        serialize_empty(SET_MANAGER_IX_DISCM)
    }

    pub fn deserialize(buf: &[u8]) -> (r: Result<Self, ParseError>)
        ensures
            r == (match parse_empty(buf@, SET_MANAGER_IX_DISCM) {
                Ok(okv) => { let u: () = okv; Ok(SetManagerIxData(SetManagerIxArgs {})) },
                Err(e) => Err(e),
            }),
    {
        match deserialize_empty(buf, SET_MANAGER_IX_DISCM) {
            Ok(_) => Ok(SetManagerIxData(SetManagerIxArgs {})),
            Err(e) => Err(e),
        }
    }
}

#[derive(Clone, Copy, Debug, PartialEq, Eq, Structural)]
pub struct InitializeIxArgs {}

#[derive(Clone, Copy, Debug, PartialEq, Eq, Structural)]
pub struct InitializeIxData(pub InitializeIxArgs);

impl InitializeIxData {
    pub fn serialize(&self) -> (r: Vec<u8>)
        ensures
            encodes_empty(r@, INITIALIZE_IX_DISCM),
    {
        serialize_empty(INITIALIZE_IX_DISCM)
    }

    pub fn deserialize(buf: &[u8]) -> (r: Result<Self, ParseError>)
        ensures
            r == (match parse_empty(buf@, INITIALIZE_IX_DISCM) {
                Ok(okv) => { let u: () = okv; Ok(InitializeIxData(InitializeIxArgs {})) },
                Err(e) => Err(e),
            }),
    {
        match deserialize_empty(buf, INITIALIZE_IX_DISCM) {
            Ok(_) => Ok(InitializeIxData(InitializeIxArgs {})),
            Err(e) => Err(e),
        }
    }
}

// ---------------------------------------------------------------------------
// The whole instruction set as one tagged union.

#[derive(Clone, Copy, Debug, PartialEq, Eq, Structural)]
pub enum FlatFeeProgramIx {
    PriceExactIn(PriceExactInIxArgs),
    PriceExactOut(PriceExactOutIxArgs),
    PriceLpTokensToMint(PriceLpTokensToMintIxArgs),
    PriceLpTokensToRedeem(PriceLpTokensToRedeemIxArgs),
    SetLpWithdrawalFee(SetLpWithdrawalFeeIxArgs),
    SetLstFee(SetLstFeeIxArgs),
    RemoveLst(RemoveLstIxArgs),
    AddLst(AddLstIxArgs),
    SetManager(SetManagerIxArgs),
    Initialize(InitializeIxArgs),
}

/// `s` is the canonical encoding of `ix`.
pub open spec fn program_ix_encodes(s: Seq<u8>, ix: FlatFeeProgramIx) -> bool {
    match ix {
        FlatFeeProgramIx::PriceExactIn(a) => encodes_two_u64(
            s, PRICE_EXACT_IN_IX_DISCM, a.amount, a.sol_value,
        ),
        FlatFeeProgramIx::PriceExactOut(a) => encodes_two_u64(
            s, PRICE_EXACT_OUT_IX_DISCM, a.amount, a.sol_value,
        ),
        FlatFeeProgramIx::PriceLpTokensToMint(a) => encodes_two_u64(
            s, PRICE_LP_TOKENS_TO_MINT_IX_DISCM, a.amount, a.sol_value,
        ),
        FlatFeeProgramIx::PriceLpTokensToRedeem(a) => encodes_two_u64(
            s, PRICE_LP_TOKENS_TO_REDEEM_IX_DISCM, a.amount, a.sol_value,
        ),
        FlatFeeProgramIx::SetLpWithdrawalFee(a) => encodes_one_u16(
            s, SET_LP_WITHDRAWAL_FEE_IX_DISCM, a.lp_withdrawal_fee_bps,
        ),
        FlatFeeProgramIx::SetLstFee(a) => encodes_two_i16(
            s, SET_LST_FEE_IX_DISCM, a.input_fee_bps, a.output_fee_bps,
        ),
        FlatFeeProgramIx::RemoveLst(a) => encodes_empty(s, REMOVE_LST_IX_DISCM),
        FlatFeeProgramIx::AddLst(a) => encodes_two_i16(
            s, ADD_LST_IX_DISCM, a.input_fee_bps, a.output_fee_bps,
        ),
        FlatFeeProgramIx::SetManager(a) => encodes_empty(s, SET_MANAGER_IX_DISCM),
        FlatFeeProgramIx::Initialize(a) => encodes_empty(s, INITIALIZE_IX_DISCM),
    }
}

/// Result of parsing a prefix of `s` as any flat-fee instruction, selected by
/// the leading discriminant byte.
pub open spec fn parse_program_ix(s: Seq<u8>) -> Result<FlatFeeProgramIx, ParseError> {
    if s.len() < 1 {
        Err(ParseError::UnexpectedEnd)
    } else if s[0] == PRICE_EXACT_IN_IX_DISCM {
        (match parse_two_u64(s, PRICE_EXACT_IN_IX_DISCM) {
                Ok(okv) => { let p: (u64, u64) = okv; Ok(FlatFeeProgramIx::PriceExactIn(
                PriceExactInIxArgs { amount: p.0, sol_value: p.1 },
            )) },
                Err(e) => Err(e),
            })
    } else if s[0] == PRICE_EXACT_OUT_IX_DISCM {
        (match parse_two_u64(s, PRICE_EXACT_OUT_IX_DISCM) {
                Ok(okv) => { let p: (u64, u64) = okv; Ok(FlatFeeProgramIx::PriceExactOut(
                PriceExactOutIxArgs { amount: p.0, sol_value: p.1 },
            )) },
                Err(e) => Err(e),
            })
    } else if s[0] == PRICE_LP_TOKENS_TO_MINT_IX_DISCM {
        (match parse_two_u64(s, PRICE_LP_TOKENS_TO_MINT_IX_DISCM) {
                Ok(okv) => { let p: (u64, u64) = okv; Ok(FlatFeeProgramIx::PriceLpTokensToMint(
                PriceLpTokensToMintIxArgs { amount: p.0, sol_value: p.1 },
            )) },
                Err(e) => Err(e),
            })
    } else if s[0] == PRICE_LP_TOKENS_TO_REDEEM_IX_DISCM {
        (match parse_two_u64(s, PRICE_LP_TOKENS_TO_REDEEM_IX_DISCM) {
                Ok(okv) => { let p: (u64, u64) = okv; Ok(FlatFeeProgramIx::PriceLpTokensToRedeem(
                PriceLpTokensToRedeemIxArgs { amount: p.0, sol_value: p.1 },
            )) },
                Err(e) => Err(e),
            })
    } else if s[0] == SET_LP_WITHDRAWAL_FEE_IX_DISCM {
        (match parse_one_u16(s, SET_LP_WITHDRAWAL_FEE_IX_DISCM) {
                Ok(okv) => { let a: u16 = okv; Ok(FlatFeeProgramIx::SetLpWithdrawalFee(
                SetLpWithdrawalFeeIxArgs { lp_withdrawal_fee_bps: a },
            )) },
                Err(e) => Err(e),
            })
    } else if s[0] == SET_LST_FEE_IX_DISCM {
        (match parse_two_i16(s, SET_LST_FEE_IX_DISCM) {
                Ok(okv) => { let p: (i16, i16) = okv; Ok(FlatFeeProgramIx::SetLstFee(
                SetLstFeeIxArgs { input_fee_bps: p.0, output_fee_bps: p.1 },
            )) },
                Err(e) => Err(e),
            })
    } else if s[0] == REMOVE_LST_IX_DISCM {
        Ok(FlatFeeProgramIx::RemoveLst(RemoveLstIxArgs {}))
    } else if s[0] == ADD_LST_IX_DISCM {
        (match parse_two_i16(s, ADD_LST_IX_DISCM) {
                Ok(okv) => { let p: (i16, i16) = okv; Ok(FlatFeeProgramIx::AddLst(
                AddLstIxArgs { input_fee_bps: p.0, output_fee_bps: p.1 },
            )) },
                Err(e) => Err(e),
            })
    } else if s[0] == SET_MANAGER_IX_DISCM {
        Ok(FlatFeeProgramIx::SetManager(SetManagerIxArgs {}))
    } else if s[0] == INITIALIZE_IX_DISCM {
        Ok(FlatFeeProgramIx::Initialize(InitializeIxArgs {}))
    } else {
        Err(ParseError::UnknownDiscm)
    }
}

impl FlatFeeProgramIx {
    /// The canonical wire form: the discriminant byte, then the payload.
    pub fn serialize(&self) -> (r: Vec<u8>)
        ensures
            program_ix_encodes(r@, *self),
    {
        match self {
            FlatFeeProgramIx::PriceExactIn(a) => serialize_two_u64(
                PRICE_EXACT_IN_IX_DISCM, a.amount, a.sol_value,
            ),
            FlatFeeProgramIx::PriceExactOut(a) => serialize_two_u64(
                PRICE_EXACT_OUT_IX_DISCM, a.amount, a.sol_value,
            ),
            FlatFeeProgramIx::PriceLpTokensToMint(a) => serialize_two_u64(
                PRICE_LP_TOKENS_TO_MINT_IX_DISCM, a.amount, a.sol_value,
            ),
            FlatFeeProgramIx::PriceLpTokensToRedeem(a) => serialize_two_u64(
                PRICE_LP_TOKENS_TO_REDEEM_IX_DISCM, a.amount, a.sol_value,
            ),
            FlatFeeProgramIx::SetLpWithdrawalFee(a) => serialize_one_u16(
                SET_LP_WITHDRAWAL_FEE_IX_DISCM, a.lp_withdrawal_fee_bps,
            ),
            FlatFeeProgramIx::SetLstFee(a) => serialize_two_i16(
                SET_LST_FEE_IX_DISCM, a.input_fee_bps, a.output_fee_bps,
            ),
            FlatFeeProgramIx::RemoveLst(_) => serialize_empty(REMOVE_LST_IX_DISCM),
            FlatFeeProgramIx::AddLst(a) => serialize_two_i16(
                ADD_LST_IX_DISCM, a.input_fee_bps, a.output_fee_bps,
            ),
            FlatFeeProgramIx::SetManager(_) => serialize_empty(SET_MANAGER_IX_DISCM),
            FlatFeeProgramIx::Initialize(_) => serialize_empty(INITIALIZE_IX_DISCM),
        }
    }

    /// Decodes the instruction a buffer starts with.
    pub fn deserialize(buf: &[u8]) -> (r: Result<Self, ParseError>)
        ensures
            r == parse_program_ix(buf@),
    {
        let n: usize = buf.len();
        if n < 1 {
            return Err(ParseError::UnexpectedEnd);
        }
        let discm: u8 = buf[0];
        if discm == PRICE_EXACT_IN_IX_DISCM {
            match deserialize_two_u64(buf, PRICE_EXACT_IN_IX_DISCM) {
                Ok(p) => Ok(
                    FlatFeeProgramIx::PriceExactIn(
                        PriceExactInIxArgs { amount: p.0, sol_value: p.1 },
                    ),
                ),
                Err(e) => Err(e),
            }
        } else if discm == PRICE_EXACT_OUT_IX_DISCM {
            match deserialize_two_u64(buf, PRICE_EXACT_OUT_IX_DISCM) {
                Ok(p) => Ok(
                    FlatFeeProgramIx::PriceExactOut(
                        PriceExactOutIxArgs { amount: p.0, sol_value: p.1 },
                    ),
                ),
                Err(e) => Err(e),
            }
        } else if discm == PRICE_LP_TOKENS_TO_MINT_IX_DISCM {
            match deserialize_two_u64(buf, PRICE_LP_TOKENS_TO_MINT_IX_DISCM) {
                Ok(p) => Ok(
                    FlatFeeProgramIx::PriceLpTokensToMint(
                        PriceLpTokensToMintIxArgs { amount: p.0, sol_value: p.1 },
                    ),
                ),
                Err(e) => Err(e),
            }
        } else if discm == PRICE_LP_TOKENS_TO_REDEEM_IX_DISCM {
            match deserialize_two_u64(buf, PRICE_LP_TOKENS_TO_REDEEM_IX_DISCM) {
                Ok(p) => Ok(
                    FlatFeeProgramIx::PriceLpTokensToRedeem(
                        PriceLpTokensToRedeemIxArgs { amount: p.0, sol_value: p.1 },
                    ),
                ),
                Err(e) => Err(e),
            }
        } else if discm == SET_LP_WITHDRAWAL_FEE_IX_DISCM {
            match deserialize_one_u16(buf, SET_LP_WITHDRAWAL_FEE_IX_DISCM) {
                Ok(a) => Ok(
                    FlatFeeProgramIx::SetLpWithdrawalFee(
                        SetLpWithdrawalFeeIxArgs { lp_withdrawal_fee_bps: a },
                    ),
                ),
                Err(e) => Err(e),
            }
        } else if discm == SET_LST_FEE_IX_DISCM {
            match deserialize_two_i16(buf, SET_LST_FEE_IX_DISCM) {
                Ok(p) => Ok(
                    FlatFeeProgramIx::SetLstFee(
                        SetLstFeeIxArgs { input_fee_bps: p.0, output_fee_bps: p.1 },
                    ),
                ),
                Err(e) => Err(e),
            }
        } else if discm == REMOVE_LST_IX_DISCM {
            Ok(FlatFeeProgramIx::RemoveLst(RemoveLstIxArgs {}))
        } else if discm == ADD_LST_IX_DISCM {
            match deserialize_two_i16(buf, ADD_LST_IX_DISCM) {
                Ok(p) => Ok(
                    FlatFeeProgramIx::AddLst(
                        AddLstIxArgs { input_fee_bps: p.0, output_fee_bps: p.1 },
                    ),
                ),
                Err(e) => Err(e),
            }
        } else if discm == SET_MANAGER_IX_DISCM {
            Ok(FlatFeeProgramIx::SetManager(SetManagerIxArgs {}))
        } else if discm == INITIALIZE_IX_DISCM {
            Ok(FlatFeeProgramIx::Initialize(InitializeIxArgs {}))
        } else {
            Err(ParseError::UnknownDiscm)
        }
    }
}

/// Any byte sequence encoding an instruction decodes back to it: the wire
/// format loses nothing.
pub proof fn lemma_program_ix_round_trip(s: Seq<u8>, ix: FlatFeeProgramIx)
    requires
        program_ix_encodes(s, ix),
    ensures
        parse_program_ix(s) == Ok::<FlatFeeProgramIx, ParseError>(ix),
{
}

} // verus!
