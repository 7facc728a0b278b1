//! Wire format of the controller's rebalance instructions: one leading
//! discriminant byte followed by a fixed-layout little-endian argument
//! struct, and builders that assemble whole instructions.

use vstd::prelude::*;

use crate::accounts::{readonly_meta, signer_meta, writable_meta, writable_signer_meta,
    AccountMetaView, InstructionView};
use crate::bytes::{push_u32_le, push_u64_le, read_u32_le, read_u64_le, u32v, u64v};
use crate::controller::rebalance::{
    EndRebalanceKeys, StartRebalanceIxArgs, StartRebalanceKeys, END_REBALANCE_IX_DISCM,
    START_REBALANCE_IX_DISCM,
};
use crate::errors::ParseError;
use crate::pubkey::{controller_program_id, spec_controller_program_id};

verus! {

/// `s` is the canonical encoding of a start-rebalance instruction: the
/// discriminant, the source calculator-account count, the two indexes, and
/// the amount.
pub open spec fn encodes_start_rebalance(s: Seq<u8>, args: StartRebalanceIxArgs) -> bool {
    &&& s.len() == 18
    &&& s[0] == START_REBALANCE_IX_DISCM
    &&& s[1] == args.src_lst_calc_accs
    &&& u32v(s, 2) == args.src_lst_index
    &&& u32v(s, 6) == args.dst_lst_index
    &&& u64v(s, 10) == args.amount
}

/// Result of parsing a prefix of `s` as a start-rebalance instruction.
pub open spec fn parse_start_rebalance(s: Seq<u8>) -> Result<StartRebalanceIxArgs, ParseError> {
    if s.len() < 1 {
        Err(ParseError::UnexpectedEnd)
    } else if s[0] != START_REBALANCE_IX_DISCM {
        Err(ParseError::WrongDiscm)
    } else if s.len() < 18 {
        Err(ParseError::UnexpectedEnd)
    } else {
        Ok(
            StartRebalanceIxArgs {
                src_lst_calc_accs: s[1],
                src_lst_index: u32v(s, 2) as u32,
                dst_lst_index: u32v(s, 6) as u32,
                amount: u64v(s, 10) as u64,
            },
        )
    }
}

/// The start-rebalance instruction's data.
#[derive(Clone, Copy, Debug, PartialEq, Eq, Structural)]
pub struct StartRebalanceIxData(pub StartRebalanceIxArgs);

impl StartRebalanceIxData {
    pub fn serialize(&self) -> (r: Vec<u8>)
        ensures
            encodes_start_rebalance(r@, self.0),
    {
        let mut out: Vec<u8> = Vec::new();
        out.push(START_REBALANCE_IX_DISCM);
        out.push(self.0.src_lst_calc_accs);
        push_u32_le(&mut out, self.0.src_lst_index);
        push_u32_le(&mut out, self.0.dst_lst_index);
        push_u64_le(&mut out, self.0.amount);
        out
    }

    pub fn deserialize(buf: &[u8]) -> (r: Result<Self, ParseError>)
        ensures
            r == (match parse_start_rebalance(buf@) {
                Ok(args) => Ok(StartRebalanceIxData(args)),
                Err(e) => Err::<Self, ParseError>(e),
            }),
    {
        let n: usize = buf.len();
        if n < 1 {
            Err(ParseError::UnexpectedEnd)
        } else if buf[0] != START_REBALANCE_IX_DISCM {
            Err(ParseError::WrongDiscm)
        } else if n < 18 {
            Err(ParseError::UnexpectedEnd)
        } else {
            Ok(
                StartRebalanceIxData(
                    StartRebalanceIxArgs {
                        src_lst_calc_accs: buf[1],
                        src_lst_index: read_u32_le(buf, 2),
                        dst_lst_index: read_u32_le(buf, 6),
                        amount: read_u64_le(buf, 10),
                    },
                ),
            )
        }
    }
}

/// A byte sequence that encodes a start-rebalance instruction parses back
/// to exactly its arguments.
pub proof fn lemma_start_rebalance_round_trip(s: Seq<u8>, args: StartRebalanceIxArgs)
    requires
        encodes_start_rebalance(s, args),
    ensures
        parse_start_rebalance(s) == Ok::<StartRebalanceIxArgs, ParseError>(args),
{
}

/// The end-rebalance instruction's data: the discriminant byte alone.
#[derive(Clone, Copy, Debug, PartialEq, Eq, Structural)]
pub struct EndRebalanceIxData {}

impl EndRebalanceIxData {
    pub fn serialize(&self) -> (r: Vec<u8>)
        ensures
            r@ =~= seq![END_REBALANCE_IX_DISCM],
    {
        let mut out: Vec<u8> = Vec::new();
        out.push(END_REBALANCE_IX_DISCM);
        out
    }

    pub fn deserialize(buf: &[u8]) -> (r: Result<Self, ParseError>)
        ensures
            r is Ok <==> buf@.len() >= 1 && buf@[0] == END_REBALANCE_IX_DISCM,
            r matches Err(e) ==> e == (if buf@.len() < 1 {
                ParseError::UnexpectedEnd
            } else {
                ParseError::WrongDiscm
            }),
    {
        let n: usize = buf.len();
        if n < 1 {
            Err(ParseError::UnexpectedEnd)
        } else if buf[0] != END_REBALANCE_IX_DISCM {
            Err(ParseError::WrongDiscm)
        } else {
            Ok(EndRebalanceIxData {})
        }
    }
}

/// Assembles a start-rebalance instruction. Its trailing calculator
/// accounts (first the source's, then the destination's) are appended by
/// the caller, after the fixed accounts.
pub fn start_rebalance_ix(keys: StartRebalanceKeys, args: StartRebalanceIxArgs) -> (r:
    InstructionView)
    ensures
        r.program_id == spec_controller_program_id(),
        r.accounts@ =~= seq![
            (AccountMetaView { key: keys.payer, is_signer: true, is_writable: true }),
            (AccountMetaView { key: keys.withdraw_to, is_signer: false, is_writable: true }),
            (AccountMetaView { key: keys.lst_state_list, is_signer: false, is_writable: true }),
            (AccountMetaView { key: keys.pool_state, is_signer: false, is_writable: true }),
            (AccountMetaView { key: keys.src_lst_mint, is_signer: false, is_writable: false }),
            (AccountMetaView { key: keys.dst_lst_mint, is_signer: false, is_writable: false }),
            (AccountMetaView { key: keys.src_pool_reserves, is_signer: false, is_writable: true }),
            (AccountMetaView { key: keys.dst_pool_reserves, is_signer: false, is_writable: true }),
            (AccountMetaView {
                key: keys.src_lst_token_program,
                is_signer: false,
                is_writable: false,
            }),
            (AccountMetaView { key: keys.rebalance_record, is_signer: false, is_writable: true }),
            (AccountMetaView {
                key: keys.instructions_sysvar,
                is_signer: false,
                is_writable: false,
            }),
            (AccountMetaView { key: keys.system_program, is_signer: false, is_writable: false }),
        ],
        encodes_start_rebalance(r.data@, args),
{
    let mut accounts: Vec<AccountMetaView> = Vec::new();
    accounts.push(writable_signer_meta(keys.payer));
    accounts.push(writable_meta(keys.withdraw_to));
    accounts.push(writable_meta(keys.lst_state_list));
    accounts.push(writable_meta(keys.pool_state));
    accounts.push(readonly_meta(keys.src_lst_mint));
    accounts.push(readonly_meta(keys.dst_lst_mint));
    accounts.push(writable_meta(keys.src_pool_reserves));
    accounts.push(writable_meta(keys.dst_pool_reserves));
    accounts.push(readonly_meta(keys.src_lst_token_program));
    accounts.push(writable_meta(keys.rebalance_record));
    accounts.push(readonly_meta(keys.instructions_sysvar));
    accounts.push(readonly_meta(keys.system_program));
    let data = StartRebalanceIxData(args).serialize();
    InstructionView { program_id: controller_program_id(), accounts, data }
}

/// Assembles an end-rebalance instruction: the one whose presence later in
/// the transaction `start_rebalance` insists on.
pub fn end_rebalance_ix(keys: EndRebalanceKeys) -> (r: InstructionView)
    ensures
        r.program_id == spec_controller_program_id(),
        r.accounts@ =~= seq![
            (AccountMetaView { key: keys.pool_state, is_signer: false, is_writable: true }),
            (AccountMetaView { key: keys.lst_state_list, is_signer: false, is_writable: true }),
            (AccountMetaView { key: keys.rebalance_record, is_signer: false, is_writable: true }),
            (AccountMetaView { key: keys.dst_lst_mint, is_signer: false, is_writable: false }),
            (AccountMetaView { key: keys.dst_pool_reserves, is_signer: false, is_writable: true }),
        ],
        r.data@ =~= seq![END_REBALANCE_IX_DISCM],
        crate::controller::rebalance::spec_is_end_rebalance_ix(r),
{
    let mut accounts: Vec<AccountMetaView> = Vec::new();
    accounts.push(writable_meta(keys.pool_state));
    accounts.push(writable_meta(keys.lst_state_list));
    accounts.push(writable_meta(keys.rebalance_record));
    accounts.push(readonly_meta(keys.dst_lst_mint));
    accounts.push(writable_meta(keys.dst_pool_reserves));
    let data = EndRebalanceIxData {}.serialize();
    InstructionView { program_id: controller_program_id(), accounts, data }
}

} // verus!
