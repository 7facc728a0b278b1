//! Builders that assemble the flat-fee program's instructions: each yields
//! the program id, the instruction's fixed ordered account metas with their
//! read/write/signer requirements, and the canonically encoded data.

use vstd::prelude::*;

use crate::accounts::{
    readonly_meta, signer_meta, writable_meta, writable_signer_meta, AccountMetaView,
    InstructionView,
};
use crate::flat_fee::instructions::{
    encodes_empty, encodes_one_u16, encodes_two_i16, encodes_two_u64, AddLstIxArgs, AddLstIxData,
    InitializeIxArgs, InitializeIxData, PriceExactInIxArgs, PriceExactInIxData,
    PriceExactOutIxArgs, PriceExactOutIxData, PriceLpTokensToMintIxArgs, PriceLpTokensToMintIxData,
    PriceLpTokensToRedeemIxArgs, PriceLpTokensToRedeemIxData, RemoveLstIxArgs, RemoveLstIxData,
    SetLpWithdrawalFeeIxArgs, SetLpWithdrawalFeeIxData, SetLstFeeIxArgs, SetLstFeeIxData,
    SetManagerIxArgs, SetManagerIxData, ADD_LST_IX_DISCM, INITIALIZE_IX_DISCM,
    PRICE_EXACT_IN_IX_DISCM, PRICE_EXACT_OUT_IX_DISCM, PRICE_LP_TOKENS_TO_MINT_IX_DISCM,
    PRICE_LP_TOKENS_TO_REDEEM_IX_DISCM, REMOVE_LST_IX_DISCM, SET_LP_WITHDRAWAL_FEE_IX_DISCM,
    SET_LST_FEE_IX_DISCM, SET_MANAGER_IX_DISCM,
};
use crate::flat_fee::keys::{
    AddLstKeys, InitializeKeys, PriceExactInKeys, PriceExactOutKeys, PriceLpTokensToMintKeys,
    PriceLpTokensToRedeemKeys, RemoveLstKeys, SetLpWithdrawalFeeKeys, SetLstFeeKeys,
    SetManagerKeys,
};
use crate::pubkey::{flat_fee_program_id, spec_flat_fee_program_id};

verus! {

/// Assembles a price_exact_in instruction.
pub fn price_exact_in_ix(keys: PriceExactInKeys, args: PriceExactInIxArgs) -> (r: InstructionView)
    ensures
        r.program_id == spec_flat_fee_program_id(),
        r.accounts@ =~= seq![
            (AccountMetaView { key: keys.input_lst_mint, is_signer: false, is_writable: false }),
            (AccountMetaView { key: keys.output_lst_mint, is_signer: false, is_writable: false }),
            (AccountMetaView { key: keys.input_fee_acc, is_signer: false, is_writable: false }),
            (AccountMetaView { key: keys.output_fee_acc, is_signer: false, is_writable: false }),
        ],
        encodes_two_u64(r.data@, PRICE_EXACT_IN_IX_DISCM, args.amount, args.sol_value),
{
    let mut accounts: Vec<AccountMetaView> = Vec::new();
    accounts.push(readonly_meta(keys.input_lst_mint));
    accounts.push(readonly_meta(keys.output_lst_mint));
    accounts.push(readonly_meta(keys.input_fee_acc));
    accounts.push(readonly_meta(keys.output_fee_acc));
    let data = PriceExactInIxData(args).serialize();
    InstructionView { program_id: flat_fee_program_id(), accounts, data }
}

/// Assembles a price_exact_out instruction.
pub fn price_exact_out_ix(keys: PriceExactOutKeys, args: PriceExactOutIxArgs) -> (r: InstructionView)
    ensures
        r.program_id == spec_flat_fee_program_id(),
        r.accounts@ =~= seq![
            (AccountMetaView { key: keys.input_lst_mint, is_signer: false, is_writable: false }),
            (AccountMetaView { key: keys.output_lst_mint, is_signer: false, is_writable: false }),
            (AccountMetaView { key: keys.input_fee_acc, is_signer: false, is_writable: false }),
            (AccountMetaView { key: keys.output_fee_acc, is_signer: false, is_writable: false }),
        ],
        encodes_two_u64(r.data@, PRICE_EXACT_OUT_IX_DISCM, args.amount, args.sol_value),
{
    let mut accounts: Vec<AccountMetaView> = Vec::new();
    accounts.push(readonly_meta(keys.input_lst_mint));
    accounts.push(readonly_meta(keys.output_lst_mint));
    accounts.push(readonly_meta(keys.input_fee_acc));
    accounts.push(readonly_meta(keys.output_fee_acc));
    let data = PriceExactOutIxData(args).serialize();
    InstructionView { program_id: flat_fee_program_id(), accounts, data }
}

/// Assembles a price_lp_tokens_to_mint instruction.
pub fn price_lp_tokens_to_mint_ix(keys: PriceLpTokensToMintKeys, args: PriceLpTokensToMintIxArgs) -> (r: InstructionView)
    ensures
        r.program_id == spec_flat_fee_program_id(),
        r.accounts@ =~= seq![
            (AccountMetaView { key: keys.input_lst_mint, is_signer: false, is_writable: false }),
        ],
        encodes_two_u64(r.data@, PRICE_LP_TOKENS_TO_MINT_IX_DISCM, args.amount, args.sol_value),
{
    let mut accounts: Vec<AccountMetaView> = Vec::new();
    accounts.push(readonly_meta(keys.input_lst_mint));
    let data = PriceLpTokensToMintIxData(args).serialize();
    InstructionView { program_id: flat_fee_program_id(), accounts, data }
}

/// Assembles a price_lp_tokens_to_redeem instruction.
pub fn price_lp_tokens_to_redeem_ix(keys: PriceLpTokensToRedeemKeys, args: PriceLpTokensToRedeemIxArgs) -> (r: InstructionView)
    ensures
        r.program_id == spec_flat_fee_program_id(),
        r.accounts@ =~= seq![
            (AccountMetaView { key: keys.output_lst_mint, is_signer: false, is_writable: false }),
            (AccountMetaView { key: keys.state, is_signer: false, is_writable: false }),
        ],
        encodes_two_u64(r.data@, PRICE_LP_TOKENS_TO_REDEEM_IX_DISCM, args.amount, args.sol_value),
{
    let mut accounts: Vec<AccountMetaView> = Vec::new();
    accounts.push(readonly_meta(keys.output_lst_mint));
    accounts.push(readonly_meta(keys.state));
    let data = PriceLpTokensToRedeemIxData(args).serialize();
    InstructionView { program_id: flat_fee_program_id(), accounts, data }
}

/// Assembles a set_lp_withdrawal_fee instruction.
pub fn set_lp_withdrawal_fee_ix(keys: SetLpWithdrawalFeeKeys, args: SetLpWithdrawalFeeIxArgs) -> (r: InstructionView)
    ensures
        r.program_id == spec_flat_fee_program_id(),
        r.accounts@ =~= seq![
            (AccountMetaView { key: keys.manager, is_signer: true, is_writable: false }),
            (AccountMetaView { key: keys.state, is_signer: false, is_writable: true }),
        ],
        encodes_one_u16(r.data@, SET_LP_WITHDRAWAL_FEE_IX_DISCM, args.lp_withdrawal_fee_bps),
{
    let mut accounts: Vec<AccountMetaView> = Vec::new();
    accounts.push(signer_meta(keys.manager));
    accounts.push(writable_meta(keys.state));
    let data = SetLpWithdrawalFeeIxData(args).serialize();
    InstructionView { program_id: flat_fee_program_id(), accounts, data }
}

/// Assembles a set_lst_fee instruction.
pub fn set_lst_fee_ix(keys: SetLstFeeKeys, args: SetLstFeeIxArgs) -> (r: InstructionView)
    ensures
        r.program_id == spec_flat_fee_program_id(),
        r.accounts@ =~= seq![
            (AccountMetaView { key: keys.manager, is_signer: true, is_writable: false }),
            (AccountMetaView { key: keys.fee_acc, is_signer: false, is_writable: true }),
            (AccountMetaView { key: keys.state, is_signer: false, is_writable: false }),
        ],
        encodes_two_i16(r.data@, SET_LST_FEE_IX_DISCM, args.input_fee_bps, args.output_fee_bps),
{
    let mut accounts: Vec<AccountMetaView> = Vec::new();
    accounts.push(signer_meta(keys.manager));
    accounts.push(writable_meta(keys.fee_acc));
    accounts.push(readonly_meta(keys.state));
    let data = SetLstFeeIxData(args).serialize();
    InstructionView { program_id: flat_fee_program_id(), accounts, data }
}

/// Assembles a remove_lst instruction.
pub fn remove_lst_ix(keys: RemoveLstKeys, args: RemoveLstIxArgs) -> (r: InstructionView)
    ensures
        r.program_id == spec_flat_fee_program_id(),
        r.accounts@ =~= seq![
            (AccountMetaView { key: keys.manager, is_signer: true, is_writable: false }),
            (AccountMetaView { key: keys.refund_rent_to, is_signer: true, is_writable: true }),
            (AccountMetaView { key: keys.fee_acc, is_signer: false, is_writable: true }),
            (AccountMetaView { key: keys.state, is_signer: false, is_writable: false }),
            (AccountMetaView { key: keys.system_program, is_signer: false, is_writable: false }),
        ],
        encodes_empty(r.data@, REMOVE_LST_IX_DISCM),
{
    let mut accounts: Vec<AccountMetaView> = Vec::new();
    accounts.push(signer_meta(keys.manager));
    accounts.push(writable_signer_meta(keys.refund_rent_to));
    accounts.push(writable_meta(keys.fee_acc));
    accounts.push(readonly_meta(keys.state));
    accounts.push(readonly_meta(keys.system_program));
    let data = RemoveLstIxData(args).serialize();
    InstructionView { program_id: flat_fee_program_id(), accounts, data }
}

/// Assembles a add_lst instruction.
pub fn add_lst_ix(keys: AddLstKeys, args: AddLstIxArgs) -> (r: InstructionView)
    ensures
        r.program_id == spec_flat_fee_program_id(),
        r.accounts@ =~= seq![
            (AccountMetaView { key: keys.manager, is_signer: true, is_writable: false }),
            (AccountMetaView { key: keys.payer, is_signer: true, is_writable: true }),
            (AccountMetaView { key: keys.fee_acc, is_signer: false, is_writable: true }),
            (AccountMetaView { key: keys.lst_mint, is_signer: false, is_writable: false }),
            (AccountMetaView { key: keys.state, is_signer: false, is_writable: false }),
            (AccountMetaView { key: keys.system_program, is_signer: false, is_writable: false }),
        ],
        encodes_two_i16(r.data@, ADD_LST_IX_DISCM, args.input_fee_bps, args.output_fee_bps),
{
    let mut accounts: Vec<AccountMetaView> = Vec::new();
    accounts.push(signer_meta(keys.manager));
    accounts.push(writable_signer_meta(keys.payer));
    accounts.push(writable_meta(keys.fee_acc));
    accounts.push(readonly_meta(keys.lst_mint));
    accounts.push(readonly_meta(keys.state));
    accounts.push(readonly_meta(keys.system_program));
    let data = AddLstIxData(args).serialize();
    InstructionView { program_id: flat_fee_program_id(), accounts, data }
}

/// Assembles a set_manager instruction.
pub fn set_manager_ix(keys: SetManagerKeys, args: SetManagerIxArgs) -> (r: InstructionView)
    ensures
        r.program_id == spec_flat_fee_program_id(),
        r.accounts@ =~= seq![
            (AccountMetaView { key: keys.current_manager, is_signer: true, is_writable: false }),
            (AccountMetaView { key: keys.new_manager, is_signer: false, is_writable: false }),
            (AccountMetaView { key: keys.state, is_signer: false, is_writable: true }),
        ],
        encodes_empty(r.data@, SET_MANAGER_IX_DISCM),
{
    let mut accounts: Vec<AccountMetaView> = Vec::new();
    accounts.push(signer_meta(keys.current_manager));
    accounts.push(readonly_meta(keys.new_manager));
    accounts.push(writable_meta(keys.state));
    let data = SetManagerIxData(args).serialize();
    InstructionView { program_id: flat_fee_program_id(), accounts, data }
}

/// Assembles a initialize instruction.
pub fn initialize_ix(keys: InitializeKeys, args: InitializeIxArgs) -> (r: InstructionView)
    ensures
        r.program_id == spec_flat_fee_program_id(),
        r.accounts@ =~= seq![
            (AccountMetaView { key: keys.payer, is_signer: true, is_writable: true }),
            (AccountMetaView { key: keys.state, is_signer: false, is_writable: true }),
            (AccountMetaView { key: keys.system_program, is_signer: false, is_writable: false }),
        ],
        encodes_empty(r.data@, INITIALIZE_IX_DISCM),
{
    let mut accounts: Vec<AccountMetaView> = Vec::new();
    accounts.push(writable_signer_meta(keys.payer));
    accounts.push(writable_meta(keys.state));
    accounts.push(readonly_meta(keys.system_program));
    let data = InitializeIxData(args).serialize();
    InstructionView { program_id: flat_fee_program_id(), accounts, data }
}

} // verus!
