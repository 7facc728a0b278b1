//! Account lists of the flat-fee program's instructions: the supplied
//! accounts, their expected addresses, and the two-pass verification (keys
//! first, then privileges) every instruction runs before touching state.

use vstd::prelude::*;

use crate::accounts::AccountView;
use crate::errors::PrivilegeError;
use crate::pubkey::Pubkey;

verus! {

/// The supplied accounts of a price_exact_in instruction.
#[derive(Clone, Copy, Debug, PartialEq, Eq, Structural)]
pub struct PriceExactInAccounts {
    pub input_lst_mint: AccountView,
    pub output_lst_mint: AccountView,
    pub input_fee_acc: AccountView,
    pub output_fee_acc: AccountView,
}

/// The expected addresses of those accounts.
#[derive(Clone, Copy, Debug, PartialEq, Eq, Structural)]
pub struct PriceExactInKeys {
    pub input_lst_mint: Pubkey,
    pub output_lst_mint: Pubkey,
    pub input_fee_acc: Pubkey,
    pub output_fee_acc: Pubkey,
}

impl PriceExactInAccounts {
    /// The addresses of the supplied accounts.
    pub fn to_keys(&self) -> (r: PriceExactInKeys)
        ensures
            r == price_exact_in_keys_of(*self),
    {
        PriceExactInKeys {
            input_lst_mint: self.input_lst_mint.key,
            output_lst_mint: self.output_lst_mint.key,
            input_fee_acc: self.input_fee_acc.key,
            output_fee_acc: self.output_fee_acc.key,
        }
    }
}

/// The addresses of the supplied accounts.
pub open spec fn price_exact_in_keys_of(a: PriceExactInAccounts) -> PriceExactInKeys {
    PriceExactInKeys {
        input_lst_mint: a.input_lst_mint.key,
        output_lst_mint: a.output_lst_mint.key,
        input_fee_acc: a.input_fee_acc.key,
        output_fee_acc: a.output_fee_acc.key,
    }
}

/// The first supplied/expected address pair that disagrees, if any.
pub open spec fn price_exact_in_keys_err(a: PriceExactInAccounts, k: PriceExactInKeys) -> Option<(Pubkey, Pubkey)> {
    if a.input_lst_mint.key != k.input_lst_mint {
        Some((a.input_lst_mint.key, k.input_lst_mint))
    } else if a.output_lst_mint.key != k.output_lst_mint {
        Some((a.output_lst_mint.key, k.output_lst_mint))
    } else if a.input_fee_acc.key != k.input_fee_acc {
        Some((a.input_fee_acc.key, k.input_fee_acc))
    } else if a.output_fee_acc.key != k.output_fee_acc {
        Some((a.output_fee_acc.key, k.output_fee_acc))
    } else {
        None
    }
}

/// Compares every supplied address against its expected value, failing
/// with the first `(actual, expected)` mismatch.
pub fn price_exact_in_verify_account_keys(
    accounts: &PriceExactInAccounts,
    keys: &PriceExactInKeys,
) -> (r: Result<(), (Pubkey, Pubkey)>)
    ensures
        match price_exact_in_keys_err(*accounts, *keys) {
            Some(p) => r == Err::<(), (Pubkey, Pubkey)>(p),
            None => r is Ok,
        },
{
    if accounts.input_lst_mint.key != keys.input_lst_mint {
        return Err((accounts.input_lst_mint.key, keys.input_lst_mint));
    }
    if accounts.output_lst_mint.key != keys.output_lst_mint {
        return Err((accounts.output_lst_mint.key, keys.output_lst_mint));
    }
    if accounts.input_fee_acc.key != keys.input_fee_acc {
        return Err((accounts.input_fee_acc.key, keys.input_fee_acc));
    }
    if accounts.output_fee_acc.key != keys.output_fee_acc {
        return Err((accounts.output_fee_acc.key, keys.output_fee_acc));
    }
    Ok(())
}

/// This instruction demands no signer or writable privileges.
pub open spec fn price_exact_in_privileges_err(a: PriceExactInAccounts) -> Option<PrivilegeError> {
    None
}

/// This instruction demands no signer or writable privileges.
pub fn price_exact_in_verify_account_privileges(accounts: &PriceExactInAccounts) -> (r: Result<(), PrivilegeError>)
    ensures
        r is Ok,
{
    Ok(())
}

/// The supplied accounts of a price_exact_out instruction.
#[derive(Clone, Copy, Debug, PartialEq, Eq, Structural)]
pub struct PriceExactOutAccounts {
    pub input_lst_mint: AccountView,
    pub output_lst_mint: AccountView,
    pub input_fee_acc: AccountView,
    pub output_fee_acc: AccountView,
}

/// The expected addresses of those accounts.
#[derive(Clone, Copy, Debug, PartialEq, Eq, Structural)]
pub struct PriceExactOutKeys {
    pub input_lst_mint: Pubkey,
    pub output_lst_mint: Pubkey,
    pub input_fee_acc: Pubkey,
    pub output_fee_acc: Pubkey,
}

impl PriceExactOutAccounts {
    /// The addresses of the supplied accounts.
    pub fn to_keys(&self) -> (r: PriceExactOutKeys)
        ensures
            r == price_exact_out_keys_of(*self),
    {
        PriceExactOutKeys {
            input_lst_mint: self.input_lst_mint.key,
            output_lst_mint: self.output_lst_mint.key,
            input_fee_acc: self.input_fee_acc.key,
            output_fee_acc: self.output_fee_acc.key,
        }
    }
}

/// The addresses of the supplied accounts.
pub open spec fn price_exact_out_keys_of(a: PriceExactOutAccounts) -> PriceExactOutKeys {
    PriceExactOutKeys {
        input_lst_mint: a.input_lst_mint.key,
        output_lst_mint: a.output_lst_mint.key,
        input_fee_acc: a.input_fee_acc.key,
        output_fee_acc: a.output_fee_acc.key,
    }
}

/// The first supplied/expected address pair that disagrees, if any.
pub open spec fn price_exact_out_keys_err(a: PriceExactOutAccounts, k: PriceExactOutKeys) -> Option<(Pubkey, Pubkey)> {
    if a.input_lst_mint.key != k.input_lst_mint {
        Some((a.input_lst_mint.key, k.input_lst_mint))
    } else if a.output_lst_mint.key != k.output_lst_mint {
        Some((a.output_lst_mint.key, k.output_lst_mint))
    } else if a.input_fee_acc.key != k.input_fee_acc {
        Some((a.input_fee_acc.key, k.input_fee_acc))
    } else if a.output_fee_acc.key != k.output_fee_acc {
        Some((a.output_fee_acc.key, k.output_fee_acc))
    } else {
        None
    }
}

/// Compares every supplied address against its expected value, failing
/// with the first `(actual, expected)` mismatch.
pub fn price_exact_out_verify_account_keys(
    accounts: &PriceExactOutAccounts,
    keys: &PriceExactOutKeys,
) -> (r: Result<(), (Pubkey, Pubkey)>)
    ensures
        match price_exact_out_keys_err(*accounts, *keys) {
            Some(p) => r == Err::<(), (Pubkey, Pubkey)>(p),
            None => r is Ok,
        },
{
    if accounts.input_lst_mint.key != keys.input_lst_mint {
        return Err((accounts.input_lst_mint.key, keys.input_lst_mint));
    }
    if accounts.output_lst_mint.key != keys.output_lst_mint {
        return Err((accounts.output_lst_mint.key, keys.output_lst_mint));
    }
    if accounts.input_fee_acc.key != keys.input_fee_acc {
        return Err((accounts.input_fee_acc.key, keys.input_fee_acc));
    }
    if accounts.output_fee_acc.key != keys.output_fee_acc {
        return Err((accounts.output_fee_acc.key, keys.output_fee_acc));
    }
    Ok(())
}

/// This instruction demands no signer or writable privileges.
pub open spec fn price_exact_out_privileges_err(a: PriceExactOutAccounts) -> Option<PrivilegeError> {
    None
}

/// This instruction demands no signer or writable privileges.
pub fn price_exact_out_verify_account_privileges(accounts: &PriceExactOutAccounts) -> (r: Result<(), PrivilegeError>)
    ensures
        r is Ok,
{
    Ok(())
}

/// The supplied accounts of a price_lp_tokens_to_mint instruction.
#[derive(Clone, Copy, Debug, PartialEq, Eq, Structural)]
pub struct PriceLpTokensToMintAccounts {
    pub input_lst_mint: AccountView,
}

/// The expected addresses of those accounts.
#[derive(Clone, Copy, Debug, PartialEq, Eq, Structural)]
pub struct PriceLpTokensToMintKeys {
    pub input_lst_mint: Pubkey,
}

impl PriceLpTokensToMintAccounts {
    /// The addresses of the supplied accounts.
    pub fn to_keys(&self) -> (r: PriceLpTokensToMintKeys)
        ensures
            r == price_lp_tokens_to_mint_keys_of(*self),
    {
        PriceLpTokensToMintKeys {
            input_lst_mint: self.input_lst_mint.key,
        }
    }
}

/// The addresses of the supplied accounts.
pub open spec fn price_lp_tokens_to_mint_keys_of(a: PriceLpTokensToMintAccounts) -> PriceLpTokensToMintKeys {
    PriceLpTokensToMintKeys {
        input_lst_mint: a.input_lst_mint.key,
    }
}

/// The first supplied/expected address pair that disagrees, if any.
pub open spec fn price_lp_tokens_to_mint_keys_err(a: PriceLpTokensToMintAccounts, k: PriceLpTokensToMintKeys) -> Option<(Pubkey, Pubkey)> {
    if a.input_lst_mint.key != k.input_lst_mint {
        Some((a.input_lst_mint.key, k.input_lst_mint))
    } else {
        None
    }
}

/// Compares every supplied address against its expected value, failing
/// with the first `(actual, expected)` mismatch.
pub fn price_lp_tokens_to_mint_verify_account_keys(
    accounts: &PriceLpTokensToMintAccounts,
    keys: &PriceLpTokensToMintKeys,
) -> (r: Result<(), (Pubkey, Pubkey)>)
    ensures
        match price_lp_tokens_to_mint_keys_err(*accounts, *keys) {
            Some(p) => r == Err::<(), (Pubkey, Pubkey)>(p),
            None => r is Ok,
        },
{
    if accounts.input_lst_mint.key != keys.input_lst_mint {
        return Err((accounts.input_lst_mint.key, keys.input_lst_mint));
    }
    Ok(())
}

/// This instruction demands no signer or writable privileges.
pub open spec fn price_lp_tokens_to_mint_privileges_err(a: PriceLpTokensToMintAccounts) -> Option<PrivilegeError> {
    None
}

/// This instruction demands no signer or writable privileges.
pub fn price_lp_tokens_to_mint_verify_account_privileges(accounts: &PriceLpTokensToMintAccounts) -> (r: Result<(), PrivilegeError>)
    ensures
        r is Ok,
{
    Ok(())
}

/// The supplied accounts of a price_lp_tokens_to_redeem instruction.
#[derive(Clone, Copy, Debug, PartialEq, Eq, Structural)]
pub struct PriceLpTokensToRedeemAccounts {
    pub output_lst_mint: AccountView,
    pub state: AccountView,
}

/// The expected addresses of those accounts.
#[derive(Clone, Copy, Debug, PartialEq, Eq, Structural)]
pub struct PriceLpTokensToRedeemKeys {
    pub output_lst_mint: Pubkey,
    pub state: Pubkey,
}

impl PriceLpTokensToRedeemAccounts {
    /// The addresses of the supplied accounts.
    pub fn to_keys(&self) -> (r: PriceLpTokensToRedeemKeys)
        ensures
            r == price_lp_tokens_to_redeem_keys_of(*self),
    {
        PriceLpTokensToRedeemKeys {
            output_lst_mint: self.output_lst_mint.key,
            state: self.state.key,
        }
    }
}

/// The addresses of the supplied accounts.
pub open spec fn price_lp_tokens_to_redeem_keys_of(a: PriceLpTokensToRedeemAccounts) -> PriceLpTokensToRedeemKeys {
    PriceLpTokensToRedeemKeys {
        output_lst_mint: a.output_lst_mint.key,
        state: a.state.key,
    }
}

/// The first supplied/expected address pair that disagrees, if any.
pub open spec fn price_lp_tokens_to_redeem_keys_err(a: PriceLpTokensToRedeemAccounts, k: PriceLpTokensToRedeemKeys) -> Option<(Pubkey, Pubkey)> {
    if a.output_lst_mint.key != k.output_lst_mint {
        Some((a.output_lst_mint.key, k.output_lst_mint))
    } else if a.state.key != k.state {
        Some((a.state.key, k.state))
    } else {
        None
    }
}

/// Compares every supplied address against its expected value, failing
/// with the first `(actual, expected)` mismatch.
pub fn price_lp_tokens_to_redeem_verify_account_keys(
    accounts: &PriceLpTokensToRedeemAccounts,
    keys: &PriceLpTokensToRedeemKeys,
) -> (r: Result<(), (Pubkey, Pubkey)>)
    ensures
        match price_lp_tokens_to_redeem_keys_err(*accounts, *keys) {
            Some(p) => r == Err::<(), (Pubkey, Pubkey)>(p),
            None => r is Ok,
        },
{
    if accounts.output_lst_mint.key != keys.output_lst_mint {
        return Err((accounts.output_lst_mint.key, keys.output_lst_mint));
    }
    if accounts.state.key != keys.state {
        return Err((accounts.state.key, keys.state));
    }
    Ok(())
}

/// This instruction demands no signer or writable privileges.
pub open spec fn price_lp_tokens_to_redeem_privileges_err(a: PriceLpTokensToRedeemAccounts) -> Option<PrivilegeError> {
    None
}

/// This instruction demands no signer or writable privileges.
pub fn price_lp_tokens_to_redeem_verify_account_privileges(accounts: &PriceLpTokensToRedeemAccounts) -> (r: Result<(), PrivilegeError>)
    ensures
        r is Ok,
{
    Ok(())
}

/// The supplied accounts of a set_lp_withdrawal_fee instruction.
#[derive(Clone, Copy, Debug, PartialEq, Eq, Structural)]
pub struct SetLpWithdrawalFeeAccounts {
    pub manager: AccountView,
    pub state: AccountView,
}

/// The expected addresses of those accounts.
#[derive(Clone, Copy, Debug, PartialEq, Eq, Structural)]
pub struct SetLpWithdrawalFeeKeys {
    pub manager: Pubkey,
    pub state: Pubkey,
}

impl SetLpWithdrawalFeeAccounts {
    /// The addresses of the supplied accounts.
    pub fn to_keys(&self) -> (r: SetLpWithdrawalFeeKeys)
        ensures
            r == set_lp_withdrawal_fee_keys_of(*self),
    {
        SetLpWithdrawalFeeKeys {
            manager: self.manager.key,
            state: self.state.key,
        }
    }
}

/// The addresses of the supplied accounts.
pub open spec fn set_lp_withdrawal_fee_keys_of(a: SetLpWithdrawalFeeAccounts) -> SetLpWithdrawalFeeKeys {
    SetLpWithdrawalFeeKeys {
        manager: a.manager.key,
        state: a.state.key,
    }
}

/// The first supplied/expected address pair that disagrees, if any.
pub open spec fn set_lp_withdrawal_fee_keys_err(a: SetLpWithdrawalFeeAccounts, k: SetLpWithdrawalFeeKeys) -> Option<(Pubkey, Pubkey)> {
    if a.manager.key != k.manager {
        Some((a.manager.key, k.manager))
    } else if a.state.key != k.state {
        Some((a.state.key, k.state))
    } else {
        None
    }
}

/// Compares every supplied address against its expected value, failing
/// with the first `(actual, expected)` mismatch.
pub fn set_lp_withdrawal_fee_verify_account_keys(
    accounts: &SetLpWithdrawalFeeAccounts,
    keys: &SetLpWithdrawalFeeKeys,
) -> (r: Result<(), (Pubkey, Pubkey)>)
    ensures
        match set_lp_withdrawal_fee_keys_err(*accounts, *keys) {
            Some(p) => r == Err::<(), (Pubkey, Pubkey)>(p),
            None => r is Ok,
        },
{
    if accounts.manager.key != keys.manager {
        return Err((accounts.manager.key, keys.manager));
    }
    if accounts.state.key != keys.state {
        return Err((accounts.state.key, keys.state));
    }
    Ok(())
}

/// The first missing privilege, if any.
pub open spec fn set_lp_withdrawal_fee_privileges_err(a: SetLpWithdrawalFeeAccounts) -> Option<PrivilegeError> {
    if !a.state.is_writable {
        Some(PrivilegeError::NotWritable(a.state.key))
    } else if !a.manager.is_signer {
        Some(PrivilegeError::NotSigner(a.manager.key))
    } else {
        None
    }
}

/// Verifies writable and signer privileges, failing with the first missing
/// one.
pub fn set_lp_withdrawal_fee_verify_account_privileges(accounts: &SetLpWithdrawalFeeAccounts) -> (r: Result<(), PrivilegeError>)
    ensures
        match set_lp_withdrawal_fee_privileges_err(*accounts) {
            Some(e) => r == Err::<(), PrivilegeError>(e),
            None => r is Ok,
        },
{
    if !accounts.state.is_writable {
        return Err(PrivilegeError::NotWritable(accounts.state.key));
    }
    if !accounts.manager.is_signer {
        return Err(PrivilegeError::NotSigner(accounts.manager.key));
    }
    Ok(())
}

/// The supplied accounts of a set_lst_fee instruction.
#[derive(Clone, Copy, Debug, PartialEq, Eq, Structural)]
pub struct SetLstFeeAccounts {
    pub manager: AccountView,
    pub fee_acc: AccountView,
    pub state: AccountView,
}

/// The expected addresses of those accounts.
#[derive(Clone, Copy, Debug, PartialEq, Eq, Structural)]
pub struct SetLstFeeKeys {
    pub manager: Pubkey,
    pub fee_acc: Pubkey,
    pub state: Pubkey,
}

impl SetLstFeeAccounts {
    /// The addresses of the supplied accounts.
    pub fn to_keys(&self) -> (r: SetLstFeeKeys)
        ensures
            r == set_lst_fee_keys_of(*self),
    {
        SetLstFeeKeys {
            manager: self.manager.key,
            fee_acc: self.fee_acc.key,
            state: self.state.key,
        }
    }
}

/// The addresses of the supplied accounts.
pub open spec fn set_lst_fee_keys_of(a: SetLstFeeAccounts) -> SetLstFeeKeys {
    SetLstFeeKeys {
        manager: a.manager.key,
        fee_acc: a.fee_acc.key,
        state: a.state.key,
    }
}

/// The first supplied/expected address pair that disagrees, if any.
pub open spec fn set_lst_fee_keys_err(a: SetLstFeeAccounts, k: SetLstFeeKeys) -> Option<(Pubkey, Pubkey)> {
    if a.manager.key != k.manager {
        Some((a.manager.key, k.manager))
    } else if a.fee_acc.key != k.fee_acc {
        Some((a.fee_acc.key, k.fee_acc))
    } else if a.state.key != k.state {
        Some((a.state.key, k.state))
    } else {
        None
    }
}

/// Compares every supplied address against its expected value, failing
/// with the first `(actual, expected)` mismatch.
pub fn set_lst_fee_verify_account_keys(
    accounts: &SetLstFeeAccounts,
    keys: &SetLstFeeKeys,
) -> (r: Result<(), (Pubkey, Pubkey)>)
    ensures
        match set_lst_fee_keys_err(*accounts, *keys) {
            Some(p) => r == Err::<(), (Pubkey, Pubkey)>(p),
            None => r is Ok,
        },
{
    if accounts.manager.key != keys.manager {
        return Err((accounts.manager.key, keys.manager));
    }
    if accounts.fee_acc.key != keys.fee_acc {
        return Err((accounts.fee_acc.key, keys.fee_acc));
    }
    if accounts.state.key != keys.state {
        return Err((accounts.state.key, keys.state));
    }
    Ok(())
}

/// The first missing privilege, if any.
pub open spec fn set_lst_fee_privileges_err(a: SetLstFeeAccounts) -> Option<PrivilegeError> {
    if !a.fee_acc.is_writable {
        Some(PrivilegeError::NotWritable(a.fee_acc.key))
    } else if !a.manager.is_signer {
        Some(PrivilegeError::NotSigner(a.manager.key))
    } else {
        None
    }
}

/// Verifies writable and signer privileges, failing with the first missing
/// one.
pub fn set_lst_fee_verify_account_privileges(accounts: &SetLstFeeAccounts) -> (r: Result<(), PrivilegeError>)
    ensures
        match set_lst_fee_privileges_err(*accounts) {
            Some(e) => r == Err::<(), PrivilegeError>(e),
            None => r is Ok,
        },
{
    if !accounts.fee_acc.is_writable {
        return Err(PrivilegeError::NotWritable(accounts.fee_acc.key));
    }
    if !accounts.manager.is_signer {
        return Err(PrivilegeError::NotSigner(accounts.manager.key));
    }
    Ok(())
}

/// The supplied accounts of a remove_lst instruction.
#[derive(Clone, Copy, Debug, PartialEq, Eq, Structural)]
pub struct RemoveLstAccounts {
    pub manager: AccountView,
    pub refund_rent_to: AccountView,
    pub fee_acc: AccountView,
    pub state: AccountView,
    pub system_program: AccountView,
}

/// The expected addresses of those accounts.
#[derive(Clone, Copy, Debug, PartialEq, Eq, Structural)]
pub struct RemoveLstKeys {
    pub manager: Pubkey,
    pub refund_rent_to: Pubkey,
    pub fee_acc: Pubkey,
    pub state: Pubkey,
    pub system_program: Pubkey,
}

impl RemoveLstAccounts {
    /// The addresses of the supplied accounts.
    pub fn to_keys(&self) -> (r: RemoveLstKeys)
        ensures
            r == remove_lst_keys_of(*self),
    {
        RemoveLstKeys {
            manager: self.manager.key,
            refund_rent_to: self.refund_rent_to.key,
            fee_acc: self.fee_acc.key,
            state: self.state.key,
            system_program: self.system_program.key,
        }
    }
}

/// The addresses of the supplied accounts.
pub open spec fn remove_lst_keys_of(a: RemoveLstAccounts) -> RemoveLstKeys {
    RemoveLstKeys {
        manager: a.manager.key,
        refund_rent_to: a.refund_rent_to.key,
        fee_acc: a.fee_acc.key,
        state: a.state.key,
        system_program: a.system_program.key,
    }
}

/// The first supplied/expected address pair that disagrees, if any.
pub open spec fn remove_lst_keys_err(a: RemoveLstAccounts, k: RemoveLstKeys) -> Option<(Pubkey, Pubkey)> {
    if a.manager.key != k.manager {
        Some((a.manager.key, k.manager))
    } else if a.refund_rent_to.key != k.refund_rent_to {
        Some((a.refund_rent_to.key, k.refund_rent_to))
    } else if a.fee_acc.key != k.fee_acc {
        Some((a.fee_acc.key, k.fee_acc))
    } else if a.state.key != k.state {
        Some((a.state.key, k.state))
    } else if a.system_program.key != k.system_program {
        Some((a.system_program.key, k.system_program))
    } else {
        None
    }
}

/// Compares every supplied address against its expected value, failing
/// with the first `(actual, expected)` mismatch.
pub fn remove_lst_verify_account_keys(
    accounts: &RemoveLstAccounts,
    keys: &RemoveLstKeys,
) -> (r: Result<(), (Pubkey, Pubkey)>)
    ensures
        match remove_lst_keys_err(*accounts, *keys) {
            Some(p) => r == Err::<(), (Pubkey, Pubkey)>(p),
            None => r is Ok,
        },
{
    if accounts.manager.key != keys.manager {
        return Err((accounts.manager.key, keys.manager));
    }
    if accounts.refund_rent_to.key != keys.refund_rent_to {
        return Err((accounts.refund_rent_to.key, keys.refund_rent_to));
    }
    if accounts.fee_acc.key != keys.fee_acc {
        return Err((accounts.fee_acc.key, keys.fee_acc));
    }
    if accounts.state.key != keys.state {
        return Err((accounts.state.key, keys.state));
    }
    if accounts.system_program.key != keys.system_program {
        return Err((accounts.system_program.key, keys.system_program));
    }
    Ok(())
}

/// The first missing privilege, if any.
pub open spec fn remove_lst_privileges_err(a: RemoveLstAccounts) -> Option<PrivilegeError> {
    if !a.refund_rent_to.is_writable {
        Some(PrivilegeError::NotWritable(a.refund_rent_to.key))
    } else if !a.fee_acc.is_writable {
        Some(PrivilegeError::NotWritable(a.fee_acc.key))
    } else if !a.manager.is_signer {
        Some(PrivilegeError::NotSigner(a.manager.key))
    } else if !a.refund_rent_to.is_signer {
        Some(PrivilegeError::NotSigner(a.refund_rent_to.key))
    } else {
        None
    }
}

/// Verifies writable and signer privileges, failing with the first missing
/// one.
pub fn remove_lst_verify_account_privileges(accounts: &RemoveLstAccounts) -> (r: Result<(), PrivilegeError>)
    ensures
        match remove_lst_privileges_err(*accounts) {
            Some(e) => r == Err::<(), PrivilegeError>(e),
            None => r is Ok,
        },
{
    if !accounts.refund_rent_to.is_writable {
        return Err(PrivilegeError::NotWritable(accounts.refund_rent_to.key));
    }
    if !accounts.fee_acc.is_writable {
        return Err(PrivilegeError::NotWritable(accounts.fee_acc.key));
    }
    if !accounts.manager.is_signer {
        return Err(PrivilegeError::NotSigner(accounts.manager.key));
    }
    if !accounts.refund_rent_to.is_signer {
        return Err(PrivilegeError::NotSigner(accounts.refund_rent_to.key));
    }
    Ok(())
}

/// The supplied accounts of a add_lst instruction.
#[derive(Clone, Copy, Debug, PartialEq, Eq, Structural)]
pub struct AddLstAccounts {
    pub manager: AccountView,
    pub payer: AccountView,
    pub fee_acc: AccountView,
    pub lst_mint: AccountView,
    pub state: AccountView,
    pub system_program: AccountView,
}

/// The expected addresses of those accounts.
#[derive(Clone, Copy, Debug, PartialEq, Eq, Structural)]
pub struct AddLstKeys {
    pub manager: Pubkey,
    pub payer: Pubkey,
    pub fee_acc: Pubkey,
    pub lst_mint: Pubkey,
    pub state: Pubkey,
    pub system_program: Pubkey,
}

impl AddLstAccounts {
    /// The addresses of the supplied accounts.
    pub fn to_keys(&self) -> (r: AddLstKeys)
        ensures
            r == add_lst_keys_of(*self),
    {
        AddLstKeys {
            manager: self.manager.key,
            payer: self.payer.key,
            fee_acc: self.fee_acc.key,
            lst_mint: self.lst_mint.key,
            state: self.state.key,
            system_program: self.system_program.key,
        }
    }
}

/// The addresses of the supplied accounts.
pub open spec fn add_lst_keys_of(a: AddLstAccounts) -> AddLstKeys {
    AddLstKeys {
        manager: a.manager.key,
        payer: a.payer.key,
        fee_acc: a.fee_acc.key,
        lst_mint: a.lst_mint.key,
        state: a.state.key,
        system_program: a.system_program.key,
    }
}

/// The first supplied/expected address pair that disagrees, if any.
pub open spec fn add_lst_keys_err(a: AddLstAccounts, k: AddLstKeys) -> Option<(Pubkey, Pubkey)> {
    if a.manager.key != k.manager {
        Some((a.manager.key, k.manager))
    } else if a.payer.key != k.payer {
        Some((a.payer.key, k.payer))
    } else if a.fee_acc.key != k.fee_acc {
        Some((a.fee_acc.key, k.fee_acc))
    } else if a.lst_mint.key != k.lst_mint {
        Some((a.lst_mint.key, k.lst_mint))
    } else if a.state.key != k.state {
        Some((a.state.key, k.state))
    } else if a.system_program.key != k.system_program {
        Some((a.system_program.key, k.system_program))
    } else {
        None
    }
}

/// Compares every supplied address against its expected value, failing
/// with the first `(actual, expected)` mismatch.
pub fn add_lst_verify_account_keys(
    accounts: &AddLstAccounts,
    keys: &AddLstKeys,
) -> (r: Result<(), (Pubkey, Pubkey)>)
    ensures
        match add_lst_keys_err(*accounts, *keys) {
            Some(p) => r == Err::<(), (Pubkey, Pubkey)>(p),
            None => r is Ok,
        },
{
    if accounts.manager.key != keys.manager {
        return Err((accounts.manager.key, keys.manager));
    }
    if accounts.payer.key != keys.payer {
        return Err((accounts.payer.key, keys.payer));
    }
    if accounts.fee_acc.key != keys.fee_acc {
        return Err((accounts.fee_acc.key, keys.fee_acc));
    }
    if accounts.lst_mint.key != keys.lst_mint {
        return Err((accounts.lst_mint.key, keys.lst_mint));
    }
    if accounts.state.key != keys.state {
        return Err((accounts.state.key, keys.state));
    }
    if accounts.system_program.key != keys.system_program {
        return Err((accounts.system_program.key, keys.system_program));
    }
    Ok(())
}

/// The first missing privilege, if any.
pub open spec fn add_lst_privileges_err(a: AddLstAccounts) -> Option<PrivilegeError> {
    if !a.payer.is_writable {
        Some(PrivilegeError::NotWritable(a.payer.key))
    } else if !a.fee_acc.is_writable {
        Some(PrivilegeError::NotWritable(a.fee_acc.key))
    } else if !a.manager.is_signer {
        Some(PrivilegeError::NotSigner(a.manager.key))
    } else if !a.payer.is_signer {
        Some(PrivilegeError::NotSigner(a.payer.key))
    } else {
        None
    }
}

/// Verifies writable and signer privileges, failing with the first missing
/// one.
pub fn add_lst_verify_account_privileges(accounts: &AddLstAccounts) -> (r: Result<(), PrivilegeError>)
    ensures
        match add_lst_privileges_err(*accounts) {
            Some(e) => r == Err::<(), PrivilegeError>(e),
            None => r is Ok,
        },
{
    if !accounts.payer.is_writable {
        return Err(PrivilegeError::NotWritable(accounts.payer.key));
    }
    if !accounts.fee_acc.is_writable {
        return Err(PrivilegeError::NotWritable(accounts.fee_acc.key));
    }
    if !accounts.manager.is_signer {
        return Err(PrivilegeError::NotSigner(accounts.manager.key));
    }
    if !accounts.payer.is_signer {
        return Err(PrivilegeError::NotSigner(accounts.payer.key));
    }
    Ok(())
}

/// The supplied accounts of a set_manager instruction.
#[derive(Clone, Copy, Debug, PartialEq, Eq, Structural)]
pub struct SetManagerAccounts {
    pub current_manager: AccountView,
    pub new_manager: AccountView,
    pub state: AccountView,
}

/// The expected addresses of those accounts.
#[derive(Clone, Copy, Debug, PartialEq, Eq, Structural)]
pub struct SetManagerKeys {
    pub current_manager: Pubkey,
    pub new_manager: Pubkey,
    pub state: Pubkey,
}

impl SetManagerAccounts {
    /// The addresses of the supplied accounts.
    pub fn to_keys(&self) -> (r: SetManagerKeys)
        ensures
            r == set_manager_keys_of(*self),
    {
        SetManagerKeys {
            current_manager: self.current_manager.key,
            new_manager: self.new_manager.key,
            state: self.state.key,
        }
    }
}

/// The addresses of the supplied accounts.
pub open spec fn set_manager_keys_of(a: SetManagerAccounts) -> SetManagerKeys {
    SetManagerKeys {
        current_manager: a.current_manager.key,
        new_manager: a.new_manager.key,
        state: a.state.key,
    }
}

/// The first supplied/expected address pair that disagrees, if any.
pub open spec fn set_manager_keys_err(a: SetManagerAccounts, k: SetManagerKeys) -> Option<(Pubkey, Pubkey)> {
    if a.current_manager.key != k.current_manager {
        Some((a.current_manager.key, k.current_manager))
    } else if a.new_manager.key != k.new_manager {
        Some((a.new_manager.key, k.new_manager))
    } else if a.state.key != k.state {
        Some((a.state.key, k.state))
    } else {
        None
    }
}

/// Compares every supplied address against its expected value, failing
/// with the first `(actual, expected)` mismatch.
pub fn set_manager_verify_account_keys(
    accounts: &SetManagerAccounts,
    keys: &SetManagerKeys,
) -> (r: Result<(), (Pubkey, Pubkey)>)
    ensures
        match set_manager_keys_err(*accounts, *keys) {
            Some(p) => r == Err::<(), (Pubkey, Pubkey)>(p),
            None => r is Ok,
        },
{
    if accounts.current_manager.key != keys.current_manager {
        return Err((accounts.current_manager.key, keys.current_manager));
    }
    if accounts.new_manager.key != keys.new_manager {
        return Err((accounts.new_manager.key, keys.new_manager));
    }
    if accounts.state.key != keys.state {
        return Err((accounts.state.key, keys.state));
    }
    Ok(())
}

/// The first missing privilege, if any.
pub open spec fn set_manager_privileges_err(a: SetManagerAccounts) -> Option<PrivilegeError> {
    if !a.state.is_writable {
        Some(PrivilegeError::NotWritable(a.state.key))
    } else if !a.current_manager.is_signer {
        Some(PrivilegeError::NotSigner(a.current_manager.key))
    } else {
        None
    }
}

/// Verifies writable and signer privileges, failing with the first missing
/// one.
pub fn set_manager_verify_account_privileges(accounts: &SetManagerAccounts) -> (r: Result<(), PrivilegeError>)
    ensures
        match set_manager_privileges_err(*accounts) {
            Some(e) => r == Err::<(), PrivilegeError>(e),
            None => r is Ok,
        },
{
    if !accounts.state.is_writable {
        return Err(PrivilegeError::NotWritable(accounts.state.key));
    }
    if !accounts.current_manager.is_signer {
        return Err(PrivilegeError::NotSigner(accounts.current_manager.key));
    }
    Ok(())
}

/// The supplied accounts of a initialize instruction.
#[derive(Clone, Copy, Debug, PartialEq, Eq, Structural)]
pub struct InitializeAccounts {
    pub payer: AccountView,
    pub state: AccountView,
    pub system_program: AccountView,
}

/// The expected addresses of those accounts.
#[derive(Clone, Copy, Debug, PartialEq, Eq, Structural)]
pub struct InitializeKeys {
    pub payer: Pubkey,
    pub state: Pubkey,
    pub system_program: Pubkey,
}

impl InitializeAccounts {
    /// The addresses of the supplied accounts.
    pub fn to_keys(&self) -> (r: InitializeKeys)
        ensures
            r == initialize_keys_of(*self),
    {
        InitializeKeys {
            payer: self.payer.key,
            state: self.state.key,
            system_program: self.system_program.key,
        }
    }
}

/// The addresses of the supplied accounts.
pub open spec fn initialize_keys_of(a: InitializeAccounts) -> InitializeKeys {
    InitializeKeys {
        payer: a.payer.key,
        state: a.state.key,
        system_program: a.system_program.key,
    }
}

/// The first supplied/expected address pair that disagrees, if any.
pub open spec fn initialize_keys_err(a: InitializeAccounts, k: InitializeKeys) -> Option<(Pubkey, Pubkey)> {
    if a.payer.key != k.payer {
        Some((a.payer.key, k.payer))
    } else if a.state.key != k.state {
        Some((a.state.key, k.state))
    } else if a.system_program.key != k.system_program {
        Some((a.system_program.key, k.system_program))
    } else {
        None
    }
}

/// Compares every supplied address against its expected value, failing
/// with the first `(actual, expected)` mismatch.
pub fn initialize_verify_account_keys(
    accounts: &InitializeAccounts,
    keys: &InitializeKeys,
) -> (r: Result<(), (Pubkey, Pubkey)>)
    ensures
        match initialize_keys_err(*accounts, *keys) {
            Some(p) => r == Err::<(), (Pubkey, Pubkey)>(p),
            None => r is Ok,
        },
{
    if accounts.payer.key != keys.payer {
        return Err((accounts.payer.key, keys.payer));
    }
    if accounts.state.key != keys.state {
        return Err((accounts.state.key, keys.state));
    }
    if accounts.system_program.key != keys.system_program {
        return Err((accounts.system_program.key, keys.system_program));
    }
    Ok(())
}

/// The first missing privilege, if any.
pub open spec fn initialize_privileges_err(a: InitializeAccounts) -> Option<PrivilegeError> {
    if !a.payer.is_writable {
        Some(PrivilegeError::NotWritable(a.payer.key))
    } else if !a.state.is_writable {
        Some(PrivilegeError::NotWritable(a.state.key))
    } else if !a.payer.is_signer {
        Some(PrivilegeError::NotSigner(a.payer.key))
    } else {
        None
    }
}

/// Verifies writable and signer privileges, failing with the first missing
/// one.
pub fn initialize_verify_account_privileges(accounts: &InitializeAccounts) -> (r: Result<(), PrivilegeError>)
    ensures
        match initialize_privileges_err(*accounts) {
            Some(e) => r == Err::<(), PrivilegeError>(e),
            None => r is Ok,
        },
{
    if !accounts.payer.is_writable {
        return Err(PrivilegeError::NotWritable(accounts.payer.key));
    }
    if !accounts.state.is_writable {
        return Err(PrivilegeError::NotWritable(accounts.state.key));
    }
    if !accounts.payer.is_signer {
        return Err(PrivilegeError::NotSigner(accounts.payer.key));
    }
    Ok(())
}

} // verus!
