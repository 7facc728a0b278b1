//! Flat-fee pricing tests: account verification against derived fee
//! accounts, the exact-in quote, and the instruction builders.

use s_controller::accounts::AccountView;
use s_controller::errors::{ParseError, ProgError};
use s_controller::flat_fee::builders::{price_exact_in_ix, set_manager_ix};
use s_controller::flat_fee::instructions::{PriceExactInIxArgs, SetManagerIxArgs};
use s_controller::flat_fee::keys::{
    price_exact_in_verify_account_keys, set_manager_verify_account_privileges,
    PriceExactInAccounts, PriceExactInKeys, SetManagerAccounts, SetManagerKeys,
};
use s_controller::flat_fee::processor::{
    process_price_exact_in_unchecked, verify_price_exact_in, PriceExactInFreeArgs,
};
use s_controller::flat_fee::state::FeeAccount;
use s_controller::pubkey::{flat_fee_program_id, Pubkey};

fn in_mint() -> Pubkey {
    Pubkey::new(0x1a, 0, 0, 0)
}

fn out_mint() -> Pubkey {
    Pubkey::new(0x1b, 0, 0, 0)
}

fn resolved_accounts() -> PriceExactInAccounts {
    let keys = PriceExactInFreeArgs { input_lst_mint: in_mint(), output_lst_mint: out_mint() }
        .resolve()
        .unwrap();
    let ro = |key: Pubkey| AccountView { key, is_signer: false, is_writable: false };
    PriceExactInAccounts {
        input_lst_mint: ro(keys.input_lst_mint),
        output_lst_mint: ro(keys.output_lst_mint),
        input_fee_acc: ro(keys.input_fee_acc),
        output_fee_acc: ro(keys.output_fee_acc),
    }
}

#[test]
fn verify_price_exact_in_accepts_derived_fee_accounts() {
    assert!(verify_price_exact_in(&resolved_accounts()).is_ok());
}

#[test]
fn verify_price_exact_in_rejects_substituted_fee_account() {
    let mut accounts = resolved_accounts();
    let expected = accounts.input_fee_acc.key;
    let bogus = Pubkey::new(0xbad, 0, 0, 1);
    accounts.input_fee_acc.key = bogus;
    assert_eq!(
        verify_price_exact_in(&accounts),
        Err(ProgError::WrongAccount(bogus, expected))
    );
}

#[test]
fn fee_accounts_of_different_mints_differ() {
    let a = PriceExactInFreeArgs { input_lst_mint: in_mint(), output_lst_mint: out_mint() }
        .resolve()
        .unwrap();
    assert_ne!(a.input_fee_acc, a.output_fee_acc);
    // Resolution is deterministic.
    let b = PriceExactInFreeArgs { input_lst_mint: in_mint(), output_lst_mint: out_mint() }
        .resolve()
        .unwrap();
    assert_eq!(a, b);
}

#[test]
fn price_exact_in_passes_sol_value_through() {
    let fee = FeeAccount { input_fee_bps: 10, output_fee_bps: 20, bump: 255 }.to_vec();
    let r = process_price_exact_in_unchecked(&fee, &fee, 1_000, 987_654);
    assert_eq!(r, Ok(987_654));
}

#[test]
fn price_exact_in_rejects_malformed_fee_account() {
    let fee = FeeAccount { input_fee_bps: 10, output_fee_bps: 20, bump: 255 }.to_vec();
    let r = process_price_exact_in_unchecked(&fee[..5], &fee, 1_000, 987_654);
    assert_eq!(r, Err(ProgError::Parse(ParseError::UnexpectedEnd)));
}

#[test]
fn price_exact_in_ix_builder() {
    let keys = PriceExactInKeys {
        input_lst_mint: in_mint(),
        output_lst_mint: out_mint(),
        input_fee_acc: Pubkey::new(3, 0, 0, 0),
        output_fee_acc: Pubkey::new(4, 0, 0, 0),
    };
    let ix = price_exact_in_ix(keys, PriceExactInIxArgs { amount: 5, sol_value: 6 });
    assert_eq!(ix.program_id, flat_fee_program_id());
    assert_eq!(ix.accounts.len(), 4);
    assert_eq!(ix.accounts[0].key, in_mint());
    assert!(!ix.accounts[0].is_writable && !ix.accounts[0].is_signer);
    assert_eq!(
        ix.data,
        vec![0u8, 5, 0, 0, 0, 0, 0, 0, 0, 6, 0, 0, 0, 0, 0, 0, 0]
    );
}

#[test]
fn set_manager_ix_builder_privileges() {
    let keys = SetManagerKeys {
        current_manager: Pubkey::new(1, 0, 0, 0),
        new_manager: Pubkey::new(2, 0, 0, 0),
        state: Pubkey::new(3, 0, 0, 0),
    };
    let ix = set_manager_ix(keys, SetManagerIxArgs {});
    assert_eq!(ix.data, vec![254u8]);
    assert!(ix.accounts[0].is_signer);
    assert!(!ix.accounts[0].is_writable);
    assert!(ix.accounts[2].is_writable);
}

#[test]
fn verify_account_keys_reports_first_mismatch() {
    let keys = PriceExactInKeys {
        input_lst_mint: Pubkey::new(1, 0, 0, 0),
        output_lst_mint: Pubkey::new(2, 0, 0, 0),
        input_fee_acc: Pubkey::new(3, 0, 0, 0),
        output_fee_acc: Pubkey::new(4, 0, 0, 0),
    };
    let ro = |key: Pubkey| AccountView { key, is_signer: false, is_writable: false };
    let accounts = PriceExactInAccounts {
        input_lst_mint: ro(Pubkey::new(9, 0, 0, 0)),
        output_lst_mint: ro(Pubkey::new(8, 0, 0, 0)),
        input_fee_acc: ro(keys.input_fee_acc),
        output_fee_acc: ro(keys.output_fee_acc),
    };
    assert_eq!(
        price_exact_in_verify_account_keys(&accounts, &keys),
        Err((Pubkey::new(9, 0, 0, 0), Pubkey::new(1, 0, 0, 0)))
    );
}

#[test]
fn set_manager_privileges_checked_in_order() {
    let av = |key: Pubkey, s: bool, w: bool| AccountView { key, is_signer: s, is_writable: w };
    let accounts = SetManagerAccounts {
        current_manager: av(Pubkey::new(1, 0, 0, 0), true, false),
        new_manager: av(Pubkey::new(2, 0, 0, 0), false, false),
        state: av(Pubkey::new(3, 0, 0, 0), false, false),
    };
    // State not writable.
    assert!(set_manager_verify_account_privileges(&accounts).is_err());
    let ok = SetManagerAccounts {
        state: av(Pubkey::new(3, 0, 0, 0), false, true),
        ..accounts
    };
    assert!(set_manager_verify_account_privileges(&ok).is_ok());
}
