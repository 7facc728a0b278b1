//! Round-trip tests for the persisted binary records.

use s_controller::calculator::{try_clock_epoch, try_stake_pool, StakePoolRecord};
use s_controller::controller::state::{
    push_lst_state, try_lst_state_list, try_pool_state, try_rebalance_record, LstState, PoolState,
    RebalanceRecord,
};
use s_controller::errors::ParseError;
use s_controller::flat_fee::state::{
    try_fee_account, try_program_state, FeeAccount, ProgramState,
};
use s_controller::pubkey::Pubkey;

#[test]
fn pool_state_record_round_trip() {
    let ps = PoolState {
        total_sol_value: 123_456_789,
        trading_protocol_fee_bps: 10,
        lp_protocol_fee_bps: 20,
        version: 1,
        is_disabled: false,
        is_rebalancing: true,
        admin: Pubkey::new(1, 2, 3, 4),
        rebalance_authority: Pubkey::new(5, 6, 7, 8),
    };
    let bytes = ps.to_vec();
    assert_eq!(bytes.len(), 80);
    assert_eq!(try_pool_state(&bytes), Ok(ps));
    assert_eq!(try_pool_state(&bytes[..79]), Err(ParseError::UnexpectedEnd));
}

#[test]
fn lst_state_list_record_round_trip() {
    let a = LstState {
        mint: Pubkey::new(1, 0, 0, 0),
        sol_value: 1000,
        is_input_disabled: false,
        pool_reserves_bump: 255,
        sol_value_calculator: Pubkey::new(9, 9, 9, 9),
    };
    let b = LstState {
        mint: Pubkey::new(2, 0, 0, 0),
        sol_value: 500,
        is_input_disabled: true,
        pool_reserves_bump: 254,
        sol_value_calculator: Pubkey::new(8, 8, 8, 8),
    };
    let mut bytes: Vec<u8> = Vec::new();
    push_lst_state(&mut bytes, &a);
    push_lst_state(&mut bytes, &b);
    assert_eq!(bytes.len(), 160);
    let list = try_lst_state_list(&bytes).unwrap();
    assert_eq!(list, vec![a, b]);
    // A truncated list does not decode.
    assert_eq!(
        try_lst_state_list(&bytes[..100]),
        Err(ParseError::UnexpectedEnd)
    );
    // An empty account is an empty registry.
    assert_eq!(try_lst_state_list(&[]), Ok(vec![]));
}

#[test]
fn rebalance_record_round_trip() {
    let rec = RebalanceRecord { dst_lst_index: 7, old_total_sol_value: 1500 };
    let bytes = rec.to_vec();
    assert_eq!(bytes.len(), 16);
    assert_eq!(try_rebalance_record(&bytes), Ok(rec));
    assert_eq!(bytes[0], 7);
    assert_eq!(bytes[8], 0xdc);
    assert_eq!(bytes[9], 0x05);
}

#[test]
fn fee_account_record_round_trip() {
    let fa = FeeAccount { input_fee_bps: -5, output_fee_bps: 100, bump: 253 };
    let bytes = fa.to_vec();
    assert_eq!(bytes.len(), 8);
    assert_eq!(try_fee_account(&bytes), Ok(fa));
    assert_eq!(try_fee_account(&bytes[..7]), Err(ParseError::UnexpectedEnd));
}

#[test]
fn program_state_record_round_trip() {
    let st = ProgramState { manager: Pubkey::new(4, 3, 2, 1), lp_withdrawal_fee_bps: 77 };
    let bytes = st.to_vec();
    assert_eq!(bytes.len(), 40);
    assert_eq!(try_program_state(&bytes), Ok(st));
}

#[test]
fn stake_pool_record_round_trip() {
    let rec = StakePoolRecord {
        pool_mint: Pubkey::new(0xfeed, 2, 3, 4),
        total_lamports: 1_000_000,
        pool_token_supply: 900_000,
        last_update_epoch: 42,
    };
    let bytes = rec.to_vec();
    assert_eq!(bytes.len(), 57);
    assert_eq!(try_stake_pool(&bytes), Ok(rec));
    // The leading discriminant is checked.
    let mut bad = bytes.clone();
    bad[0] = 0;
    assert_eq!(try_stake_pool(&bad), Err(ParseError::WrongDiscm));
}

#[test]
fn clock_epoch_is_read_at_its_offset() {
    let mut bytes = vec![0u8; 40];
    bytes[16] = 0x2a;
    assert_eq!(try_clock_epoch(&bytes), Ok(42));
    assert_eq!(try_clock_epoch(&bytes[..39]), Err(ParseError::UnexpectedEnd));
}
