//! Wire-format and builder tests for the controller's rebalance
//! instructions.

use s_controller::controller::instructions::{
    end_rebalance_ix, start_rebalance_ix, EndRebalanceIxData, StartRebalanceIxData,
};
use s_controller::controller::rebalance::{
    is_end_rebalance_ix, resolve_end_rebalance, verify_has_succeeding_end_rebalance_ix,
    StartRebalanceFreeArgs, StartRebalanceIxArgs, END_REBALANCE_IX_DISCM,
    START_REBALANCE_IX_DISCM,
};
use s_controller::controller::state::{LstState, RebalanceRecord};
use s_controller::errors::ParseError;
use s_controller::pubkey::{controller_program_id, Pubkey};

fn sample_args() -> StartRebalanceIxArgs {
    StartRebalanceIxArgs {
        src_lst_calc_accs: 3,
        src_lst_index: 1,
        dst_lst_index: 2,
        amount: 0x0102_0304_0506_0708,
    }
}

fn sample_registry() -> Vec<LstState> {
    let entry = |w: u64| LstState {
        mint: Pubkey::new(w, 0, 0, 0),
        sol_value: 0,
        is_input_disabled: false,
        pool_reserves_bump: 255,
        sol_value_calculator: Pubkey::new(w, w, 0, 0),
    };
    vec![entry(1), entry(2), entry(3)]
}

#[test]
fn start_rebalance_ix_exact_bytes() {
    let data = StartRebalanceIxData(sample_args()).serialize();
    assert_eq!(
        data,
        vec![
            START_REBALANCE_IX_DISCM,
            3,
            1, 0, 0, 0,
            2, 0, 0, 0,
            0x08, 0x07, 0x06, 0x05, 0x04, 0x03, 0x02, 0x01,
        ]
    );
}

#[test]
fn start_rebalance_ix_data_round_trip() {
    let data = StartRebalanceIxData(sample_args()).serialize();
    let back = StartRebalanceIxData::deserialize(&data).unwrap();
    assert_eq!(back.0, sample_args());
    assert_eq!(
        StartRebalanceIxData::deserialize(&data[..10]),
        Err(ParseError::UnexpectedEnd)
    );
    let mut wrong = data.clone();
    wrong[0] = END_REBALANCE_IX_DISCM;
    assert_eq!(
        StartRebalanceIxData::deserialize(&wrong),
        Err(ParseError::WrongDiscm)
    );
}

#[test]
fn end_rebalance_ix_data_round_trip() {
    let data = EndRebalanceIxData {}.serialize();
    assert_eq!(data, vec![END_REBALANCE_IX_DISCM]);
    assert!(EndRebalanceIxData::deserialize(&data).is_ok());
    assert_eq!(
        EndRebalanceIxData::deserialize(&[]),
        Err(ParseError::UnexpectedEnd)
    );
}

#[test]
fn built_transaction_passes_the_succeeding_end_scan() {
    let registry = sample_registry();
    let free = StartRebalanceFreeArgs {
        payer: Pubkey::new(9, 0, 0, 0),
        withdraw_to: Pubkey::new(8, 0, 0, 0),
        src_lst_index: 0,
        dst_lst_index: 1,
    };
    let start_keys = free.resolve(&registry).unwrap();
    let record = RebalanceRecord { dst_lst_index: 1, old_total_sol_value: 0 };
    let end_keys = resolve_end_rebalance(&record, &registry).unwrap();

    let start = start_rebalance_ix(start_keys, sample_args());
    let end = end_rebalance_ix(end_keys);
    assert_eq!(start.program_id, controller_program_id());
    // The builders carry the documented account lists with their
    // read/write/signer requirements.
    assert_eq!(start.accounts.len(), 12);
    assert_eq!(start.accounts[0].key, start_keys.payer);
    assert!(start.accounts[0].is_signer && start.accounts[0].is_writable);
    assert_eq!(start.accounts[3].key, start_keys.pool_state);
    assert!(!start.accounts[3].is_signer && start.accounts[3].is_writable);
    assert_eq!(start.accounts[4].key, start_keys.src_lst_mint);
    assert!(!start.accounts[4].is_signer && !start.accounts[4].is_writable);
    assert_eq!(end.accounts.len(), 5);
    assert_eq!(end.accounts[2].key, end_keys.rebalance_record);
    assert!(end.accounts[2].is_writable);
    assert_eq!(end.accounts[3].key, end_keys.dst_lst_mint);
    assert!(!end.accounts[3].is_writable);
    assert!(is_end_rebalance_ix(&end));
    assert!(!is_end_rebalance_ix(&start));
    let ixs = vec![start, end];
    assert!(verify_has_succeeding_end_rebalance_ix(&ixs, 0).is_ok());
    assert!(verify_has_succeeding_end_rebalance_ix(&ixs, 1).is_err());
}
