//! Rebalance protocol tests: the full two-phase scenario, the mandatory
//! succeeding end-rebalance instruction, the drift guard, and account
//! verification before any mutation.

use s_controller::accounts::{AccountView, InstructionView};
use s_controller::controller::rebalance::{
    process_end_rebalance, process_start_rebalance, resolve_end_rebalance,
    verify_has_succeeding_end_rebalance_ix, EndRebalanceAccounts, StartRebalanceAccounts,
    StartRebalanceFreeArgs, StartRebalanceIxArgs, StartRebalanceKeys, END_REBALANCE_IX_DISCM,
    START_REBALANCE_IX_DISCM,
};
use s_controller::controller::state::{LstState, Pool, PoolState};
use s_controller::errors::{ProgError, SControllerError};
use s_controller::pubkey::{controller_program_id, Pubkey};
use s_controller::value_range::U64ValueRange;

fn admin() -> Pubkey {
    Pubkey::new(1, 1, 1, 1)
}

fn mint_a() -> Pubkey {
    Pubkey::new(0xa, 0, 0, 0)
}

fn mint_b() -> Pubkey {
    Pubkey::new(0xb, 0, 0, 0)
}

fn calc_a() -> Pubkey {
    Pubkey::new(0xca, 0, 0, 0)
}

fn calc_b() -> Pubkey {
    Pubkey::new(0xcb, 0, 0, 0)
}

fn payer() -> Pubkey {
    Pubkey::new(0x99, 0, 0, 0)
}

fn withdraw_to() -> Pubkey {
    Pubkey::new(0x77, 0, 0, 0)
}

/// Pool with LSTs A (sol_value 1000) and B (sol_value 500), total 1500.
fn pool_ab() -> Pool {
    Pool {
        state: PoolState {
            total_sol_value: 1500,
            trading_protocol_fee_bps: 0,
            lp_protocol_fee_bps: 0,
            version: 1,
            is_disabled: false,
            is_rebalancing: false,
            admin: admin(),
            rebalance_authority: admin(),
        },
        lst_states: vec![
            LstState {
                mint: mint_a(),
                sol_value: 1000,
                is_input_disabled: false,
                pool_reserves_bump: 255,
                sol_value_calculator: calc_a(),
            },
            LstState {
                mint: mint_b(),
                sol_value: 500,
                is_input_disabled: false,
                pool_reserves_bump: 255,
                sol_value_calculator: calc_b(),
            },
        ],
        reserves: vec![1000, 500],
    }
}

fn range(v: u64) -> U64ValueRange {
    U64ValueRange { min: v, max: v }
}

fn args() -> StartRebalanceIxArgs {
    StartRebalanceIxArgs { src_lst_calc_accs: 1, src_lst_index: 0, dst_lst_index: 1, amount: 200 }
}

fn start_accounts(keys: &StartRebalanceKeys) -> StartRebalanceAccounts {
    let ro = |key: Pubkey| AccountView { key, is_signer: false, is_writable: false };
    let w = |key: Pubkey| AccountView { key, is_signer: false, is_writable: true };
    StartRebalanceAccounts {
        payer: AccountView { key: keys.payer, is_signer: true, is_writable: true },
        withdraw_to: w(keys.withdraw_to),
        lst_state_list: w(keys.lst_state_list),
        pool_state: w(keys.pool_state),
        src_lst_mint: ro(keys.src_lst_mint),
        dst_lst_mint: ro(keys.dst_lst_mint),
        src_pool_reserves: w(keys.src_pool_reserves),
        dst_pool_reserves: w(keys.dst_pool_reserves),
        src_lst_token_program: ro(keys.src_lst_token_program),
        rebalance_record: w(keys.rebalance_record),
        instructions_sysvar: ro(keys.instructions_sysvar),
        system_program: ro(keys.system_program),
    }
}

fn resolved_start_accounts(pool: &Pool) -> StartRebalanceAccounts {
    let free = StartRebalanceFreeArgs {
        payer: payer(),
        withdraw_to: withdraw_to(),
        src_lst_index: 0,
        dst_lst_index: 1,
    };
    let keys = free.resolve(&pool.lst_states).unwrap();
    start_accounts(&keys)
}

fn calc_suffix() -> Vec<AccountView> {
    vec![
        AccountView { key: calc_a(), is_signer: false, is_writable: false },
        AccountView { key: calc_b(), is_signer: false, is_writable: false },
    ]
}

fn end_ix() -> InstructionView {
    InstructionView {
        program_id: controller_program_id(),
        accounts: vec![],
        data: vec![END_REBALANCE_IX_DISCM],
    }
}

fn start_ix_placeholder() -> InstructionView {
    InstructionView {
        program_id: controller_program_id(),
        accounts: vec![],
        data: vec![START_REBALANCE_IX_DISCM],
    }
}

fn end_accounts(pool: &Pool, record: &s_controller::controller::state::RebalanceRecord)
    -> EndRebalanceAccounts {
    let keys = resolve_end_rebalance(record, &pool.lst_states).unwrap();
    let ro = |key: Pubkey| AccountView { key, is_signer: false, is_writable: false };
    let w = |key: Pubkey| AccountView { key, is_signer: false, is_writable: true };
    EndRebalanceAccounts {
        pool_state: w(keys.pool_state),
        lst_state_list: w(keys.lst_state_list),
        rebalance_record: w(keys.rebalance_record),
        dst_lst_mint: ro(keys.dst_lst_mint),
        dst_pool_reserves: w(keys.dst_pool_reserves),
    }
}

#[test]
fn full_rebalance_scenario_commits() {
    let mut pool = pool_ab();
    let accounts = resolved_start_accounts(&pool);
    let ixs = vec![start_ix_placeholder(), end_ix()];
    let record = process_start_rebalance(
        &mut pool,
        &accounts,
        &args(),
        &calc_suffix(),
        &ixs,
        0,
        range(1000),
        range(500),
        range(800),
    )
    .unwrap();
    // 200 units of A left the reserves; A re-synced downward; the record
    // holds the post-sync total.
    assert_eq!(record.old_total_sol_value, 1500);
    assert_eq!(record.dst_lst_index, 1);
    assert_eq!(pool.reserves, vec![800, 500]);
    assert_eq!(pool.lst_states[0].sol_value, 800);
    assert_eq!(pool.state.total_sol_value, 1300);
    assert!(pool.state.is_rebalancing);

    // The external deposit happened between the phases; B re-syncs upward.
    let ea = end_accounts(&pool, &record);
    process_end_rebalance(&mut pool, &ea, record, range(700)).unwrap();
    assert!(!pool.state.is_rebalancing);
    assert_eq!(pool.lst_states[1].sol_value, 700);
    assert_eq!(pool.state.total_sol_value, 1500);
}

#[test]
fn start_fails_while_rebalancing() {
    let mut pool = pool_ab();
    pool.state.is_rebalancing = true;
    let accounts = resolved_start_accounts(&pool);
    let ixs = vec![start_ix_placeholder(), end_ix()];
    let r = process_start_rebalance(
        &mut pool,
        &accounts,
        &args(),
        &calc_suffix(),
        &ixs,
        0,
        range(1000),
        range(500),
        range(800),
    );
    assert_eq!(
        r,
        Err(ProgError::Controller(SControllerError::PoolRebalancing))
    );
    assert_eq!(pool.reserves, vec![1000, 500]);
}

#[test]
fn start_fails_without_succeeding_end_ix() {
    let mut pool = pool_ab();
    let accounts = resolved_start_accounts(&pool);
    let ixs = vec![start_ix_placeholder()];
    let r = process_start_rebalance(
        &mut pool,
        &accounts,
        &args(),
        &calc_suffix(),
        &ixs,
        0,
        range(1000),
        range(500),
        range(800),
    );
    assert_eq!(
        r,
        Err(ProgError::Controller(SControllerError::NoSucceedingEndRebalance))
    );
    assert!(!pool.state.is_rebalancing);
    assert_eq!(pool.state.total_sol_value, 1500);
}

#[test]
fn end_ix_scan_ignores_preceding_and_foreign_instructions() {
    let foreign = InstructionView {
        program_id: Pubkey::new(42, 42, 42, 42),
        accounts: vec![],
        data: vec![END_REBALANCE_IX_DISCM],
    };
    // An end-rebalance before the current index does not count.
    let ixs = vec![end_ix(), start_ix_placeholder(), foreign];
    assert_eq!(
        verify_has_succeeding_end_rebalance_ix(&ixs, 1),
        Err(SControllerError::NoSucceedingEndRebalance)
    );
    let ixs = vec![start_ix_placeholder(), end_ix()];
    assert!(verify_has_succeeding_end_rebalance_ix(&ixs, 0).is_ok());
}

#[test]
fn start_fails_on_wrong_pool_state_account() {
    let mut pool = pool_ab();
    let mut accounts = resolved_start_accounts(&pool);
    let expected = accounts.pool_state.key;
    let bogus = Pubkey::new(0xbad, 0xbad, 0xbad, 0xbad);
    accounts.pool_state.key = bogus;
    let ixs = vec![start_ix_placeholder(), end_ix()];
    let r = process_start_rebalance(
        &mut pool,
        &accounts,
        &args(),
        &calc_suffix(),
        &ixs,
        0,
        range(1000),
        range(500),
        range(800),
    );
    assert_eq!(r, Err(ProgError::WrongAccount(bogus, expected)));
    // Nothing was read for mutation: the pool is untouched.
    assert_eq!(pool.state.total_sol_value, 1500);
    assert_eq!(pool.reserves, vec![1000, 500]);
}

#[test]
fn start_fails_when_dst_input_disabled() {
    let mut pool = pool_ab();
    pool.lst_states[1].is_input_disabled = true;
    let accounts = resolved_start_accounts(&pool);
    let ixs = vec![start_ix_placeholder(), end_ix()];
    let r = process_start_rebalance(
        &mut pool,
        &accounts,
        &args(),
        &calc_suffix(),
        &ixs,
        0,
        range(1000),
        range(500),
        range(800),
    );
    assert_eq!(
        r,
        Err(ProgError::Controller(SControllerError::LstInputDisabled))
    );
}

#[test]
fn end_fails_on_excessive_drift() {
    let mut pool = pool_ab();
    let accounts = resolved_start_accounts(&pool);
    let ixs = vec![start_ix_placeholder(), end_ix()];
    let record = process_start_rebalance(
        &mut pool,
        &accounts,
        &args(),
        &calc_suffix(),
        &ixs,
        0,
        range(1000),
        range(500),
        range(800),
    )
    .unwrap();
    let ea = end_accounts(&pool, &record);
    // B only reaches 600: the total would be 1400 < 1500 recorded at start.
    let r = process_end_rebalance(&mut pool, &ea, record, range(600));
    assert_eq!(
        r,
        Err(ProgError::Controller(SControllerError::PoolWouldLoseSolValue))
    );
    // The pool is untouched; the enclosing transaction (and with it the
    // first phase) rolls back.
    assert!(pool.state.is_rebalancing);
    assert_eq!(pool.lst_states[1].sol_value, 500);
}

#[test]
fn end_fails_when_not_rebalancing() {
    let mut pool = pool_ab();
    let record = s_controller::controller::state::RebalanceRecord {
        dst_lst_index: 1,
        old_total_sol_value: 1500,
    };
    let ea = end_accounts(&pool, &record);
    let r = process_end_rebalance(&mut pool, &ea, record, range(700));
    assert_eq!(
        r,
        Err(ProgError::Controller(SControllerError::PoolNotRebalancing))
    );
}

#[test]
fn start_fails_on_insufficient_reserves() {
    let mut pool = pool_ab();
    pool.reserves[0] = 100;
    let accounts = resolved_start_accounts(&pool);
    let ixs = vec![start_ix_placeholder(), end_ix()];
    let r = process_start_rebalance(
        &mut pool,
        &accounts,
        &args(),
        &calc_suffix(),
        &ixs,
        0,
        range(1000),
        range(500),
        range(800),
    );
    assert_eq!(
        r,
        Err(ProgError::Controller(SControllerError::InsufficientReserves))
    );
    assert_eq!(pool.reserves, vec![100, 500]);
}

#[test]
fn start_fails_on_wrong_calculator_program() {
    let mut pool = pool_ab();
    let accounts = resolved_start_accounts(&pool);
    let ixs = vec![start_ix_placeholder(), end_ix()];
    let wrong_suffix = vec![
        AccountView { key: calc_b(), is_signer: false, is_writable: false },
        AccountView { key: calc_b(), is_signer: false, is_writable: false },
    ];
    let r = process_start_rebalance(
        &mut pool,
        &accounts,
        &args(),
        &wrong_suffix,
        &ixs,
        0,
        range(1000),
        range(500),
        range(800),
    );
    assert_eq!(
        r,
        Err(ProgError::Controller(SControllerError::IncorrectSolValueCalculator))
    );
}
