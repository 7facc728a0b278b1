//! Registry tests: duplicate mints, removal preconditions, input flags, and
//! the aggregate-equals-sum bookkeeping.

use s_controller::accounts::AccountView;
use s_controller::controller::registry::{
    add_lst, disable_lst_input, enable_lst_input, remove_lst, set_admin,
    sync_sol_value_unchecked,
};
use s_controller::controller::state::{initial_pool_state, Pool, PoolState};
use s_controller::errors::{PrivilegeError, ProgError, SControllerError};
use s_controller::pubkey::Pubkey;
use s_controller::value_range::U64ValueRange;

fn admin() -> Pubkey {
    Pubkey::new(1, 1, 1, 1)
}

fn manager() -> AccountView {
    AccountView { key: admin(), is_signer: true, is_writable: false }
}

fn calc_prog() -> Pubkey {
    Pubkey::new(5, 5, 5, 5)
}

fn empty_pool() -> Pool {
    Pool { state: initial_pool_state(admin()), lst_states: vec![], reserves: vec![] }
}

fn sum_of(pool: &Pool) -> u64 {
    pool.lst_states.iter().map(|e| e.sol_value).sum()
}

#[test]
fn add_two_lsts() {
    let mut pool = empty_pool();
    add_lst(&mut pool, manager(), Pubkey::new(2, 0, 0, 0), calc_prog(), 255).unwrap();
    add_lst(&mut pool, manager(), Pubkey::new(3, 0, 0, 0), calc_prog(), 254).unwrap();
    assert_eq!(pool.lst_states.len(), 2);
    assert_eq!(pool.reserves, vec![0, 0]);
    assert_eq!(pool.lst_states[0].sol_value, 0);
    assert!(!pool.lst_states[0].is_input_disabled);
    assert_eq!(pool.state.total_sol_value, sum_of(&pool));
}

#[test]
fn add_duplicate_mint_fails_without_mutation() {
    let mut pool = empty_pool();
    let mint = Pubkey::new(2, 0, 0, 0);
    add_lst(&mut pool, manager(), mint, calc_prog(), 255).unwrap();
    let before_states = pool.lst_states.clone();
    let r = add_lst(&mut pool, manager(), mint, calc_prog(), 254);
    assert_eq!(
        r,
        Err(ProgError::Controller(SControllerError::DuplicateLst))
    );
    assert_eq!(pool.lst_states, before_states);
    assert_eq!(pool.reserves, vec![0]);
}

#[test]
fn add_requires_signing_manager() {
    let mut pool = empty_pool();
    let mint = Pubkey::new(2, 0, 0, 0);
    let unsigned = AccountView { key: admin(), is_signer: false, is_writable: false };
    assert_eq!(
        add_lst(&mut pool, unsigned, mint, calc_prog(), 255),
        Err(ProgError::Privilege(PrivilegeError::NotSigner(admin())))
    );
    let stranger_key = Pubkey::new(9, 9, 9, 9);
    let stranger = AccountView { key: stranger_key, is_signer: true, is_writable: false };
    assert_eq!(
        add_lst(&mut pool, stranger, mint, calc_prog(), 255),
        Err(ProgError::WrongAccount(stranger_key, admin()))
    );
    assert!(pool.lst_states.is_empty());
}

#[test]
fn remove_with_value_fails_and_zero_succeeds() {
    let mut pool = empty_pool();
    let mint = Pubkey::new(2, 0, 0, 0);
    add_lst(&mut pool, manager(), mint, calc_prog(), 255).unwrap();
    // Give the entry some SOL value via a sync.
    sync_sol_value_unchecked(&mut pool, 0, U64ValueRange { min: 40, max: 41 }).unwrap();
    assert_eq!(pool.state.total_sol_value, 40);
    assert_eq!(
        remove_lst(&mut pool, manager(), 0, mint),
        Err(ProgError::Controller(SControllerError::LstStillHasValue))
    );
    // Sync back to zero; removal now succeeds and the mint is gone.
    sync_sol_value_unchecked(&mut pool, 0, U64ValueRange { min: 0, max: 0 }).unwrap();
    remove_lst(&mut pool, manager(), 0, mint).unwrap();
    assert!(pool.lst_states.is_empty());
    assert!(pool.reserves.is_empty());
    assert_eq!(pool.state.total_sol_value, 0);
}

#[test]
fn remove_nonzero_reserves_fails() {
    let mut pool = empty_pool();
    let mint = Pubkey::new(2, 0, 0, 0);
    add_lst(&mut pool, manager(), mint, calc_prog(), 255).unwrap();
    pool.reserves[0] = 7;
    assert_eq!(
        remove_lst(&mut pool, manager(), 0, mint),
        Err(ProgError::Controller(SControllerError::LstStillHasValue))
    );
    assert_eq!(pool.lst_states.len(), 1);
}

#[test]
fn remove_checks_index_and_mint() {
    let mut pool = empty_pool();
    let mint = Pubkey::new(2, 0, 0, 0);
    add_lst(&mut pool, manager(), mint, calc_prog(), 255).unwrap();
    assert_eq!(
        remove_lst(&mut pool, manager(), 1, mint),
        Err(ProgError::Controller(SControllerError::InvalidLstIndex))
    );
    assert_eq!(
        remove_lst(&mut pool, manager(), 0, Pubkey::new(3, 0, 0, 0)),
        Err(ProgError::Controller(SControllerError::IncorrectLstMint))
    );
}

#[test]
fn disable_and_enable_lst_input() {
    let mut pool = empty_pool();
    let mint = Pubkey::new(2, 0, 0, 0);
    add_lst(&mut pool, manager(), mint, calc_prog(), 255).unwrap();
    disable_lst_input(&mut pool, manager(), 0, mint).unwrap();
    assert!(pool.lst_states[0].is_input_disabled);
    enable_lst_input(&mut pool, manager(), 0, mint).unwrap();
    assert!(!pool.lst_states[0].is_input_disabled);
}

#[test]
fn sync_keeps_total_equal_to_sum() {
    let mut pool = empty_pool();
    add_lst(&mut pool, manager(), Pubkey::new(2, 0, 0, 0), calc_prog(), 255).unwrap();
    add_lst(&mut pool, manager(), Pubkey::new(3, 0, 0, 0), calc_prog(), 254).unwrap();
    sync_sol_value_unchecked(&mut pool, 0, U64ValueRange { min: 1000, max: 1001 }).unwrap();
    sync_sol_value_unchecked(&mut pool, 1, U64ValueRange { min: 500, max: 500 }).unwrap();
    assert_eq!(pool.state.total_sol_value, 1500);
    assert_eq!(pool.state.total_sol_value, sum_of(&pool));
    // Syncing credits the conservative lower end of the returned range.
    assert_eq!(pool.lst_states[0].sol_value, 1000);
    sync_sol_value_unchecked(&mut pool, 0, U64ValueRange { min: 900, max: 950 }).unwrap();
    assert_eq!(pool.state.total_sol_value, 1400);
    assert_eq!(pool.state.total_sol_value, sum_of(&pool));
}

#[test]
fn add_remove_sequence_keeps_registry_valid() {
    let mut pool = empty_pool();
    let m = |w: u64| Pubkey::new(w, 0, 0, 0);
    add_lst(&mut pool, manager(), m(2), calc_prog(), 255).unwrap();
    add_lst(&mut pool, manager(), m(3), calc_prog(), 254).unwrap();
    remove_lst(&mut pool, manager(), 0, m(2)).unwrap();
    add_lst(&mut pool, manager(), m(4), calc_prog(), 253).unwrap();
    // Re-adding a removed mint is allowed; adding a present one is not.
    add_lst(&mut pool, manager(), m(2), calc_prog(), 252).unwrap();
    assert!(add_lst(&mut pool, manager(), m(3), calc_prog(), 251).is_err());
    // No duplicate mint anywhere, and the aggregate matches the sum.
    for i in 0..pool.lst_states.len() {
        for j in 0..i {
            assert_ne!(pool.lst_states[i].mint, pool.lst_states[j].mint);
        }
    }
    assert_eq!(pool.state.total_sol_value, sum_of(&pool));
    assert_eq!(pool.lst_states.len(), 3);
    assert_eq!(pool.lst_states[0].mint, m(3));
}

#[test]
fn set_admin_replaces_the_admin() {
    let mut pool = empty_pool();
    let new_admin = Pubkey::new(7, 7, 7, 7);
    set_admin(&mut pool, manager(), new_admin).unwrap();
    assert_eq!(pool.state.admin, new_admin);
    // The old admin no longer qualifies.
    assert!(set_admin(&mut pool, manager(), admin()).is_err());
    let st: PoolState = pool.state;
    assert_eq!(st.rebalance_authority, admin());
}

#[test]
fn sync_rejects_bad_index() {
    let mut pool = empty_pool();
    assert_eq!(
        sync_sol_value_unchecked(&mut pool, 0, U64ValueRange { min: 1, max: 1 }),
        Err(ProgError::Controller(SControllerError::InvalidLstIndex))
    );
}
