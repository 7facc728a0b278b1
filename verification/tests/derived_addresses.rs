//! Derived-address tests: the library's derivations agree with a direct
//! computation through the outside crate, and differ per seed set.

use s_controller::pda::{
    find_fee_account_address, find_lst_state_list_address, find_pool_reserves_address,
    find_pool_state_address, find_rebalance_record_address,
};
use s_controller::pubkey::{controller_program_id, Pubkey};

fn to_solana(k: &Pubkey) -> solana_program::pubkey::Pubkey {
    solana_program::pubkey::Pubkey::try_from(k.to_vec().as_slice()).unwrap()
}

#[test]
fn pool_state_address_matches_direct_derivation() {
    let (key, bump) = find_pool_state_address().unwrap();
    let (expected, expected_bump) = solana_program::pubkey::Pubkey::find_program_address(
        &[b"pool_state"],
        &to_solana(&controller_program_id()),
    );
    assert_eq!(key.to_vec(), expected.to_bytes().to_vec());
    assert_eq!(bump, expected_bump);
}

#[test]
fn distinct_seeds_give_distinct_addresses() {
    let (pool_state, _) = find_pool_state_address().unwrap();
    let (list, _) = find_lst_state_list_address().unwrap();
    let (record, _) = find_rebalance_record_address().unwrap();
    assert_ne!(pool_state, list);
    assert_ne!(pool_state, record);
    assert_ne!(list, record);
    // Nothing hands back its input.
    assert_ne!(pool_state, controller_program_id());
}

#[test]
fn fee_account_addresses_depend_on_the_mint() {
    let m1 = Pubkey::new(1, 2, 3, 4);
    let m2 = Pubkey::new(4, 3, 2, 1);
    let (f1, _) = find_fee_account_address(&m1).unwrap();
    let (f2, _) = find_fee_account_address(&m2).unwrap();
    assert_ne!(f1, f2);
    assert_ne!(f1, m1);
    let (f1_again, _) = find_fee_account_address(&m1).unwrap();
    assert_eq!(f1, f1_again);
}

#[test]
fn pool_reserves_address_is_the_associated_token_account() {
    let (pool_state, _) = find_pool_state_address().unwrap();
    let mint = Pubkey::new(7, 7, 7, 7);
    let (r1, _) = find_pool_reserves_address(&pool_state, &mint).unwrap();
    let (r2, _) = find_pool_reserves_address(&pool_state, &Pubkey::new(8, 8, 8, 8)).unwrap();
    assert_ne!(r1, r2);
    assert_ne!(r1, pool_state);
    assert_ne!(r1, mint);
}
