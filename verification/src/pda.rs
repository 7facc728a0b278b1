//! Derived addresses of the controller and pricing programs.
//!
//! Every fixed account the programs use lives at an address derived from a
//! documented seed string (plus, for per-LST accounts, the mint); a caller-
//! supplied address is never trusted, it is compared against a fresh
//! derivation.

use vstd::prelude::*;

use crate::pubkey::{
    ata_program_id, derived_address, find_pda, flat_fee_program_id, pk_bytes, spec_ata_program_id,
    spec_controller_program_id, spec_flat_fee_program_id, spec_token_program_id,
    controller_program_id, token_program_id, Pubkey,
};

verus! {

/// Seed of the controller's pool-state singleton.
pub open spec fn pool_state_seed() -> Seq<u8> {
    seq![112u8, 111, 111, 108, 95, 115, 116, 97, 116, 101]
}

/// Seed of the controller's LST registry list account.
pub open spec fn lst_state_list_seed() -> Seq<u8> {
    seq![108u8, 115, 116, 95, 115, 116, 97, 116, 101, 95, 108, 105, 115, 116]
}

/// Seed of the controller's ephemeral rebalance record.
pub open spec fn rebalance_record_seed() -> Seq<u8> {
    seq![114u8, 101, 98, 97, 108, 97, 110, 99, 101, 95, 114, 101, 99, 111, 114, 100]
}

/// Seed of the flat-fee program's state singleton.
pub open spec fn flat_fee_state_seed() -> Seq<u8> {
    seq![115u8, 116, 97, 116, 101]
}

/// First seed of a flat-fee per-LST fee account; the second is the mint.
pub open spec fn fee_seed() -> Seq<u8> {
    seq![102u8, 101, 101]
}

/// The pool-state singleton's derived address and bump.
pub open spec fn pool_state_pda() -> Option<(Pubkey, u8)> {
    derived_address(seq![pool_state_seed()], spec_controller_program_id())
}

/// The registry list account's derived address and bump.
pub open spec fn lst_state_list_pda() -> Option<(Pubkey, u8)> {
    derived_address(seq![lst_state_list_seed()], spec_controller_program_id())
}

/// The rebalance record's derived address and bump.
pub open spec fn rebalance_record_pda() -> Option<(Pubkey, u8)> {
    derived_address(seq![rebalance_record_seed()], spec_controller_program_id())
}

/// The flat-fee state singleton's derived address and bump.
pub open spec fn flat_fee_state_pda() -> Option<(Pubkey, u8)> {
    derived_address(seq![flat_fee_state_seed()], spec_flat_fee_program_id())
}

/// The derived address and bump of the fee account for `mint`.
pub open spec fn fee_account_pda(mint: Pubkey) -> Option<(Pubkey, u8)> {
    derived_address(seq![fee_seed(), pk_bytes(mint)], spec_flat_fee_program_id())
}

/// The derived address and bump of the pool's reserve token account for
/// `mint`: the associated token account of the pool-state address.
pub open spec fn pool_reserves_pda(pool_state: Pubkey, mint: Pubkey) -> Option<(Pubkey, u8)> {
    derived_address(
        seq![pk_bytes(pool_state), pk_bytes(spec_token_program_id()), pk_bytes(mint)],
        spec_ata_program_id(),
    )
}

fn pool_state_seed_vec() -> (r: Vec<u8>)
    ensures
        r@ =~= pool_state_seed(),
{
    vec![112u8, 111, 111, 108, 95, 115, 116, 97, 116, 101]
}

fn lst_state_list_seed_vec() -> (r: Vec<u8>)
    ensures
        r@ =~= lst_state_list_seed(),
{
    vec![108u8, 115, 116, 95, 115, 116, 97, 116, 101, 95, 108, 105, 115, 116]
}

fn rebalance_record_seed_vec() -> (r: Vec<u8>)
    ensures
        r@ =~= rebalance_record_seed(),
{
    vec![114u8, 101, 98, 97, 108, 97, 110, 99, 101, 95, 114, 101, 99, 111, 114, 100]
}

fn flat_fee_state_seed_vec() -> (r: Vec<u8>)
    ensures
        r@ =~= flat_fee_state_seed(),
{
    vec![115u8, 116, 97, 116, 101]
}

fn fee_seed_vec() -> (r: Vec<u8>)
    ensures
        r@ =~= fee_seed(),
{
    vec![102u8, 101, 101]
}

/// Derives the pool-state singleton's address.
pub fn find_pool_state_address() -> (r: Option<(Pubkey, u8)>)
    ensures
        r == pool_state_pda(),
{
    let mut seeds: Vec<Vec<u8>> = Vec::new();
    seeds.push(pool_state_seed_vec());
    proof {
        assert(seeds@.map_values(|v: Vec<u8>| v@) =~= seq![pool_state_seed()]);
    }
    find_pda(&seeds, &controller_program_id())
}

/// Derives the registry list account's address.
pub fn find_lst_state_list_address() -> (r: Option<(Pubkey, u8)>)
    ensures
        r == lst_state_list_pda(),
{
    let mut seeds: Vec<Vec<u8>> = Vec::new();
    seeds.push(lst_state_list_seed_vec());
    proof {
        assert(seeds@.map_values(|v: Vec<u8>| v@) =~= seq![lst_state_list_seed()]);
    }
    find_pda(&seeds, &controller_program_id())
}

/// Derives the rebalance record's address.
pub fn find_rebalance_record_address() -> (r: Option<(Pubkey, u8)>)
    ensures
        r == rebalance_record_pda(),
{
    let mut seeds: Vec<Vec<u8>> = Vec::new();
    seeds.push(rebalance_record_seed_vec());
    proof {
        assert(seeds@.map_values(|v: Vec<u8>| v@) =~= seq![rebalance_record_seed()]);
    }
    find_pda(&seeds, &controller_program_id())
}

/// Derives the flat-fee state singleton's address.
pub fn find_flat_fee_state_address() -> (r: Option<(Pubkey, u8)>)
    ensures
        r == flat_fee_state_pda(),
{
    let mut seeds: Vec<Vec<u8>> = Vec::new();
    seeds.push(flat_fee_state_seed_vec());
    proof {
        assert(seeds@.map_values(|v: Vec<u8>| v@) =~= seq![flat_fee_state_seed()]);
    }
    find_pda(&seeds, &flat_fee_program_id())
}

/// Derives the fee account address for `mint`.
pub fn find_fee_account_address(mint: &Pubkey) -> (r: Option<(Pubkey, u8)>)
    ensures
        r == fee_account_pda(*mint),
{
    let mut seeds: Vec<Vec<u8>> = Vec::new();
    seeds.push(fee_seed_vec());
    seeds.push(mint.to_vec());
    proof {
        assert(seeds@.map_values(|v: Vec<u8>| v@) =~= seq![fee_seed(), pk_bytes(*mint)]);
    }
    find_pda(&seeds, &flat_fee_program_id())
}

/// Derives the pool's reserve token account address for `mint`.
pub fn find_pool_reserves_address(pool_state: &Pubkey, mint: &Pubkey) -> (r: Option<(Pubkey, u8)>)
    ensures
        r == pool_reserves_pda(*pool_state, *mint),
{
    let mut seeds: Vec<Vec<u8>> = Vec::new();
    seeds.push(pool_state.to_vec());
    seeds.push(token_program_id().to_vec());
    seeds.push(mint.to_vec());
    proof {
        assert(seeds@.map_values(|v: Vec<u8>| v@) =~= seq![
            pk_bytes(*pool_state),
            pk_bytes(spec_token_program_id()),
            pk_bytes(*mint),
        ]);
    }
    find_pda(&seeds, &ata_program_id())
}

} // verus!
