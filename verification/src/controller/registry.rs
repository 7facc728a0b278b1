//! Registry operations: add an LST, remove one, flip its swap-input flag,
//! and re-synchronize one LST's SOL value from a calculator result.
//!
//! Every operation is manager-gated, verifies the claimed index/mint pair
//! before touching state (indexes are caller-supplied and may race with
//! registry changes), leaves the pool untouched on any failure, and
//! preserves the pool invariant.

use vstd::prelude::*;

use crate::accounts::AccountView;
use crate::controller::state::{
    has_mint, lemma_sum_push, lemma_sum_remove, lemma_sum_update, mints_unique, sum_sol_values,
    LstState, Pool, PoolState, PoolView,
};
use crate::errors::{PrivilegeError, ProgError, SControllerError};
use crate::pubkey::Pubkey;
use crate::value_range::U64ValueRange;

verus! {

/// Whether some registry entry carries `mint`.
pub fn has_lst_mint(l: &Vec<LstState>, mint: &Pubkey) -> (r: bool)
    ensures
        r == has_mint(l@, *mint),
{
    let n: usize = l.len();
    let mut i: usize = 0;
    while i < n
        invariant
            n == l@.len(),
            i <= n,
            forall|j: int| 0 <= j < i ==> l@[j].mint != *mint,
        decreases n - i,
    {
        if l[i].mint == *mint {
            return true;
        }
        i += 1;
    }
    false
}

/// The manager check shared by all registry operations: the account must be
/// the pool admin and must have signed.
pub open spec fn manager_err(v: PoolView, manager: AccountView) -> Option<ProgError> {
    if manager.key != v.state.admin {
        Some(ProgError::WrongAccount(manager.key, v.state.admin))
    } else if !manager.is_signer {
        Some(ProgError::Privilege(PrivilegeError::NotSigner(manager.key)))
    } else {
        None
    }
}

/// The index/mint resolution check: the claimed index must name an entry,
/// and that entry must carry the claimed mint.
pub open spec fn index_mint_err(v: PoolView, lst_index: u32, mint: Pubkey) -> Option<ProgError> {
    if lst_index >= v.lst_states.len() {
        Some(ProgError::Controller(SControllerError::InvalidLstIndex))
    } else if v.lst_states[lst_index as int].mint != mint {
        Some(ProgError::Controller(SControllerError::IncorrectLstMint))
    } else {
        None
    }
}

// ---------------------------------------------------------------------------
// add_lst

/// Why adding `mint` fails, if it does.
pub open spec fn add_lst_err(v: PoolView, manager: AccountView, mint: Pubkey) -> Option<
    ProgError,
> {
    match manager_err(v, manager) {
        Some(e) => Some(e),
        None => if v.lst_states.len() >= u32::MAX {
            Some(ProgError::Controller(SControllerError::RegistryFull))
        } else if has_mint(v.lst_states, mint) {
            Some(ProgError::Controller(SControllerError::DuplicateLst))
        } else {
            None
        },
    }
}

/// The pool after a successful add: one more entry, zero SOL value and zero
/// reserves, swap input enabled.
pub open spec fn add_lst_apply(
    v: PoolView,
    mint: Pubkey,
    sol_value_calculator: Pubkey,
    pool_reserves_bump: u8,
) -> PoolView {
    PoolView {
        state: v.state,
        lst_states: v.lst_states.push(
            LstState {
                mint,
                sol_value: 0,
                is_input_disabled: false,
                pool_reserves_bump,
                sol_value_calculator,
            },
        ),
        reserves: v.reserves.push(0),
    }
}

/// Appends a new LST to the registry. Fails on a duplicate mint with no
/// state mutation; the new entry starts with zero SOL value and reserves.
pub fn add_lst(
    pool: &mut Pool,
    manager: AccountView,
    mint: Pubkey,
    sol_value_calculator: Pubkey,
    pool_reserves_bump: u8,
) -> (r: Result<(), ProgError>)
    ensures
        match add_lst_err(old(pool)@, manager, mint) {
            Some(e) => r == Err::<(), ProgError>(e) && final(pool)@ == old(pool)@,
            None => r is Ok && final(pool)@ == add_lst_apply(
                old(pool)@, mint, sol_value_calculator, pool_reserves_bump,
            ),
        },
        old(pool)@.inv() ==> final(pool)@.inv(),
{
    if manager.key != pool.state.admin {
        return Err(ProgError::WrongAccount(manager.key, pool.state.admin));
    }
    if !manager.is_signer {
        return Err(ProgError::Privilege(PrivilegeError::NotSigner(manager.key)));
    }
    if pool.lst_states.len() >= u32::MAX as usize {
        return Err(ProgError::Controller(SControllerError::RegistryFull));
    }
    if has_lst_mint(&pool.lst_states, &mint) {
        return Err(ProgError::Controller(SControllerError::DuplicateLst));
    }
    let e = LstState {
        mint,
        sol_value: 0,
        is_input_disabled: false,
        pool_reserves_bump,
        sol_value_calculator,
    };
    pool.lst_states.push(e);
    pool.reserves.push(0);
    proof {
        lemma_sum_push(old(pool)@.lst_states, e);
        if old(pool)@.inv() {
            assert(mints_unique(final(pool)@.lst_states)) by {
                let l2 = final(pool)@.lst_states;
                assert forall|i: int, j: int| 0 <= i < j < l2.len() implies l2[i].mint
                    != l2[j].mint by {
                    if j < l2.len() - 1 {
                        assert(old(pool)@.lst_states[i].mint != old(pool)@.lst_states[j].mint);
                    } else {
                        assert(!has_mint(old(pool)@.lst_states, mint));
                        assert(old(pool)@.lst_states[i].mint != mint);
                    }
                }
            }
        }
    }
    Ok(())
}

// ---------------------------------------------------------------------------
// remove_lst

/// Why removing the entry at `lst_index` fails, if it does.
pub open spec fn remove_lst_err(
    v: PoolView,
    manager: AccountView,
    lst_index: u32,
    mint: Pubkey,
) -> Option<ProgError> {
    match manager_err(v, manager) {
        Some(e) => Some(e),
        None => match index_mint_err(v, lst_index, mint) {
            Some(e) => Some(e),
            None => if v.lst_states[lst_index as int].sol_value != 0 || v.reserves[
                lst_index as int
            ] != 0 {
                Some(ProgError::Controller(SControllerError::LstStillHasValue))
            } else {
                None
            },
        },
    }
}

/// The pool after a successful removal: the entry and its reserve slot are
/// gone, later entries shift down one index.
pub open spec fn remove_lst_apply(v: PoolView, lst_index: u32) -> PoolView {
    PoolView {
        state: v.state,
        lst_states: v.lst_states.remove(lst_index as int),
        reserves: v.reserves.remove(lst_index as int),
    }
}

/// Removes an LST from the registry. Succeeds exactly when the caller is
/// the signing manager, the index/mint pair resolves, and both the entry's
/// SOL value and its reserves are zero; the mint then no longer appears in
/// the registry.
pub fn remove_lst(pool: &mut Pool, manager: AccountView, lst_index: u32, mint: Pubkey) -> (r:
    Result<(), ProgError>)
    requires
        old(pool)@.wf(),
    ensures
        match remove_lst_err(old(pool)@, manager, lst_index, mint) {
            Some(e) => r == Err::<(), ProgError>(e) && final(pool)@ == old(pool)@,
            None => r is Ok && final(pool)@ == remove_lst_apply(old(pool)@, lst_index),
        },
        old(pool)@.inv() ==> final(pool)@.inv(),
        r is Ok ==> !has_mint(final(pool)@.lst_states, mint),
{
    if manager.key != pool.state.admin {
        return Err(ProgError::WrongAccount(manager.key, pool.state.admin));
    }
    if !manager.is_signer {
        return Err(ProgError::Privilege(PrivilegeError::NotSigner(manager.key)));
    }
    let i = lst_index as usize;
    if i >= pool.lst_states.len() {
        return Err(ProgError::Controller(SControllerError::InvalidLstIndex));
    }
    if pool.lst_states[i].mint != mint {
        return Err(ProgError::Controller(SControllerError::IncorrectLstMint));
    }
    if pool.lst_states[i].sol_value != 0 || pool.reserves[i] != 0 {
        return Err(ProgError::Controller(SControllerError::LstStillHasValue));
    }
    pool.lst_states.remove(i);
    pool.reserves.remove(i);
    proof {
        let l = old(pool)@.lst_states;
        let l2 = final(pool)@.lst_states;
        lemma_sum_remove(l, i as int);
        assert(mints_unique(l2)) by {
            assert forall|a: int, b: int| 0 <= a < b < l2.len() implies l2[a].mint
                != l2[b].mint by {
                let a0: int = if a < i { a } else { a + 1 };
                let b0: int = if b < i { b } else { b + 1 };
                assert(l2[a] == l[a0] && l2[b] == l[b0]);
            }
        }
        assert(!has_mint(l2, mint)) by {
            assert forall|j: int| 0 <= j < l2.len() implies l2[j].mint != mint by {
                let j0: int = if j < i { j } else { j + 1 };
                assert(l2[j] == l[j0]);
                assert(l[i as int].mint == mint);
                if j0 != i {
                    assert(l[j0].mint != l[i as int].mint);
                }
            }
        }
    }
    Ok(())
}

// ---------------------------------------------------------------------------
// enable / disable swap input

/// The pool after flipping the input flag of the entry at `lst_index`.
pub open spec fn set_lst_input_apply(v: PoolView, lst_index: u32, disabled: bool) -> PoolView {
    let e = v.lst_states[lst_index as int];
    PoolView {
        state: v.state,
        lst_states: v.lst_states.update(
            lst_index as int,
            LstState {
                mint: e.mint,
                sol_value: e.sol_value,
                is_input_disabled: disabled,
                pool_reserves_bump: e.pool_reserves_bump,
                sol_value_calculator: e.sol_value_calculator,
            },
        ),
        reserves: v.reserves,
    }
}

/// Why flipping the input flag fails, if it does.
pub open spec fn set_lst_input_err(
    v: PoolView,
    manager: AccountView,
    lst_index: u32,
    mint: Pubkey,
) -> Option<ProgError> {
    match manager_err(v, manager) {
        Some(e) => Some(e),
        None => index_mint_err(v, lst_index, mint),
    }
}

/// Disables an LST as a swap input. A disabled LST may still be rebalanced
/// internally but may not originate a user-facing swap.
pub fn disable_lst_input(pool: &mut Pool, manager: AccountView, lst_index: u32, mint: Pubkey) -> (r:
    Result<(), ProgError>)
    ensures
        match set_lst_input_err(old(pool)@, manager, lst_index, mint) {
            Some(e) => r == Err::<(), ProgError>(e) && final(pool)@ == old(pool)@,
            None => r is Ok && final(pool)@ == set_lst_input_apply(old(pool)@, lst_index, true),
        },
        old(pool)@.inv() ==> final(pool)@.inv(),
{
    set_lst_input(pool, manager, lst_index, mint, true)
}

/// Re-enables an LST as a swap input.
pub fn enable_lst_input(pool: &mut Pool, manager: AccountView, lst_index: u32, mint: Pubkey) -> (r:
    Result<(), ProgError>)
    ensures
        match set_lst_input_err(old(pool)@, manager, lst_index, mint) {
            Some(e) => r == Err::<(), ProgError>(e) && final(pool)@ == old(pool)@,
            None => r is Ok && final(pool)@ == set_lst_input_apply(old(pool)@, lst_index, false),
        },
        old(pool)@.inv() ==> final(pool)@.inv(),
{
    set_lst_input(pool, manager, lst_index, mint, false)
}

fn set_lst_input(
    pool: &mut Pool,
    manager: AccountView,
    lst_index: u32,
    mint: Pubkey,
    disabled: bool,
) -> (r: Result<(), ProgError>)
    ensures
        match set_lst_input_err(old(pool)@, manager, lst_index, mint) {
            Some(e) => r == Err::<(), ProgError>(e) && final(pool)@ == old(pool)@,
            None => r is Ok && final(pool)@ == set_lst_input_apply(
                old(pool)@, lst_index, disabled,
            ),
        },
        old(pool)@.inv() ==> final(pool)@.inv(),
{
    if manager.key != pool.state.admin {
        return Err(ProgError::WrongAccount(manager.key, pool.state.admin));
    }
    if !manager.is_signer {
        return Err(ProgError::Privilege(PrivilegeError::NotSigner(manager.key)));
    }
    let i = lst_index as usize;
    if i >= pool.lst_states.len() {
        return Err(ProgError::Controller(SControllerError::InvalidLstIndex));
    }
    if pool.lst_states[i].mint != mint {
        return Err(ProgError::Controller(SControllerError::IncorrectLstMint));
    }
    let e0 = pool.lst_states[i];
    let e = LstState {
        mint: e0.mint,
        sol_value: e0.sol_value,
        is_input_disabled: disabled,
        pool_reserves_bump: e0.pool_reserves_bump,
        sol_value_calculator: e0.sol_value_calculator,
    };
    pool.lst_states.set(i, e);
    proof {
        let l = old(pool)@.lst_states;
        let l2 = final(pool)@.lst_states;
        if old(pool)@.inv() {
            lemma_sum_update(l, i as int, e);
            assert(mints_unique(l2)) by {
                assert forall|a: int, b: int| 0 <= a < b < l2.len() implies l2[a].mint
                    != l2[b].mint by {
                    assert(l[a].mint != l[b].mint);
                }
            }
        }
    }
    Ok(())
}

// ---------------------------------------------------------------------------
// set_admin

/// The pool after replacing the admin.
pub open spec fn set_admin_apply(v: PoolView, new_admin: Pubkey) -> PoolView {
    PoolView {
        state: PoolState { admin: new_admin, ..v.state },
        lst_states: v.lst_states,
        reserves: v.reserves,
    }
}

/// Replaces the pool admin. Only the current admin, signing, may do so.
pub fn set_admin(pool: &mut Pool, current_admin: AccountView, new_admin: Pubkey) -> (r: Result<
    (),
    ProgError,
>)
    ensures
        match manager_err(old(pool)@, current_admin) {
            Some(e) => r == Err::<(), ProgError>(e) && final(pool)@ == old(pool)@,
            None => r is Ok && final(pool)@ == set_admin_apply(old(pool)@, new_admin),
        },
        old(pool)@.inv() ==> final(pool)@.inv(),
{
    if current_admin.key != pool.state.admin {
        return Err(ProgError::WrongAccount(current_admin.key, pool.state.admin));
    }
    if !current_admin.is_signer {
        return Err(ProgError::Privilege(PrivilegeError::NotSigner(current_admin.key)));
    }
    pool.state.admin = new_admin;
    Ok(())
}

// ---------------------------------------------------------------------------
// SOL value synchronization.

/// Why folding a calculator result into the entry at `lst_index` fails, if
/// it does: the index must be in range and the aggregate arithmetic must
/// stay within 64 bits.
pub open spec fn sync_sol_value_err(v: PoolView, lst_index: int, returned: U64ValueRange) -> Option<
    SControllerError,
> {
    if !(0 <= lst_index < v.lst_states.len()) {
        Some(SControllerError::InvalidLstIndex)
    } else if v.state.total_sol_value < v.lst_states[lst_index].sol_value {
        Some(SControllerError::MathError)
    } else if v.state.total_sol_value - v.lst_states[lst_index].sol_value + returned.min
        > u64::MAX {
        Some(SControllerError::MathError)
    } else {
        None
    }
}

/// The pool after folding a calculator result into the entry at
/// `lst_index`: the entry takes the conservative lower end of the returned
/// range, and the aggregate moves by the same difference.
pub open spec fn sync_sol_value_apply(
    v: PoolView,
    lst_index: int,
    returned: U64ValueRange,
) -> PoolView {
    let e = v.lst_states[lst_index];
    PoolView {
        state: PoolState {
            total_sol_value: (v.state.total_sol_value - e.sol_value + returned.min) as u64,
            ..v.state
        },
        lst_states: v.lst_states.update(
            lst_index,
            LstState {
                mint: e.mint,
                sol_value: returned.min,
                is_input_disabled: e.is_input_disabled,
                pool_reserves_bump: e.pool_reserves_bump,
                sol_value_calculator: e.sol_value_calculator,
            },
        ),
        reserves: v.reserves,
    }
}

/// Folds a calculator's value range for the entry at `lst_index` into the
/// pool, crediting the conservative lower end. "Unchecked" because account
/// authorization is its callers' duty; the index and the arithmetic are
/// still checked.
pub fn sync_sol_value_unchecked(pool: &mut Pool, lst_index: usize, returned: U64ValueRange) -> (r:
    Result<(), ProgError>)
    ensures
        match sync_sol_value_err(old(pool)@, lst_index as int, returned) {
            Some(e) => r == Err::<(), ProgError>(ProgError::Controller(e)) && final(pool)@ == old(
                pool,
            )@,
            None => r is Ok && final(pool)@ == sync_sol_value_apply(
                old(pool)@, lst_index as int, returned,
            ),
        },
        old(pool)@.inv() ==> final(pool)@.inv(),
{
    if lst_index >= pool.lst_states.len() {
        return Err(ProgError::Controller(SControllerError::InvalidLstIndex));
    }
    let e0 = pool.lst_states[lst_index];
    if pool.state.total_sol_value < e0.sol_value {
        return Err(ProgError::Controller(SControllerError::MathError));
    }
    let reduced: u64 = pool.state.total_sol_value - e0.sol_value;
    if reduced > u64::MAX - returned.min {
        return Err(ProgError::Controller(SControllerError::MathError));
    }
    pool.state.total_sol_value = reduced + returned.min;
    let e = LstState {
        mint: e0.mint,
        sol_value: returned.min,
        is_input_disabled: e0.is_input_disabled,
        pool_reserves_bump: e0.pool_reserves_bump,
        sol_value_calculator: e0.sol_value_calculator,
    };
    pool.lst_states.set(lst_index, e);
    proof {
        let l = old(pool)@.lst_states;
        let l2 = final(pool)@.lst_states;
        if old(pool)@.inv() {
            lemma_sum_update(l, lst_index as int, e);
            assert(mints_unique(l2)) by {
                assert forall|a: int, b: int| 0 <= a < b < l2.len() implies l2[a].mint
                    != l2[b].mint by {
                    assert(l[a].mint != l[b].mint);
                }
            }
        }
    }
    Ok(())
}

} // verus!
