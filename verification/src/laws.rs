//! The library's laws: statements that hold across whole sequences of
//! operations, proved over the same spec-level transitions that the
//! executable operations are specified against.

use vstd::prelude::*;

use crate::accounts::{AccountView, InstructionView};
use crate::controller::rebalance::{
    end_rebalance_result, has_succeeding_end_rebalance_ix, start_rebalance_result,
    EndRebalanceAccounts, StartRebalanceAccounts, StartRebalanceIxArgs,
};
use crate::controller::registry::{
    add_lst_apply, add_lst_err, remove_lst_apply, remove_lst_err, sync_sol_value_apply,
    sync_sol_value_err,
};
use crate::controller::state::{
    has_mint, lemma_sum_push, lemma_sum_remove, lemma_sum_update, mints_unique, sum_sol_values,
    PoolView, RebalanceRecord,
};
use crate::pubkey::Pubkey;
use crate::value_range::U64ValueRange;

verus! {

// ---------------------------------------------------------------------------
// Registry sequences.

/// One add- or remove-LST request, with the account that authorized it.
#[derive(Clone, Copy, Debug)]
pub enum RegistryOp {
    Add { manager: AccountView, mint: Pubkey, sol_value_calculator: Pubkey, pool_reserves_bump: u8 },
    Remove { manager: AccountView, lst_index: u32, mint: Pubkey },
}

/// What one registry request does to the pool: exactly what `add_lst` and
/// `remove_lst` do, including that a failed request leaves the pool
/// unchanged.
pub open spec fn apply_registry_op(v: PoolView, op: RegistryOp) -> PoolView {
    match op {
        RegistryOp::Add { manager, mint, sol_value_calculator, pool_reserves_bump } => if add_lst_err(
            v, manager, mint,
        ) is None {
            add_lst_apply(v, mint, sol_value_calculator, pool_reserves_bump)
        } else {
            v
        },
        RegistryOp::Remove { manager, lst_index, mint } => if remove_lst_err(
            v, manager, lst_index, mint,
        ) is None {
            remove_lst_apply(v, lst_index)
        } else {
            v
        },
    }
}

/// The pool after a whole sequence of registry requests.
pub open spec fn apply_registry_ops(v: PoolView, ops: Seq<RegistryOp>) -> PoolView
    decreases ops.len(),
{
    if ops.len() == 0 {
        v
    } else {
        apply_registry_ops(apply_registry_op(v, ops[0]), ops.drop_first())
    }
}

/// One registry request preserves the pool invariant: in particular no two
/// entries ever carry the same mint, and outside a rebalance the recorded
/// aggregate stays equal to the sum of the per-LST SOL values.
pub proof fn lemma_registry_op_preserves_inv(v: PoolView, op: RegistryOp)
    requires
        v.inv(),
    ensures
        apply_registry_op(v, op).inv(),
{
    let v2 = apply_registry_op(v, op);
    match op {
        RegistryOp::Add { manager, mint, sol_value_calculator, pool_reserves_bump } => {
            if add_lst_err(v, manager, mint) is None {
                let e = v2.lst_states[v.lst_states.len() as int];
                lemma_sum_push(v.lst_states, e);
                assert(mints_unique(v2.lst_states)) by {
                    let l2 = v2.lst_states;
                    assert forall|i: int, j: int| 0 <= i < j < l2.len() implies l2[i].mint
                        != l2[j].mint by {
                        if j < l2.len() - 1 {
                            assert(v.lst_states[i].mint != v.lst_states[j].mint);
                        } else {
                            assert(!has_mint(v.lst_states, mint));
                            assert(v.lst_states[i].mint != mint);
                        }
                    }
                }
            }
        },
        RegistryOp::Remove { manager, lst_index, mint } => {
            if remove_lst_err(v, manager, lst_index, mint) is None {
                let l = v.lst_states;
                let i = lst_index as int;
                lemma_sum_remove(l, i);
                assert(mints_unique(v2.lst_states)) by {
                    let l2 = v2.lst_states;
                    assert forall|a: int, b: int| 0 <= a < b < l2.len() implies l2[a].mint
                        != l2[b].mint by {
                        let a0: int = if a < i { a } else { a + 1 };
                        let b0: int = if b < i { b } else { b + 1 };
                        assert(l2[a] == l[a0] && l2[b] == l[b0]);
                    }
                }
            }
        },
    }
}

/// For all sequences of add/remove-LST requests starting from a valid pool:
/// the registry never contains two entries with the same mint, and the
/// recorded aggregate SOL value equals the sum of the per-LST SOL values at
/// every point outside an in-progress rebalance.
pub proof fn lemma_registry_ops_preserve_inv(v: PoolView, ops: Seq<RegistryOp>)
    requires
        v.inv(),
    ensures
        apply_registry_ops(v, ops).inv(),
    decreases ops.len(),
{
    if ops.len() > 0 {
        lemma_registry_op_preserves_inv(v, ops[0]);
        lemma_registry_ops_preserve_inv(apply_registry_op(v, ops[0]), ops.drop_first());
    }
}

/// Removing an LST whose SOL value and reserves are both zero, with the
/// signing manager and a resolving index/mint pair, always succeeds, and
/// the mint then no longer appears anywhere in the registry.
pub proof fn lemma_remove_zero_succeeds(
    v: PoolView,
    manager: AccountView,
    lst_index: u32,
    mint: Pubkey,
)
    requires
        v.wf(),
        manager.key == v.state.admin,
        manager.is_signer,
        lst_index < v.lst_states.len(),
        v.lst_states[lst_index as int].mint == mint,
        v.lst_states[lst_index as int].sol_value == 0,
        v.reserves[lst_index as int] == 0,
    ensures
        remove_lst_err(v, manager, lst_index, mint) is None,
        !has_mint(remove_lst_apply(v, lst_index).lst_states, mint),
{
    let l = v.lst_states;
    let i = lst_index as int;
    let l2 = remove_lst_apply(v, lst_index).lst_states;
    assert forall|j: int| 0 <= j < l2.len() implies l2[j].mint != mint by {
        let j0: int = if j < i { j } else { j + 1 };
        assert(l2[j] == l[j0]);
        if j0 != i {
            assert(l[j0].mint != l[i].mint);
        }
    }
}

// ---------------------------------------------------------------------------
// The rebalance protocol.

/// `start_rebalance` always fails while a rebalance is already in progress.
pub proof fn lemma_start_rebalance_requires_idle(
    v: PoolView,
    accounts: StartRebalanceAccounts,
    args: StartRebalanceIxArgs,
    suffix: Seq<AccountView>,
    ixs: Seq<InstructionView>,
    current_ix_index: int,
    src_sync_pre: U64ValueRange,
    dst_sync: U64ValueRange,
    src_sync_post: U64ValueRange,
)
    requires
        v.state.is_rebalancing,
    ensures
        start_rebalance_result(
            v, accounts, args, suffix, ixs, current_ix_index, src_sync_pre, dst_sync,
            src_sync_post,
        ) is Err,
{
}

/// `start_rebalance` always fails when no matching end-rebalance
/// instruction follows it in the same transaction.
pub proof fn lemma_start_rebalance_requires_succeeding_end(
    v: PoolView,
    accounts: StartRebalanceAccounts,
    args: StartRebalanceIxArgs,
    suffix: Seq<AccountView>,
    ixs: Seq<InstructionView>,
    current_ix_index: int,
    src_sync_pre: U64ValueRange,
    dst_sync: U64ValueRange,
    src_sync_post: U64ValueRange,
)
    requires
        !has_succeeding_end_rebalance_ix(ixs, current_ix_index),
    ensures
        start_rebalance_result(
            v, accounts, args, suffix, ixs, current_ix_index, src_sync_pre, dst_sync,
            src_sync_post,
        ) is Err,
{
}

/// `end_rebalance` fails whenever the aggregate SOL value after the
/// destination sync sits more than the tolerated drift below the value
/// recorded at `start_rebalance`.
pub proof fn lemma_end_rebalance_drift(
    v: PoolView,
    accounts: EndRebalanceAccounts,
    record: RebalanceRecord,
    dst_sync: U64ValueRange,
)
    requires
        sync_sol_value_err(v, record.dst_lst_index as int, dst_sync) is None ==> sync_sol_value_apply(
            v, record.dst_lst_index as int, dst_sync,
        ).state.total_sol_value + crate::controller::rebalance::TOLERATED_SOL_VALUE_DRIFT
            < record.old_total_sol_value,
    ensures
        end_rebalance_result(v, accounts, record, dst_sync) is Err,
{
}

/// After a successful start/end rebalance pair the pool is idle again, and
/// — when the pool satisfied its invariant at the start — valid: the
/// aggregate SOL value again equals the sum of the per-LST SOL values. The
/// rebalance record created by the first phase is consumed by the second.
pub proof fn lemma_rebalance_pair(
    v: PoolView,
    accounts: StartRebalanceAccounts,
    args: StartRebalanceIxArgs,
    suffix: Seq<AccountView>,
    ixs: Seq<InstructionView>,
    current_ix_index: int,
    src_sync_pre: U64ValueRange,
    dst_sync: U64ValueRange,
    src_sync_post: U64ValueRange,
    p1: PoolView,
    rec: RebalanceRecord,
    end_accounts: EndRebalanceAccounts,
    end_dst_sync: U64ValueRange,
    p2: PoolView,
)
    requires
        v.inv(),
        start_rebalance_result(
            v, accounts, args, suffix, ixs, current_ix_index, src_sync_pre, dst_sync,
            src_sync_post,
        ) == Ok::<(PoolView, RebalanceRecord), crate::errors::ProgError>((p1, rec)),
        end_rebalance_result(p1, end_accounts, rec, end_dst_sync) == Ok::<
            PoolView,
            crate::errors::ProgError,
        >(p2),
    ensures
        p1.state.is_rebalancing,
        !p2.state.is_rebalancing,
        p2.inv(),
{
    let si = args.src_lst_index as int;
    let di = args.dst_lst_index as int;
    // The first phase keeps the aggregate equal to the sum even while the
    // rebalancing flag is set: each sync moves both by the same difference
    // and the reserve transfer moves neither.
    let v1 = sync_sol_value_apply(v, si, src_sync_pre);
    lemma_sum_update(v.lst_states, si, v1.lst_states[si]);
    let v2 = sync_sol_value_apply(v1, di, dst_sync);
    lemma_sum_update(v1.lst_states, di, v2.lst_states[di]);
    let v3 = PoolView {
        state: v2.state,
        lst_states: v2.lst_states,
        reserves: v2.reserves.update(si, (v2.reserves[si] - args.amount) as u64),
    };
    let v4 = sync_sol_value_apply(v3, si, src_sync_post);
    lemma_sum_update(v3.lst_states, si, v4.lst_states[si]);
    assert(p1.state.total_sol_value == sum_sol_values(p1.lst_states));
    assert(mints_unique(p1.lst_states)) by {
        assert forall|a: int, b: int| 0 <= a < b < p1.lst_states.len() implies p1.lst_states[
            a
        ].mint != p1.lst_states[b].mint by {
            assert(v.lst_states[a].mint != v.lst_states[b].mint);
        }
    }
    // The second phase syncs once more and clears the flag.
    let w1 = sync_sol_value_apply(p1, rec.dst_lst_index as int, end_dst_sync);
    lemma_sum_update(p1.lst_states, rec.dst_lst_index as int, w1.lst_states[
        rec.dst_lst_index as int
    ]);
    assert(mints_unique(p2.lst_states)) by {
        assert forall|a: int, b: int| 0 <= a < b < p2.lst_states.len() implies p2.lst_states[
            a
        ].mint != p2.lst_states[b].mint by {
            assert(p1.lst_states[a].mint != p1.lst_states[b].mint);
        }
    }
}

} // verus!
