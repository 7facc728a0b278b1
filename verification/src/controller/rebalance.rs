//! The two-phase rebalance protocol: `Idle -> Rebalancing -> Idle`.
//!
//! `start_rebalance` re-synchronizes both LSTs, records the aggregate SOL
//! value, moves reserves of the source LST out to a withdrawal destination,
//! and sets the rebalancing flag — but only after verifying every supplied
//! account against a fresh derivation, and only when a matching
//! `end_rebalance` instruction follows later in the same transaction, so the
//! host's transaction atomicity bounds the whole operation.
//! `end_rebalance` re-synchronizes the destination LST (now larger from the
//! external deposit made between the phases), refuses to commit if the
//! aggregate fell more than the tolerated drift below the recorded value,
//! and clears the flag.

use vstd::prelude::*;

use crate::accounts::{AccountView, InstructionView};
use crate::controller::registry::{sync_sol_value_apply, sync_sol_value_err, sync_sol_value_unchecked};
use crate::controller::state::{
    lemma_sum_update, sum_sol_values, LstState, Pool, PoolState, PoolView, RebalanceRecord,
};
use crate::errors::{PrivilegeError, ProgError, SControllerError};
use crate::pda::{
    find_lst_state_list_address, find_pool_reserves_address, find_pool_state_address,
    find_rebalance_record_address, lst_state_list_pda, pool_reserves_pda, pool_state_pda,
    rebalance_record_pda,
};
use crate::pubkey::{
    instructions_sysvar_id, spec_controller_program_id, spec_instructions_sysvar_id,
    spec_system_program_id, spec_token_program_id, system_program_id, token_program_id, Pubkey,
};
use crate::value_range::U64ValueRange;

verus! {

/// Discriminant byte of the controller's start-rebalance instruction.
pub const START_REBALANCE_IX_DISCM: u8 = 16;

/// Discriminant byte of the controller's end-rebalance instruction.
pub const END_REBALANCE_IX_DISCM: u8 = 17;

/// How many SOL-value units the aggregate may fall below the value recorded
/// at `start_rebalance` before `end_rebalance` refuses to commit.
pub const TOLERATED_SOL_VALUE_DRIFT: u64 = 0;

// ---------------------------------------------------------------------------
// Instruction introspection.

/// Whether `ix` is an end-rebalance instruction of this controller: its
/// data's leading discriminant byte and its program id both match.
pub open spec fn spec_is_end_rebalance_ix(ix: InstructionView) -> bool {
    &&& ix.data@.len() > 0
    &&& ix.data@[0] == END_REBALANCE_IX_DISCM
    &&& ix.program_id == spec_controller_program_id()
}

pub fn is_end_rebalance_ix(ix: &InstructionView) -> (r: bool)
    ensures
        r == spec_is_end_rebalance_ix(*ix),
{
    let n: usize = ix.data.len();
    if n == 0 {
        return false;
    }
    if ix.data[0] != END_REBALANCE_IX_DISCM {
        return false;
    }
    if ix.program_id != crate::pubkey::controller_program_id() {
        return false;
    }
    true
}

/// Some instruction after `current_index` is an end-rebalance instruction.
pub open spec fn has_succeeding_end_rebalance_ix(ixs: Seq<InstructionView>, current_index: int)
    -> bool {
    exists|i: int|
        current_index < i < ixs.len() && spec_is_end_rebalance_ix(#[trigger] ixs[i])
}

/// Scans the instructions after the current one for a matching
/// end-rebalance instruction; fails when none is found.
pub fn verify_has_succeeding_end_rebalance_ix(
    ixs: &Vec<InstructionView>,
    current_index: usize,
) -> (r: Result<(), SControllerError>)
    ensures
        r is Ok <==> has_succeeding_end_rebalance_ix(ixs@, current_index as int),
        r matches Err(e) ==> e == SControllerError::NoSucceedingEndRebalance,
{
    let n: usize = ixs.len();
    if current_index >= n {
        return Err(SControllerError::NoSucceedingEndRebalance);
    }
    let mut j: usize = current_index + 1;
    while j < n
        invariant
            n == ixs@.len(),
            current_index < j,
            forall|m: int|
                current_index < m < j ==> !spec_is_end_rebalance_ix(#[trigger] ixs@[m]),
        decreases n - j,
    {
        if is_end_rebalance_ix(&ixs[j]) {
            return Ok(());
        }
        j += 1;
    }
    Err(SControllerError::NoSucceedingEndRebalance)
}

// ---------------------------------------------------------------------------
// Account lists.

/// Arguments of a start-rebalance instruction: how many of the trailing
/// calculator accounts belong to the source LST, the two registry indexes,
/// and the amount of source reserves to move out.
#[derive(Clone, Copy, Debug, PartialEq, Eq, Structural)]
pub struct StartRebalanceIxArgs {
    pub src_lst_calc_accs: u8,
    pub src_lst_index: u32,
    pub dst_lst_index: u32,
    pub amount: u64,
}

/// The two registry indexes a rebalance touches.
#[derive(Clone, Copy, Debug, PartialEq, Eq, Structural)]
pub struct SrcDstLstIndexes {
    pub src_lst_index: usize,
    pub dst_lst_index: usize,
}

/// The fixed accounts of a start-rebalance instruction, as supplied.
#[derive(Clone, Copy, Debug, PartialEq, Eq, Structural)]
pub struct StartRebalanceAccounts {
    pub payer: AccountView,
    pub withdraw_to: AccountView,
    pub lst_state_list: AccountView,
    pub pool_state: AccountView,
    pub src_lst_mint: AccountView,
    pub dst_lst_mint: AccountView,
    pub src_pool_reserves: AccountView,
    pub dst_pool_reserves: AccountView,
    pub src_lst_token_program: AccountView,
    pub rebalance_record: AccountView,
    pub instructions_sysvar: AccountView,
    pub system_program: AccountView,
}

/// The expected addresses of those accounts.
#[derive(Clone, Copy, Debug, PartialEq, Eq, Structural)]
pub struct StartRebalanceKeys {
    pub payer: Pubkey,
    pub withdraw_to: Pubkey,
    pub lst_state_list: Pubkey,
    pub pool_state: Pubkey,
    pub src_lst_mint: Pubkey,
    pub dst_lst_mint: Pubkey,
    pub src_pool_reserves: Pubkey,
    pub dst_pool_reserves: Pubkey,
    pub src_lst_token_program: Pubkey,
    pub rebalance_record: Pubkey,
    pub instructions_sysvar: Pubkey,
    pub system_program: Pubkey,
}

/// The first supplied/expected address pair that disagrees, if any.
pub open spec fn start_rebalance_keys_err(
    a: StartRebalanceAccounts,
    k: StartRebalanceKeys,
) -> Option<(Pubkey, Pubkey)> {
    if a.payer.key != k.payer {
        Some((a.payer.key, k.payer))
    } else if a.withdraw_to.key != k.withdraw_to {
        Some((a.withdraw_to.key, k.withdraw_to))
    } else if a.lst_state_list.key != k.lst_state_list {
        Some((a.lst_state_list.key, k.lst_state_list))
    } else if a.pool_state.key != k.pool_state {
        Some((a.pool_state.key, k.pool_state))
    } else if a.src_lst_mint.key != k.src_lst_mint {
        Some((a.src_lst_mint.key, k.src_lst_mint))
    } else if a.dst_lst_mint.key != k.dst_lst_mint {
        Some((a.dst_lst_mint.key, k.dst_lst_mint))
    } else if a.src_pool_reserves.key != k.src_pool_reserves {
        Some((a.src_pool_reserves.key, k.src_pool_reserves))
    } else if a.dst_pool_reserves.key != k.dst_pool_reserves {
        Some((a.dst_pool_reserves.key, k.dst_pool_reserves))
    } else if a.src_lst_token_program.key != k.src_lst_token_program {
        Some((a.src_lst_token_program.key, k.src_lst_token_program))
    } else if a.rebalance_record.key != k.rebalance_record {
        Some((a.rebalance_record.key, k.rebalance_record))
    } else if a.instructions_sysvar.key != k.instructions_sysvar {
        Some((a.instructions_sysvar.key, k.instructions_sysvar))
    } else if a.system_program.key != k.system_program {
        Some((a.system_program.key, k.system_program))
    } else {
        None
    }
}

/// Compares every supplied address against its expected value, failing with
/// the first `(actual, expected)` mismatch.
pub fn start_rebalance_verify_account_keys(
    accounts: &StartRebalanceAccounts,
    keys: &StartRebalanceKeys,
) -> (r: Result<(), (Pubkey, Pubkey)>)
    ensures
        match start_rebalance_keys_err(*accounts, *keys) {
            Some(p) => r == Err::<(), (Pubkey, Pubkey)>(p),
            None => r is Ok,
        },
{
    if accounts.payer.key != keys.payer {
        return Err((accounts.payer.key, keys.payer));
    }
    if accounts.withdraw_to.key != keys.withdraw_to {
        return Err((accounts.withdraw_to.key, keys.withdraw_to));
    }
    if accounts.lst_state_list.key != keys.lst_state_list {
        return Err((accounts.lst_state_list.key, keys.lst_state_list));
    }
    if accounts.pool_state.key != keys.pool_state {
        return Err((accounts.pool_state.key, keys.pool_state));
    }
    if accounts.src_lst_mint.key != keys.src_lst_mint {
        return Err((accounts.src_lst_mint.key, keys.src_lst_mint));
    }
    if accounts.dst_lst_mint.key != keys.dst_lst_mint {
        return Err((accounts.dst_lst_mint.key, keys.dst_lst_mint));
    }
    if accounts.src_pool_reserves.key != keys.src_pool_reserves {
        return Err((accounts.src_pool_reserves.key, keys.src_pool_reserves));
    }
    if accounts.dst_pool_reserves.key != keys.dst_pool_reserves {
        return Err((accounts.dst_pool_reserves.key, keys.dst_pool_reserves));
    }
    if accounts.src_lst_token_program.key != keys.src_lst_token_program {
        return Err((accounts.src_lst_token_program.key, keys.src_lst_token_program));
    }
    if accounts.rebalance_record.key != keys.rebalance_record {
        return Err((accounts.rebalance_record.key, keys.rebalance_record));
    }
    if accounts.instructions_sysvar.key != keys.instructions_sysvar {
        return Err((accounts.instructions_sysvar.key, keys.instructions_sysvar));
    }
    if accounts.system_program.key != keys.system_program {
        return Err((accounts.system_program.key, keys.system_program));
    }
    Ok(())
}

/// The first missing privilege, if any: the mutated accounts must be
/// writable, and the payer must sign.
pub open spec fn start_rebalance_privileges_err(a: StartRebalanceAccounts) -> Option<
    PrivilegeError,
> {
    if !a.payer.is_writable {
        Some(PrivilegeError::NotWritable(a.payer.key))
    } else if !a.withdraw_to.is_writable {
        Some(PrivilegeError::NotWritable(a.withdraw_to.key))
    } else if !a.lst_state_list.is_writable {
        Some(PrivilegeError::NotWritable(a.lst_state_list.key))
    } else if !a.pool_state.is_writable {
        Some(PrivilegeError::NotWritable(a.pool_state.key))
    } else if !a.src_pool_reserves.is_writable {
        Some(PrivilegeError::NotWritable(a.src_pool_reserves.key))
    } else if !a.dst_pool_reserves.is_writable {
        Some(PrivilegeError::NotWritable(a.dst_pool_reserves.key))
    } else if !a.rebalance_record.is_writable {
        Some(PrivilegeError::NotWritable(a.rebalance_record.key))
    } else if !a.payer.is_signer {
        Some(PrivilegeError::NotSigner(a.payer.key))
    } else {
        None
    }
}

/// Verifies writable and signer privileges, failing with the first missing
/// one.
pub fn start_rebalance_verify_account_privileges(accounts: &StartRebalanceAccounts) -> (r: Result<
    (),
    PrivilegeError,
>)
    ensures
        match start_rebalance_privileges_err(*accounts) {
            Some(e) => r == Err::<(), PrivilegeError>(e),
            None => r is Ok,
        },
{
    if !accounts.payer.is_writable {
        return Err(PrivilegeError::NotWritable(accounts.payer.key));
    }
    if !accounts.withdraw_to.is_writable {
        return Err(PrivilegeError::NotWritable(accounts.withdraw_to.key));
    }
    if !accounts.lst_state_list.is_writable {
        return Err(PrivilegeError::NotWritable(accounts.lst_state_list.key));
    }
    if !accounts.pool_state.is_writable {
        return Err(PrivilegeError::NotWritable(accounts.pool_state.key));
    }
    if !accounts.src_pool_reserves.is_writable {
        return Err(PrivilegeError::NotWritable(accounts.src_pool_reserves.key));
    }
    if !accounts.dst_pool_reserves.is_writable {
        return Err(PrivilegeError::NotWritable(accounts.dst_pool_reserves.key));
    }
    if !accounts.rebalance_record.is_writable {
        return Err(PrivilegeError::NotWritable(accounts.rebalance_record.key));
    }
    if !accounts.payer.is_signer {
        return Err(PrivilegeError::NotSigner(accounts.payer.key));
    }
    Ok(())
}

// ---------------------------------------------------------------------------
// Resolution of the expected keys.

/// The free (caller-chosen) inputs from which the expected account list of a
/// start-rebalance instruction is resolved.
#[derive(Clone, Copy, Debug, PartialEq, Eq, Structural)]
pub struct StartRebalanceFreeArgs {
    pub payer: Pubkey,
    pub withdraw_to: Pubkey,
    pub src_lst_index: u32,
    pub dst_lst_index: u32,
}

/// The expected keys resolved from the free inputs and the registry, or why
/// resolution fails: an out-of-range index, or a seed set for which no
/// address can be derived.
pub open spec fn start_rebalance_resolve(
    args: StartRebalanceFreeArgs,
    l: Seq<LstState>,
) -> Result<StartRebalanceKeys, ProgError> {
    if args.src_lst_index >= l.len() || args.dst_lst_index >= l.len() {
        Err(ProgError::Controller(SControllerError::InvalidLstIndex))
    } else {
        let src_mint = l[args.src_lst_index as int].mint;
        let dst_mint = l[args.dst_lst_index as int].mint;
        match pool_state_pda() {
            Option::None => Err(ProgError::Controller(SControllerError::UnderivableAddress)),
            Option::Some(ps) => match lst_state_list_pda() {
                Option::None => Err(
                    ProgError::Controller(SControllerError::UnderivableAddress),
                ),
                Option::Some(ll) => match rebalance_record_pda() {
                    Option::None => Err(
                        ProgError::Controller(SControllerError::UnderivableAddress),
                    ),
                    Option::Some(rr) => match pool_reserves_pda(ps.0, src_mint) {
                        Option::None => Err(
                            ProgError::Controller(SControllerError::UnderivableAddress),
                        ),
                        Option::Some(srs) => match pool_reserves_pda(ps.0, dst_mint) {
                            Option::None => Err(
                                ProgError::Controller(SControllerError::UnderivableAddress),
                            ),
                            Option::Some(drs) => Ok(
                                StartRebalanceKeys {
                                    payer: args.payer,
                                    withdraw_to: args.withdraw_to,
                                    lst_state_list: ll.0,
                                    pool_state: ps.0,
                                    src_lst_mint: src_mint,
                                    dst_lst_mint: dst_mint,
                                    src_pool_reserves: srs.0,
                                    dst_pool_reserves: drs.0,
                                    src_lst_token_program: spec_token_program_id(),
                                    rebalance_record: rr.0,
                                    instructions_sysvar: spec_instructions_sysvar_id(),
                                    system_program: spec_system_program_id(),
                                },
                            ),
                        },
                    },
                },
            },
        }
    }
}

impl StartRebalanceFreeArgs {
    /// Resolves the expected account list: indexes are bounds-checked
    /// against the registry, every derived address is freshly recomputed.
    pub fn resolve(&self, lst_states: &Vec<LstState>) -> (r: Result<StartRebalanceKeys, ProgError>)
        ensures
            r == start_rebalance_resolve(*self, lst_states@),
    {
        let n: usize = lst_states.len();
        if self.src_lst_index as usize >= n || self.dst_lst_index as usize >= n {
            return Err(ProgError::Controller(SControllerError::InvalidLstIndex));
        }
        let src_mint = lst_states[self.src_lst_index as usize].mint;
        let dst_mint = lst_states[self.dst_lst_index as usize].mint;
        let ps = match find_pool_state_address() {
            Some(p) => p,
            None => {
                return Err(ProgError::Controller(SControllerError::UnderivableAddress));
            },
        };
        let ll = match find_lst_state_list_address() {
            Some(p) => p,
            None => {
                return Err(ProgError::Controller(SControllerError::UnderivableAddress));
            },
        };
        let rr = match find_rebalance_record_address() {
            Some(p) => p,
            None => {
                return Err(ProgError::Controller(SControllerError::UnderivableAddress));
            },
        };
        let srs = match find_pool_reserves_address(&ps.0, &src_mint) {
            Some(p) => p,
            None => {
                return Err(ProgError::Controller(SControllerError::UnderivableAddress));
            },
        };
        let drs = match find_pool_reserves_address(&ps.0, &dst_mint) {
            Some(p) => p,
            None => {
                return Err(ProgError::Controller(SControllerError::UnderivableAddress));
            },
        };
        Ok(
            StartRebalanceKeys {
                payer: self.payer,
                withdraw_to: self.withdraw_to,
                lst_state_list: ll.0,
                pool_state: ps.0,
                src_lst_mint: src_mint,
                dst_lst_mint: dst_mint,
                src_pool_reserves: srs.0,
                dst_pool_reserves: drs.0,
                src_lst_token_program: token_program_id(),
                rebalance_record: rr.0,
                instructions_sysvar: instructions_sysvar_id(),
                system_program: system_program_id(),
            },
        )
    }
}

// ---------------------------------------------------------------------------
// Verification of a start-rebalance request.

/// Why the verification phase of `start_rebalance` fails, if it does:
/// resolution of the expected keys, the key comparison, the privilege
/// check, the pool and destination state preconditions, the calculator
/// account check, and the scan for a succeeding end-rebalance instruction,
/// in that order.
pub open spec fn start_rebalance_verify_err(
    v: PoolView,
    accounts: StartRebalanceAccounts,
    args: StartRebalanceIxArgs,
    suffix: Seq<AccountView>,
    ixs: Seq<InstructionView>,
    current_ix_index: int,
) -> Option<ProgError> {
    let free = StartRebalanceFreeArgs {
        payer: accounts.payer.key,
        withdraw_to: accounts.withdraw_to.key,
        src_lst_index: args.src_lst_index,
        dst_lst_index: args.dst_lst_index,
    };
    match start_rebalance_resolve(free, v.lst_states) {
        Err(e) => Some(e),
        Ok(keys) => match start_rebalance_keys_err(accounts, keys) {
            Option::Some(p) => Some(ProgError::WrongAccount(p.0, p.1)),
            Option::None => match start_rebalance_privileges_err(accounts) {
                Option::Some(pe) => Some(ProgError::Privilege(pe)),
                Option::None => {
                    let si = args.src_lst_index as int;
                    let di = args.dst_lst_index as int;
                    if v.state.is_rebalancing {
                        Some(ProgError::Controller(SControllerError::PoolRebalancing))
                    } else if v.state.is_disabled {
                        Some(ProgError::Controller(SControllerError::PoolDisabled))
                    } else if v.lst_states[di].is_input_disabled {
                        Some(ProgError::Controller(SControllerError::LstInputDisabled))
                    } else if args.src_lst_calc_accs == 0 || args.src_lst_calc_accs >= suffix.len() {
                        Some(ProgError::NotEnoughAccountKeys)
                    } else if suffix[0].key != v.lst_states[si].sol_value_calculator {
                        Some(ProgError::Controller(SControllerError::IncorrectSolValueCalculator))
                    } else if suffix[args.src_lst_calc_accs as int].key != v.lst_states[
                        di
                    ].sol_value_calculator {
                        Some(ProgError::Controller(SControllerError::IncorrectSolValueCalculator))
                    } else if !has_succeeding_end_rebalance_ix(ixs, current_ix_index) {
                        Some(ProgError::Controller(SControllerError::NoSucceedingEndRebalance))
                    } else {
                        None
                    }
                },
            },
        },
    }
}

/// Verification phase of `start_rebalance`: resolves the expected account
/// list from the registry, compares every supplied account and privilege,
/// checks the pool and destination preconditions and the supplied
/// calculator programs, and requires a succeeding end-rebalance
/// instruction. Mutates nothing; on success hands back the two checked
/// registry indexes.
pub fn verify_start_rebalance(
    pool: &Pool,
    accounts: &StartRebalanceAccounts,
    args: &StartRebalanceIxArgs,
    suffix: &Vec<AccountView>,
    ixs: &Vec<InstructionView>,
    current_ix_index: usize,
) -> (r: Result<SrcDstLstIndexes, ProgError>)
    ensures
        match start_rebalance_verify_err(
            pool@, *accounts, *args, suffix@, ixs@, current_ix_index as int,
        ) {
            Some(e) => r == Err::<SrcDstLstIndexes, ProgError>(e),
            None => r == Ok::<SrcDstLstIndexes, ProgError>(
                SrcDstLstIndexes {
                    src_lst_index: args.src_lst_index as usize,
                    dst_lst_index: args.dst_lst_index as usize,
                },
            ),
        },
        r is Ok ==> args.src_lst_index < pool.lst_states@.len() && args.dst_lst_index
            < pool.lst_states@.len(),
{
    let free = StartRebalanceFreeArgs {
        payer: accounts.payer.key,
        withdraw_to: accounts.withdraw_to.key,
        src_lst_index: args.src_lst_index,
        dst_lst_index: args.dst_lst_index,
    };
    let keys = match free.resolve(&pool.lst_states) {
        Ok(k) => k,
        Err(e) => {
            return Err(e);
        },
    };
    match start_rebalance_verify_account_keys(accounts, &keys) {
        Ok(_) => {},
        Err(p) => {
            return Err(ProgError::WrongAccount(p.0, p.1));
        },
    }
    match start_rebalance_verify_account_privileges(accounts) {
        Ok(_) => {},
        Err(pe) => {
            return Err(ProgError::Privilege(pe));
        },
    }
    if pool.state.is_rebalancing {
        return Err(ProgError::Controller(SControllerError::PoolRebalancing));
    }
    if pool.state.is_disabled {
        return Err(ProgError::Controller(SControllerError::PoolDisabled));
    }
    let si = args.src_lst_index as usize;
    let di = args.dst_lst_index as usize;
    if pool.lst_states[di].is_input_disabled {
        return Err(ProgError::Controller(SControllerError::LstInputDisabled));
    }
    if args.src_lst_calc_accs == 0 || args.src_lst_calc_accs as usize >= suffix.len() {
        return Err(ProgError::NotEnoughAccountKeys);
    }
    if suffix[0].key != pool.lst_states[si].sol_value_calculator {
        return Err(ProgError::Controller(SControllerError::IncorrectSolValueCalculator));
    }
    if suffix[args.src_lst_calc_accs as usize].key != pool.lst_states[di].sol_value_calculator {
        return Err(ProgError::Controller(SControllerError::IncorrectSolValueCalculator));
    }
    match verify_has_succeeding_end_rebalance_ix(ixs, current_ix_index) {
        Ok(_) => {},
        Err(e) => {
            return Err(ProgError::Controller(e));
        },
    }
    Ok(SrcDstLstIndexes { src_lst_index: si, dst_lst_index: di })
}

// ---------------------------------------------------------------------------
// The start-rebalance processor.

/// Everything `process_start_rebalance` does, as one function of its
/// inputs: either the error it fails with (leaving the pool untouched) or
/// the pool after the first phase together with the rebalance record it
/// creates. The three value ranges are what the source and destination
/// calculators returned for the reserve balances before the transfer, and
/// for the source again after it.
pub open spec fn start_rebalance_result(
    v: PoolView,
    accounts: StartRebalanceAccounts,
    args: StartRebalanceIxArgs,
    suffix: Seq<AccountView>,
    ixs: Seq<InstructionView>,
    current_ix_index: int,
    src_sync_pre: U64ValueRange,
    dst_sync: U64ValueRange,
    src_sync_post: U64ValueRange,
) -> Result<(PoolView, RebalanceRecord), ProgError> {
    match start_rebalance_verify_err(v, accounts, args, suffix, ixs, current_ix_index) {
        Option::Some(e) => Err(e),
        Option::None => {
            let si = args.src_lst_index as int;
            let di = args.dst_lst_index as int;
            match sync_sol_value_err(v, si, src_sync_pre) {
                Option::Some(e) => Err(ProgError::Controller(e)),
                Option::None => {
                    let v1 = sync_sol_value_apply(v, si, src_sync_pre);
                    match sync_sol_value_err(v1, di, dst_sync) {
                        Option::Some(e) => Err(ProgError::Controller(e)),
                        Option::None => {
                            let v2 = sync_sol_value_apply(v1, di, dst_sync);
                            let old_total = v2.state.total_sol_value;
                            if v2.reserves[si] < args.amount {
                                Err(
                                    ProgError::Controller(
                                        SControllerError::InsufficientReserves,
                                    ),
                                )
                            } else {
                                let v3 = PoolView {
                                    state: v2.state,
                                    lst_states: v2.lst_states,
                                    reserves: v2.reserves.update(
                                        si,
                                        (v2.reserves[si] - args.amount) as u64,
                                    ),
                                };
                                match sync_sol_value_err(v3, si, src_sync_post) {
                                    Option::Some(e) => Err(ProgError::Controller(e)),
                                    Option::None => {
                                        let v4 = sync_sol_value_apply(
                                            v3, si, src_sync_post,
                                        );
                                        let v5 = PoolView {
                                            state: PoolState {
                                                is_rebalancing: true,
                                                ..v4.state
                                            },
                                            lst_states: v4.lst_states,
                                            reserves: v4.reserves,
                                        };
                                        Ok(
                                            (
                                                v5,
                                                RebalanceRecord {
                                                    dst_lst_index: args.dst_lst_index,
                                                    old_total_sol_value: old_total,
                                                },
                                            ),
                                        )
                                    },
                                }
                            }
                        },
                    }
                },
            }
        },
    }
}

/// First phase of a rebalance. Verifies the supplied accounts against fresh
/// derivations and privilege requirements, refuses when a rebalance is in
/// progress, the pool is disabled, or the destination's swap input is
/// disabled, requires a succeeding end-rebalance instruction in the same
/// transaction, re-synchronizes both LSTs, moves `args.amount` out of the
/// source reserves, records the aggregate SOL value, and sets the
/// rebalancing flag. On any failure the pool is untouched.
#[verifier::rlimit(100)]
pub fn process_start_rebalance(
    pool: &mut Pool,
    accounts: &StartRebalanceAccounts,
    args: &StartRebalanceIxArgs,
    suffix: &Vec<AccountView>,
    ixs: &Vec<InstructionView>,
    current_ix_index: usize,
    src_sync_pre: U64ValueRange,
    dst_sync: U64ValueRange,
    src_sync_post: U64ValueRange,
) -> (r: Result<RebalanceRecord, ProgError>)
    requires
        old(pool)@.wf(),
    ensures
        match start_rebalance_result(
            old(pool)@,
            *accounts,
            *args,
            suffix@,
            ixs@,
            current_ix_index as int,
            src_sync_pre,
            dst_sync,
            src_sync_post,
        ) {
            Ok(pr) => r == Ok::<RebalanceRecord, ProgError>(pr.1) && final(pool)@ == pr.0,
            Err(e) => r == Err::<RebalanceRecord, ProgError>(e) && final(pool)@ == old(pool)@,
        },
        r is Ok ==> final(pool)@.state.is_rebalancing,
        r is Ok && old(pool)@.inv() ==> final(pool)@.wf() && final(pool)@.state.total_sol_value
            == sum_sol_values(final(pool)@.lst_states),
{
    let indexes = match verify_start_rebalance(pool, accounts, args, suffix, ixs, current_ix_index) {
        Ok(ix) => ix,
        Err(e) => {
            return Err(e);
        },
    };
    let si = indexes.src_lst_index;
    let di = indexes.dst_lst_index;

    // Pre-flight the whole arithmetic phase on locals so that no state is
    // touched unless every step succeeds: the transaction either commits the
    // full first phase or none of it.
    let ghost v0 = pool@;
    let t0: u64 = pool.state.total_sol_value;
    let s_old: u64 = pool.lst_states[si].sol_value;
    if t0 < s_old {
        return Err(ProgError::Controller(SControllerError::MathError));
    }
    if t0 - s_old > u64::MAX - src_sync_pre.min {
        return Err(ProgError::Controller(SControllerError::MathError));
    }
    let t1: u64 = t0 - s_old + src_sync_pre.min;
    let ghost v1 = sync_sol_value_apply(v0, si as int, src_sync_pre);
    proof {
        assert(v1.state.total_sol_value == t1);
    }
    let d_old: u64 = if si == di {
        src_sync_pre.min
    } else {
        pool.lst_states[di].sol_value
    };
    proof {
        assert(v1.lst_states[di as int].sol_value == d_old);
    }
    if t1 < d_old {
        return Err(ProgError::Controller(SControllerError::MathError));
    }
    if t1 - d_old > u64::MAX - dst_sync.min {
        return Err(ProgError::Controller(SControllerError::MathError));
    }
    let t2: u64 = t1 - d_old + dst_sync.min;
    let ghost v2 = sync_sol_value_apply(v1, di as int, dst_sync);
    proof {
        assert(v2.state.total_sol_value == t2);
    }
    let old_total: u64 = t2;
    let rs: u64 = pool.reserves[si];
    if rs < args.amount {
        return Err(ProgError::Controller(SControllerError::InsufficientReserves));
    }
    let s_mid: u64 = if si == di {
        dst_sync.min
    } else {
        src_sync_pre.min
    };
    let ghost v3 = PoolView {
        state: v2.state,
        lst_states: v2.lst_states,
        reserves: v2.reserves.update(si as int, (v2.reserves[si as int] - args.amount) as u64),
    };
    proof {
        assert(v3.lst_states[si as int].sol_value == s_mid);
        assert(v3.state.total_sol_value == t2);
    }
    if t2 < s_mid {
        return Err(ProgError::Controller(SControllerError::MathError));
    }
    if t2 - s_mid > u64::MAX - src_sync_post.min {
        return Err(ProgError::Controller(SControllerError::MathError));
    }

    // Commit.
    match sync_sol_value_unchecked(pool, si, src_sync_pre) {
        Ok(_) => {},
        Err(e) => {
            return Err(e);
        },
    }
    match sync_sol_value_unchecked(pool, di, dst_sync) {
        Ok(_) => {},
        Err(e) => {
            return Err(e);
        },
    }
    let rs2: u64 = pool.reserves[si];
    pool.reserves.set(si, rs2 - args.amount);
    proof {
        assert(pool@ == v3);
    }
    match sync_sol_value_unchecked(pool, si, src_sync_post) {
        Ok(_) => {},
        Err(e) => {
            return Err(e);
        },
    }
    pool.state.is_rebalancing = true;
    Ok(RebalanceRecord { dst_lst_index: args.dst_lst_index, old_total_sol_value: old_total })
}

// ---------------------------------------------------------------------------
// The end-rebalance processor.

/// The fixed accounts of an end-rebalance instruction, as supplied.
#[derive(Clone, Copy, Debug, PartialEq, Eq, Structural)]
pub struct EndRebalanceAccounts {
    pub pool_state: AccountView,
    pub lst_state_list: AccountView,
    pub rebalance_record: AccountView,
    pub dst_lst_mint: AccountView,
    pub dst_pool_reserves: AccountView,
}

/// The expected addresses of those accounts.
#[derive(Clone, Copy, Debug, PartialEq, Eq, Structural)]
pub struct EndRebalanceKeys {
    pub pool_state: Pubkey,
    pub lst_state_list: Pubkey,
    pub rebalance_record: Pubkey,
    pub dst_lst_mint: Pubkey,
    pub dst_pool_reserves: Pubkey,
}

/// The expected keys of an end-rebalance, resolved from the rebalance
/// record and the registry, or why resolution fails.
pub open spec fn end_rebalance_resolve(record: RebalanceRecord, l: Seq<LstState>) -> Result<
    EndRebalanceKeys,
    ProgError,
> {
    if record.dst_lst_index >= l.len() {
        Err(ProgError::Controller(SControllerError::InvalidLstIndex))
    } else {
        let dst_mint = l[record.dst_lst_index as int].mint;
        match pool_state_pda() {
            Option::None => Err(ProgError::Controller(SControllerError::UnderivableAddress)),
            Option::Some(ps) => match lst_state_list_pda() {
                Option::None => Err(
                    ProgError::Controller(SControllerError::UnderivableAddress),
                ),
                Option::Some(ll) => match rebalance_record_pda() {
                    Option::None => Err(
                        ProgError::Controller(SControllerError::UnderivableAddress),
                    ),
                    Option::Some(rr) => match pool_reserves_pda(ps.0, dst_mint) {
                        Option::None => Err(
                            ProgError::Controller(SControllerError::UnderivableAddress),
                        ),
                        Option::Some(drs) => Ok(
                            EndRebalanceKeys {
                                pool_state: ps.0,
                                lst_state_list: ll.0,
                                rebalance_record: rr.0,
                                dst_lst_mint: dst_mint,
                                dst_pool_reserves: drs.0,
                            },
                        ),
                    },
                },
            },
        }
    }
}

/// Resolves the expected account list of an end-rebalance.
pub fn resolve_end_rebalance(record: &RebalanceRecord, lst_states: &Vec<LstState>) -> (r: Result<
    EndRebalanceKeys,
    ProgError,
>)
    ensures
        r == end_rebalance_resolve(*record, lst_states@),
{
    let n: usize = lst_states.len();
    if record.dst_lst_index as usize >= n {
        return Err(ProgError::Controller(SControllerError::InvalidLstIndex));
    }
    let dst_mint = lst_states[record.dst_lst_index as usize].mint;
    let ps = match find_pool_state_address() {
        Some(p) => p,
        None => {
            return Err(ProgError::Controller(SControllerError::UnderivableAddress));
        },
    };
    let ll = match find_lst_state_list_address() {
        Some(p) => p,
        None => {
            return Err(ProgError::Controller(SControllerError::UnderivableAddress));
        },
    };
    let rr = match find_rebalance_record_address() {
        Some(p) => p,
        None => {
            return Err(ProgError::Controller(SControllerError::UnderivableAddress));
        },
    };
    let drs = match find_pool_reserves_address(&ps.0, &dst_mint) {
        Some(p) => p,
        None => {
            return Err(ProgError::Controller(SControllerError::UnderivableAddress));
        },
    };
    Ok(
        EndRebalanceKeys {
            pool_state: ps.0,
            lst_state_list: ll.0,
            rebalance_record: rr.0,
            dst_lst_mint: dst_mint,
            dst_pool_reserves: drs.0,
        },
    )
}

/// The first supplied/expected address pair of an end-rebalance that
/// disagrees, if any.
pub open spec fn end_rebalance_keys_err(a: EndRebalanceAccounts, k: EndRebalanceKeys) -> Option<
    (Pubkey, Pubkey),
> {
    if a.pool_state.key != k.pool_state {
        Some((a.pool_state.key, k.pool_state))
    } else if a.lst_state_list.key != k.lst_state_list {
        Some((a.lst_state_list.key, k.lst_state_list))
    } else if a.rebalance_record.key != k.rebalance_record {
        Some((a.rebalance_record.key, k.rebalance_record))
    } else if a.dst_lst_mint.key != k.dst_lst_mint {
        Some((a.dst_lst_mint.key, k.dst_lst_mint))
    } else if a.dst_pool_reserves.key != k.dst_pool_reserves {
        Some((a.dst_pool_reserves.key, k.dst_pool_reserves))
    } else {
        None
    }
}

/// The first missing privilege of an end-rebalance, if any.
pub open spec fn end_rebalance_privileges_err(a: EndRebalanceAccounts) -> Option<PrivilegeError> {
    if !a.pool_state.is_writable {
        Some(PrivilegeError::NotWritable(a.pool_state.key))
    } else if !a.lst_state_list.is_writable {
        Some(PrivilegeError::NotWritable(a.lst_state_list.key))
    } else if !a.rebalance_record.is_writable {
        Some(PrivilegeError::NotWritable(a.rebalance_record.key))
    } else {
        None
    }
}

/// Compares every supplied end-rebalance address against its expected
/// value, failing with the first `(actual, expected)` mismatch.
pub fn end_rebalance_verify_account_keys(
    accounts: &EndRebalanceAccounts,
    keys: &EndRebalanceKeys,
) -> (r: Result<(), (Pubkey, Pubkey)>)
    ensures
        match end_rebalance_keys_err(*accounts, *keys) {
            Some(p) => r == Err::<(), (Pubkey, Pubkey)>(p),
            None => r is Ok,
        },
{
    if accounts.pool_state.key != keys.pool_state {
        return Err((accounts.pool_state.key, keys.pool_state));
    }
    if accounts.lst_state_list.key != keys.lst_state_list {
        return Err((accounts.lst_state_list.key, keys.lst_state_list));
    }
    if accounts.rebalance_record.key != keys.rebalance_record {
        return Err((accounts.rebalance_record.key, keys.rebalance_record));
    }
    if accounts.dst_lst_mint.key != keys.dst_lst_mint {
        return Err((accounts.dst_lst_mint.key, keys.dst_lst_mint));
    }
    if accounts.dst_pool_reserves.key != keys.dst_pool_reserves {
        return Err((accounts.dst_pool_reserves.key, keys.dst_pool_reserves));
    }
    Ok(())
}

/// Verifies writable privileges of an end-rebalance.
pub fn end_rebalance_verify_account_privileges(accounts: &EndRebalanceAccounts) -> (r: Result<
    (),
    PrivilegeError,
>)
    ensures
        match end_rebalance_privileges_err(*accounts) {
            Some(e) => r == Err::<(), PrivilegeError>(e),
            None => r is Ok,
        },
{
    if !accounts.pool_state.is_writable {
        return Err(PrivilegeError::NotWritable(accounts.pool_state.key));
    }
    if !accounts.lst_state_list.is_writable {
        return Err(PrivilegeError::NotWritable(accounts.lst_state_list.key));
    }
    if !accounts.rebalance_record.is_writable {
        return Err(PrivilegeError::NotWritable(accounts.rebalance_record.key));
    }
    Ok(())
}

/// Everything `process_end_rebalance` does, as one function of its inputs:
/// either the error it fails with (leaving the pool untouched) or the pool
/// after the rebalance completes. `dst_sync` is what the destination
/// calculator returned for its reserve balance after the external deposit.
pub open spec fn end_rebalance_result(
    v: PoolView,
    accounts: EndRebalanceAccounts,
    record: RebalanceRecord,
    dst_sync: U64ValueRange,
) -> Result<PoolView, ProgError> {
    match end_rebalance_resolve(record, v.lst_states) {
        Err(e) => Err(e),
        Ok(keys) => match end_rebalance_keys_err(accounts, keys) {
            Option::Some(p) => Err(ProgError::WrongAccount(p.0, p.1)),
            Option::None => match end_rebalance_privileges_err(accounts) {
                Option::Some(pe) => Err(ProgError::Privilege(pe)),
                Option::None => if !v.state.is_rebalancing {
                    Err(ProgError::Controller(SControllerError::PoolNotRebalancing))
                } else {
                    let di = record.dst_lst_index as int;
                    match sync_sol_value_err(v, di, dst_sync) {
                        Option::Some(e) => Err(ProgError::Controller(e)),
                        Option::None => {
                            let v1 = sync_sol_value_apply(v, di, dst_sync);
                            if v1.state.total_sol_value + TOLERATED_SOL_VALUE_DRIFT
                                < record.old_total_sol_value {
                                Err(
                                    ProgError::Controller(
                                        SControllerError::PoolWouldLoseSolValue,
                                    ),
                                )
                            } else {
                                Ok(
                                    PoolView {
                                        state: PoolState { is_rebalancing: false, ..v1.state },
                                        lst_states: v1.lst_states,
                                        reserves: v1.reserves,
                                    },
                                )
                            }
                        },
                    }
                },
            },
        },
    }
}

/// Second phase of a rebalance. Consumes the record created by the first
/// phase, re-synchronizes the destination LST, refuses to commit when the
/// aggregate SOL value fell more than the tolerated drift below the value
/// recorded at the start (protecting liquidity providers from value
/// leakage), and clears the rebalancing flag. On any failure the pool is
/// untouched and the enclosing transaction — including the first phase —
/// rolls back.
pub fn process_end_rebalance(
    pool: &mut Pool,
    accounts: &EndRebalanceAccounts,
    record: RebalanceRecord,
    dst_sync: U64ValueRange,
) -> (r: Result<(), ProgError>)
    requires
        old(pool)@.wf(),
    ensures
        match end_rebalance_result(old(pool)@, *accounts, record, dst_sync) {
            Ok(pv) => r is Ok && final(pool)@ == pv,
            Err(e) => r == Err::<(), ProgError>(e) && final(pool)@ == old(pool)@,
        },
        r is Ok ==> !final(pool)@.state.is_rebalancing,
        r is Ok && old(pool)@.state.total_sol_value == sum_sol_values(old(pool)@.lst_states)
            ==> final(pool)@.inv(),
{
    let keys = match resolve_end_rebalance(&record, &pool.lst_states) {
        Ok(k) => k,
        Err(e) => {
            return Err(e);
        },
    };
    match end_rebalance_verify_account_keys(accounts, &keys) {
        Ok(_) => {},
        Err(p) => {
            return Err(ProgError::WrongAccount(p.0, p.1));
        },
    }
    match end_rebalance_verify_account_privileges(accounts) {
        Ok(_) => {},
        Err(pe) => {
            return Err(ProgError::Privilege(pe));
        },
    }
    if !pool.state.is_rebalancing {
        return Err(ProgError::Controller(SControllerError::PoolNotRebalancing));
    }
    let di = record.dst_lst_index as usize;
    let t0: u64 = pool.state.total_sol_value;
    let d_old: u64 = pool.lst_states[di].sol_value;
    if t0 < d_old {
        return Err(ProgError::Controller(SControllerError::MathError));
    }
    if t0 - d_old > u64::MAX - dst_sync.min {
        return Err(ProgError::Controller(SControllerError::MathError));
    }
    let t1: u64 = t0 - d_old + dst_sync.min;
    if t1 <= u64::MAX - TOLERATED_SOL_VALUE_DRIFT && t1 + TOLERATED_SOL_VALUE_DRIFT
        < record.old_total_sol_value {
        return Err(ProgError::Controller(SControllerError::PoolWouldLoseSolValue));
    }
    match sync_sol_value_unchecked(pool, di, dst_sync) {
        Ok(_) => {},
        Err(e) => {
            return Err(e);
        },
    }
    proof {
        if old(pool)@.state.total_sol_value == sum_sol_values(old(pool)@.lst_states) {
            let l = old(pool)@.lst_states;
            let e2 = pool@.lst_states[di as int];
            lemma_sum_update(l, di as int, e2);
            assert(pool@.lst_states =~= l.update(di as int, e2));
        }
    }
    pool.state.is_rebalancing = false;
    Ok(())
}

} // verus!
