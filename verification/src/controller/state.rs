//! Persisted controller state: the pool-state singleton, the LST registry
//! entries, the ephemeral rebalance record, and their fixed binary layouts.
//!
//! The in-memory `Pool` bundles the pool state with the registry and the
//! token balance of each LST's reserve account; its invariant ties
//! `total_sol_value` to the sum of the per-LST SOL values whenever no
//! rebalance is in progress.

use vstd::prelude::*;

use crate::bytes::{push_u16_le, push_u64_le, read_u16_le, read_u32_le, read_u64_le, u16v, u32v, u64v};
use crate::errors::ParseError;
use crate::pubkey::{pk_at, push_pubkey, read_pubkey, Pubkey};

verus! {

// ---------------------------------------------------------------------------
// Pool state.

/// Size of the pool-state record.
pub const POOL_STATE_SIZE: usize = 80;

/// The pool-wide singleton: aggregate SOL value, protocol flags and fees,
/// and the two authorities. Layout: total SOL value at 0, trading protocol
/// fee at 8, LP protocol fee at 10, version at 12, disabled flag at 13,
/// rebalancing flag at 14, one padding byte, admin at 16, rebalance
/// authority at 48.
#[derive(Clone, Copy, Debug, PartialEq, Eq, Structural)]
pub struct PoolState {
    pub total_sol_value: u64,
    pub trading_protocol_fee_bps: u16,
    pub lp_protocol_fee_bps: u16,
    pub version: u8,
    pub is_disabled: bool,
    pub is_rebalancing: bool,
    pub admin: Pubkey,
    pub rebalance_authority: Pubkey,
}

/// The pool state a record carries, or why it cannot be read.
pub open spec fn parse_pool_state(s: Seq<u8>) -> Result<PoolState, ParseError> {
    if s.len() != 80 {
        Err(ParseError::UnexpectedEnd)
    } else {
        Ok(
            PoolState {
                total_sol_value: u64v(s, 0) as u64,
                trading_protocol_fee_bps: u16v(s, 8) as u16,
                lp_protocol_fee_bps: u16v(s, 10) as u16,
                version: s[12],
                is_disabled: s[13] != 0,
                is_rebalancing: s[14] != 0,
                admin: pk_at(s, 16),
                rebalance_authority: pk_at(s, 48),
            },
        )
    }
}

/// Decodes a pool-state record.
pub fn try_pool_state(data: &[u8]) -> (r: Result<PoolState, ParseError>)
    ensures
        r == parse_pool_state(data@),
{
    let n: usize = data.len();
    if n != POOL_STATE_SIZE {
        Err(ParseError::UnexpectedEnd)
    } else {
        Ok(
            PoolState {
                total_sol_value: read_u64_le(data, 0),
                trading_protocol_fee_bps: read_u16_le(data, 8),
                lp_protocol_fee_bps: read_u16_le(data, 10),
                version: data[12],
                is_disabled: data[13] != 0,
                is_rebalancing: data[14] != 0,
                admin: read_pubkey(data, 16),
                rebalance_authority: read_pubkey(data, 48),
            },
        )
    }
}

impl PoolState {
    /// Encodes the record canonically; decoding gives the state back.
    pub fn to_vec(&self) -> (r: Vec<u8>)
        ensures
            r@.len() == 80,
            parse_pool_state(r@) == Ok::<PoolState, ParseError>(*self),
    {
        let mut out: Vec<u8> = Vec::new();
        push_u64_le(&mut out, self.total_sol_value);
        push_u16_le(&mut out, self.trading_protocol_fee_bps);
        push_u16_le(&mut out, self.lp_protocol_fee_bps);
        out.push(self.version);
        out.push(if self.is_disabled { 1 } else { 0 });
        out.push(if self.is_rebalancing { 1 } else { 0 });
        out.push(0);
        push_pubkey(&mut out, &self.admin);
        push_pubkey(&mut out, &self.rebalance_authority);
        out
    }
}

/// The pool state a fresh pool starts from: nothing is held, trading is
/// enabled, no rebalance is in progress, and both authorities are the
/// initializing admin.
pub fn initial_pool_state(admin: Pubkey) -> (r: PoolState)
    ensures
        r == (PoolState {
            total_sol_value: 0,
            trading_protocol_fee_bps: 0,
            lp_protocol_fee_bps: 0,
            version: 1,
            is_disabled: false,
            is_rebalancing: false,
            admin,
            rebalance_authority: admin,
        }),
{
    PoolState {
        total_sol_value: 0,
        trading_protocol_fee_bps: 0,
        lp_protocol_fee_bps: 0,
        version: 1,
        is_disabled: false,
        is_rebalancing: false,
        admin,
        rebalance_authority: admin,
    }
}

// ---------------------------------------------------------------------------
// LST registry entries.

/// Size of one registry entry record.
pub const LST_STATE_SIZE: usize = 80;

/// One registry entry: an LST of the pool. Layout: mint at 0, SOL value at
/// 32, input-disabled flag at 40, reserves bump at 41, six padding bytes,
/// SOL-value calculator program at 48.
#[derive(Clone, Copy, Debug, PartialEq, Eq, Structural)]
pub struct LstState {
    pub mint: Pubkey,
    pub sol_value: u64,
    pub is_input_disabled: bool,
    pub pool_reserves_bump: u8,
    pub sol_value_calculator: Pubkey,
}

/// The registry entry whose record sits at `off`.
pub open spec fn lst_state_at(s: Seq<u8>, off: int) -> LstState {
    LstState {
        mint: pk_at(s, off),
        sol_value: u64v(s, off + 32) as u64,
        is_input_disabled: s[off + 40] != 0,
        pool_reserves_bump: s[off + 41],
        sol_value_calculator: pk_at(s, off + 48),
    }
}

/// The registry a list account's bytes carry: one 80-byte record per entry.
pub open spec fn parse_lst_state_list(s: Seq<u8>) -> Result<Seq<LstState>, ParseError> {
    if s.len() % 80 != 0 {
        Err(ParseError::UnexpectedEnd)
    } else {
        Ok(Seq::new(s.len() / 80, |i: int| lst_state_at(s, 80 * i)))
    }
}

/// Decodes a registry list account.
pub fn try_lst_state_list(data: &[u8]) -> (r: Result<Vec<LstState>, ParseError>)
    ensures
        match r {
            Ok(v) => parse_lst_state_list(data@) == Ok::<Seq<LstState>, ParseError>(v@),
            Err(e) => parse_lst_state_list(data@) == Err::<Seq<LstState>, ParseError>(e),
        },
{
    let n: usize = data.len();
    if n % LST_STATE_SIZE != 0 {
        return Err(ParseError::UnexpectedEnd);
    }
    let count: usize = n / LST_STATE_SIZE;
    let mut v: Vec<LstState> = Vec::new();
    let mut i: usize = 0;
    while i < count
        invariant
            n == data@.len(),
            n % 80 == 0,
            count == n / 80,
            i <= count,
            v@.len() == i,
            forall|j: int| 0 <= j < i ==> v@[j] == lst_state_at(data@, 80 * j),
        decreases count - i,
    {
        let off: usize = i * LST_STATE_SIZE;
        proof {
            assert(80 * (i + 1) <= n) by (nonlinear_arith)
                requires i < count, count == n / 80, n % 80 == 0;
            assert(off == 80 * i);
        }
        let e = LstState {
            mint: read_pubkey(data, off),
            sol_value: read_u64_le(data, off + 32),
            is_input_disabled: data[off + 40] != 0,
            pool_reserves_bump: data[off + 41],
            sol_value_calculator: read_pubkey(data, off + 48),
        };
        v.push(e);
        i += 1;
    }
    proof {
        assert(v@ =~= Seq::new(data@.len() / 80, |j: int| lst_state_at(data@, 80 * j)));
    }
    Ok(v)
}

/// Appends one registry entry's canonical record.
pub fn push_lst_state(out: &mut Vec<u8>, e: &LstState)
    ensures
        final(out)@.len() == old(out)@.len() + 80,
        forall|j: int| 0 <= j < old(out)@.len() ==> final(out)@[j] == old(out)@[j],
        lst_state_at(final(out)@, old(out)@.len() as int) == *e,
{
    push_pubkey(out, &e.mint);
    push_u64_le(out, e.sol_value);
    out.push(if e.is_input_disabled { 1 } else { 0 });
    out.push(e.pool_reserves_bump);
    out.push(0);
    out.push(0);
    out.push(0);
    out.push(0);
    out.push(0);
    out.push(0);
    push_pubkey(out, &e.sol_value_calculator);
}

// ---------------------------------------------------------------------------
// The ephemeral rebalance record.

/// Size of the rebalance record created by `start_rebalance` and closed by
/// `end_rebalance`.
pub const REBALANCE_RECORD_SIZE: usize = 16;

/// The record bridging the two phases of a rebalance: which LST the moved
/// value is owed to, and the aggregate SOL value at the start. Layout:
/// destination index at 0, four padding bytes, old total SOL value at 8.
#[derive(Clone, Copy, Debug, PartialEq, Eq, Structural)]
pub struct RebalanceRecord {
    pub dst_lst_index: u32,
    pub old_total_sol_value: u64,
}

/// The rebalance record a buffer carries, or why it cannot be read.
pub open spec fn parse_rebalance_record(s: Seq<u8>) -> Result<RebalanceRecord, ParseError> {
    if s.len() != 16 {
        Err(ParseError::UnexpectedEnd)
    } else {
        Ok(
            RebalanceRecord {
                dst_lst_index: u32v(s, 0) as u32,
                old_total_sol_value: u64v(s, 8) as u64,
            },
        )
    }
}

/// Decodes a rebalance record.
pub fn try_rebalance_record(data: &[u8]) -> (r: Result<RebalanceRecord, ParseError>)
    ensures
        r == parse_rebalance_record(data@),
{
    let n: usize = data.len();
    if n != REBALANCE_RECORD_SIZE {
        Err(ParseError::UnexpectedEnd)
    } else {
        Ok(
            RebalanceRecord {
                dst_lst_index: read_u32_le(data, 0),
                old_total_sol_value: read_u64_le(data, 8),
            },
        )
    }
}

impl RebalanceRecord {
    /// Encodes the record canonically; decoding gives the record back.
    pub fn to_vec(&self) -> (r: Vec<u8>)
        ensures
            r@.len() == 16,
            parse_rebalance_record(r@) == Ok::<RebalanceRecord, ParseError>(*self),
    {
        let mut out: Vec<u8> = Vec::new();
        crate::bytes::push_u32_le(&mut out, self.dst_lst_index);
        crate::bytes::push_u32_le(&mut out, 0);
        push_u64_le(&mut out, self.old_total_sol_value);
        out
    }
}

// ---------------------------------------------------------------------------
// The in-memory pool: state, registry, reserve balances.

/// The pool as an operation sees it: the pool-state singleton, the LST
/// registry in insertion order, and the token balance of each LST's reserve
/// account (entry `i` of `reserves` belongs to entry `i` of `lst_states`).
#[derive(Clone, Debug)]
pub struct Pool {
    pub state: PoolState,
    pub lst_states: Vec<LstState>,
    pub reserves: Vec<u64>,
}

/// Spec-level view of a `Pool`.
pub struct PoolView {
    pub state: PoolState,
    pub lst_states: Seq<LstState>,
    pub reserves: Seq<u64>,
}

impl View for Pool {
    type V = PoolView;

    open spec fn view(&self) -> PoolView {
        PoolView { state: self.state, lst_states: self.lst_states@, reserves: self.reserves@ }
    }
}

/// Sum of the per-LST SOL values.
pub open spec fn sum_sol_values(l: Seq<LstState>) -> int
    decreases l.len(),
{
    if l.len() == 0 {
        0
    } else {
        l[0].sol_value + sum_sol_values(l.drop_first())
    }
}

/// Some registry entry carries `mint`.
pub open spec fn has_mint(l: Seq<LstState>, mint: Pubkey) -> bool {
    exists|i: int| 0 <= i < l.len() && l[i].mint == mint
}

/// No two registry entries carry the same mint.
pub open spec fn mints_unique(l: Seq<LstState>) -> bool {
    forall|i: int, j: int| 0 <= i < j < l.len() ==> l[i].mint != l[j].mint
}

impl PoolView {
    /// Shape of a well-formed pool: one reserve balance per registry entry,
    /// indexes addressable as `u32`, and no duplicate mint.
    pub open spec fn wf(&self) -> bool {
        &&& self.lst_states.len() == self.reserves.len()
        &&& self.lst_states.len() <= u32::MAX
        &&& mints_unique(self.lst_states)
    }

    /// Outside an in-progress rebalance the recorded aggregate equals the
    /// sum of the per-LST SOL values.
    pub open spec fn sol_value_synced(&self) -> bool {
        self.state.is_rebalancing || self.state.total_sol_value == sum_sol_values(self.lst_states)
    }

    /// The pool invariant every operation preserves.
    pub open spec fn inv(&self) -> bool {
        self.wf() && self.sol_value_synced()
    }
}

/// Appending an entry adds its SOL value to the sum.
pub proof fn lemma_sum_push(l: Seq<LstState>, e: LstState)
    ensures
        sum_sol_values(l.push(e)) == sum_sol_values(l) + e.sol_value,
    decreases l.len(),
{
    if l.len() == 0 {
        assert(l.push(e).drop_first() =~= l);
    } else {
        assert(l.push(e).drop_first() =~= l.drop_first().push(e));
        lemma_sum_push(l.drop_first(), e);
    }
}

/// Replacing an entry shifts the sum by the difference of the SOL values.
pub proof fn lemma_sum_update(l: Seq<LstState>, i: int, e: LstState)
    requires
        0 <= i < l.len(),
    ensures
        sum_sol_values(l.update(i, e)) == sum_sol_values(l) - l[i].sol_value + e.sol_value,
    decreases l.len(),
{
    if i == 0 {
        assert(l.update(0, e).drop_first() =~= l.drop_first());
    } else {
        assert(l.update(i, e).drop_first() =~= l.drop_first().update(i - 1, e));
        lemma_sum_update(l.drop_first(), i - 1, e);
    }
}

/// Removing an entry subtracts its SOL value from the sum.
pub proof fn lemma_sum_remove(l: Seq<LstState>, i: int)
    requires
        0 <= i < l.len(),
    ensures
        sum_sol_values(l.remove(i)) == sum_sol_values(l) - l[i].sol_value,
    decreases l.len(),
{
    if i == 0 {
        assert(l.remove(0) =~= l.drop_first());
    } else {
        assert(l.remove(i).drop_first() =~= l.drop_first().remove(i - 1));
        lemma_sum_remove(l.drop_first(), i - 1);
    }
}

} // verus!
