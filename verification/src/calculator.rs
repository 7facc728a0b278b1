//! SOL-value calculators: one variant per supported staking-pool backend,
//! behind one capability surface.
//!
//! A calculator caches an exchange rate read from its backend pool's state
//! account together with the epoch that state was last updated in. Pricing
//! is refused until both the pool state and the clock have been fetched, and
//! refused again if the cached state is stale (its last-update epoch differs
//! from the current one): the rate can change at each epoch boundary.

use vstd::prelude::*;

use crate::accounts::{readonly_meta, AccountMetaView};
use crate::bytes::{push_u64_le, read_u64_le, u64v};
use crate::errors::{LstSolValCalcError, ParseError};
use crate::pubkey::{
    clock_sysvar_id, pk_at, push_pubkey, read_pubkey, spec_clock_sysvar_id, Pubkey,
};
use crate::value_range::{apply_ratio_range, ratio_range_result, U64ValueRange};

verus! {

// ---------------------------------------------------------------------------
// Snapshot records.

/// Length of the clock sysvar's data: five 8-byte words.
pub const CLOCK_LEN: usize = 40;

/// Byte offset of the epoch word within the clock sysvar's data.
pub const CLOCK_EPOCH_OFFSET: usize = 16;

/// The epoch a clock snapshot carries, or why it cannot be read.
pub open spec fn parse_clock_epoch(s: Seq<u8>) -> Result<u64, ParseError> {
    if s.len() < 40 {
        Err(ParseError::UnexpectedEnd)
    } else {
        Ok(u64v(s, 16) as u64)
    }
}

/// Reads the epoch out of a clock sysvar snapshot.
pub fn try_clock_epoch(data: &[u8]) -> (r: Result<u64, ParseError>)
    ensures
        r == parse_clock_epoch(data@),
{
    let n: usize = data.len();
    if n < CLOCK_LEN {
        Err(ParseError::UnexpectedEnd)
    } else {
        Ok(read_u64_le(data, CLOCK_EPOCH_OFFSET))
    }
}

/// Length of a backend stake pool state record.
pub const STAKE_POOL_RECORD_LEN: usize = 57;

/// Discriminant of an initialized stake pool state record.
pub const STAKE_POOL_RECORD_DISCM: u8 = 1;

/// What this library reads out of a backend stake pool's state account: the
/// pool's mint, its two exchange-rate totals, and the epoch of its last
/// update. Layout: discriminant byte, mint at 1, total lamports at 33, pool
/// token supply at 41, last update epoch at 49.
#[derive(Clone, Copy, Debug, PartialEq, Eq, Structural)]
pub struct StakePoolRecord {
    pub pool_mint: Pubkey,
    pub total_lamports: u64,
    pub pool_token_supply: u64,
    pub last_update_epoch: u64,
}

/// The record a stake pool snapshot carries, or why it cannot be read.
pub open spec fn parse_stake_pool(s: Seq<u8>) -> Result<StakePoolRecord, ParseError> {
    if s.len() < 57 {
        Err(ParseError::UnexpectedEnd)
    } else if s[0] != STAKE_POOL_RECORD_DISCM {
        Err(ParseError::WrongDiscm)
    } else {
        Ok(
            StakePoolRecord {
                pool_mint: pk_at(s, 1),
                total_lamports: u64v(s, 33) as u64,
                pool_token_supply: u64v(s, 41) as u64,
                last_update_epoch: u64v(s, 49) as u64,
            },
        )
    }
}

/// Decodes a backend stake pool state record.
pub fn try_stake_pool(data: &[u8]) -> (r: Result<StakePoolRecord, ParseError>)
    ensures
        r == parse_stake_pool(data@),
{
    let n: usize = data.len();
    if n < STAKE_POOL_RECORD_LEN {
        Err(ParseError::UnexpectedEnd)
    } else if data[0] != STAKE_POOL_RECORD_DISCM {
        Err(ParseError::WrongDiscm)
    } else {
        Ok(
            StakePoolRecord {
                pool_mint: read_pubkey(data, 1),
                total_lamports: read_u64_le(data, 33),
                pool_token_supply: read_u64_le(data, 41),
                last_update_epoch: read_u64_le(data, 49),
            },
        )
    }
}

impl StakePoolRecord {
    /// The exchange-rate part of the record.
    pub open spec fn spec_calc(&self) -> SplStakePoolCalc {
        SplStakePoolCalc {
            total_lamports: self.total_lamports,
            pool_token_supply: self.pool_token_supply,
            last_update_epoch: self.last_update_epoch,
        }
    }

    pub fn calc(&self) -> (r: SplStakePoolCalc)
        ensures
            r == self.spec_calc(),
    {
        SplStakePoolCalc {
            total_lamports: self.total_lamports,
            pool_token_supply: self.pool_token_supply,
            last_update_epoch: self.last_update_epoch,
        }
    }

    /// Encodes the record; decoding gives the record back.
    pub fn to_vec(&self) -> (r: Vec<u8>)
        ensures
            parse_stake_pool(r@) == Ok::<StakePoolRecord, ParseError>(*self),
    {
        let mut out: Vec<u8> = Vec::new();
        out.push(STAKE_POOL_RECORD_DISCM);
        push_pubkey(&mut out, &self.pool_mint);
        push_u64_le(&mut out, self.total_lamports);
        push_u64_le(&mut out, self.pool_token_supply);
        push_u64_le(&mut out, self.last_update_epoch);
        out
    }
}

// ---------------------------------------------------------------------------
// The cached exchange rate of an SPL-style stake pool.

/// Cached exchange rate of an SPL-style stake pool: `total_lamports`
/// staked over `pool_token_supply` tokens, as of `last_update_epoch`.
#[derive(Clone, Copy, Debug, PartialEq, Eq, Structural)]
pub struct SplStakePoolCalc {
    pub total_lamports: u64,
    pub pool_token_supply: u64,
    pub last_update_epoch: u64,
}

impl SplStakePoolCalc {
    /// Refuses a cached rate whose last update is not from `clock_epoch`.
    pub fn verify_pool_updated_for_this_epoch(&self, clock_epoch: u64) -> (r: Result<
        (),
        LstSolValCalcError,
    >)
        ensures
            self.last_update_epoch == clock_epoch <==> r is Ok,
            r matches Err(e) ==> e == LstSolValCalcError::PoolNotUpdatedForThisEpoch,
    {
        if self.last_update_epoch != clock_epoch {
            Err(LstSolValCalcError::PoolNotUpdatedForThisEpoch)
        } else {
            Ok(())
        }
    }

    /// SOL value range of `amount` pool tokens.
    pub fn calc_lst_to_sol(&self, amount: u64) -> (r: Result<U64ValueRange, LstSolValCalcError>)
        ensures
            r == ratio_range_result(amount, self.total_lamports, self.pool_token_supply),
            r matches Ok(v) ==> v.min <= v.max,
    {
        apply_ratio_range(amount, self.total_lamports, self.pool_token_supply)
    }

    /// Pool token range worth `lamports` of SOL value.
    pub fn calc_sol_to_lst(&self, lamports: u64) -> (r: Result<U64ValueRange, LstSolValCalcError>)
        ensures
            r == ratio_range_result(lamports, self.pool_token_supply, self.total_lamports),
            r matches Ok(v) ==> v.min <= v.max,
    {
        apply_ratio_range(lamports, self.pool_token_supply, self.total_lamports)
    }
}

// ---------------------------------------------------------------------------
// Snapshots handed to `update`.

/// One fetched account: its address and its data at fetch time.
#[derive(Clone, Debug)]
pub struct AccountSnapshot {
    pub key: Pubkey,
    pub data: Vec<u8>,
}

/// Data of the first snapshot entry with address `k`, if any.
pub open spec fn first_with_key(m: Seq<AccountSnapshot>, k: Pubkey) -> Option<Seq<u8>>
    decreases m.len(),
{
    if m.len() == 0 {
        None
    } else if m[0].key == k {
        Some(m[0].data@)
    } else {
        first_with_key(m.drop_first(), k)
    }
}

/// Finds the first snapshot entry with address `k`.
pub fn snap_get<'a>(m: &'a Vec<AccountSnapshot>, k: &Pubkey) -> (r: Option<&'a Vec<u8>>)
    ensures
        match r {
            Some(d) => first_with_key(m@, *k) == Some(d@),
            None => first_with_key(m@, *k) is None,
        },
{
    let n: usize = m.len();
    let mut i: usize = 0;
    proof {
        assert(m@.skip(0) =~= m@);
    }
    while i < n
        invariant
            n == m@.len(),
            i <= n,
            first_with_key(m@, *k) == first_with_key(m@.skip(i as int), *k),
        decreases n - i,
    {
        proof {
            assert(m@.skip(i as int)[0] == m@[i as int]);
            assert(m@.skip(i as int).drop_first() =~= m@.skip(i + 1));
        }
        if m[i].key == *k {
            return Some(&m[i].data);
        }
        i += 1;
    }
    proof {
        assert(m@.skip(n as int).len() == 0);
    }
    None
}

// ---------------------------------------------------------------------------
// The per-backend calculator variants.

/// The two addresses a calculator is keyed by.
#[derive(Clone, Copy, Debug, PartialEq, Eq, Structural)]
pub struct SplLstSolValCalcInitKeys {
    pub lst_mint: Pubkey,
    pub stake_pool_addr: Pubkey,
}

/// Calculator for a Sanctum-flavoured SPL stake pool.
#[derive(Clone, Copy, Debug)]
pub struct SanctumSplLstSolValCalc {
    pub lst_mint: Pubkey,
    pub stake_pool_addr: Pubkey,
    pub calc: Option<SplStakePoolCalc>,
    pub clock_epoch: Option<u64>,
}

/// Calculator for a plain SPL stake pool.
#[derive(Clone, Copy, Debug)]
pub struct SplLstSolValCalc {
    pub lst_mint: Pubkey,
    pub stake_pool_addr: Pubkey,
    pub calc: Option<SplStakePoolCalc>,
    pub clock_epoch: Option<u64>,
}

/// Pricing result of a calculator in state `(calc, clock_epoch)`: refuses
/// until both parts are fetched and the cached rate is from the current
/// epoch, then applies the `num / den` rate.
pub open spec fn price_result(
    calc: Option<SplStakePoolCalc>,
    clock_epoch: Option<u64>,
    amount: u64,
    lst_to_sol: bool,
) -> Result<U64ValueRange, LstSolValCalcError> {
    match calc {
        Option::None => Err(LstSolValCalcError::StakePoolNotFetched),
        Option::Some(c) => match clock_epoch {
            Option::None => Err(LstSolValCalcError::ClockNotFetched),
            Option::Some(e) => if c.last_update_epoch != e {
                Err(LstSolValCalcError::PoolNotUpdatedForThisEpoch)
            } else if lst_to_sol {
                ratio_range_result(amount, c.total_lamports, c.pool_token_supply)
            } else {
                ratio_range_result(amount, c.pool_token_supply, c.total_lamports)
            },
        },
    }
}

/// Result of refreshing the clock part of a calculator state from `m`.
pub open spec fn clock_stage(
    clock_epoch: Option<u64>,
    m: Seq<AccountSnapshot>,
) -> Result<Option<u64>, LstSolValCalcError> {
    match first_with_key(m, spec_clock_sysvar_id()) {
        Option::None => Ok(clock_epoch),
        Option::Some(d) => match parse_clock_epoch(d) {
            Err(_) => Err(LstSolValCalcError::InvalidSnapshotData),
            Ok(e) => Ok(Some(e)),
        },
    }
}

/// Result of refreshing the rate part of a calculator state from `m`: fails
/// with `WrongLstMint` when the fetched pool state names another mint.
pub open spec fn pool_stage(
    calc: Option<SplStakePoolCalc>,
    lst_mint: Pubkey,
    stake_pool_addr: Pubkey,
    m: Seq<AccountSnapshot>,
) -> Result<Option<SplStakePoolCalc>, LstSolValCalcError> {
    match first_with_key(m, stake_pool_addr) {
        Option::None => Ok(calc),
        Option::Some(d) => match parse_stake_pool(d) {
            Err(_) => Err(LstSolValCalcError::InvalidSnapshotData),
            Ok(rec) => if rec.pool_mint != lst_mint {
                Err(LstSolValCalcError::WrongLstMint)
            } else {
                Ok(Some(rec.spec_calc()))
            },
        },
    }
}

impl SanctumSplLstSolValCalc {
    pub fn from_keys(keys: SplLstSolValCalcInitKeys) -> (r: Self)
        ensures
            r.lst_mint == keys.lst_mint,
            r.stake_pool_addr == keys.stake_pool_addr,
            r.calc is None,
            r.clock_epoch is None,
    {
        SanctumSplLstSolValCalc {
            lst_mint: keys.lst_mint,
            stake_pool_addr: keys.stake_pool_addr,
            calc: None,
            clock_epoch: None,
        }
    }

    /// Initializes a calculator straight from a fetched pool state account,
    /// taking the pool's own mint as the LST mint.
    pub fn from_pool(stake_pool_addr: Pubkey, data: &[u8]) -> (r: Result<
        Self,
        LstSolValCalcError,
    >)
        ensures
            match parse_stake_pool(data@) {
                Ok(rec) => r matches Ok(c)
                    && c.lst_mint == rec.pool_mint
                    && c.stake_pool_addr == stake_pool_addr
                    && c.calc == Some(rec.spec_calc())
                    && c.clock_epoch is None,
                Err(_) => r == Err::<Self, _>(LstSolValCalcError::InvalidSnapshotData),
            },
    {
        match try_stake_pool(data) {
            Ok(rec) => Ok(
                SanctumSplLstSolValCalc {
                    lst_mint: rec.pool_mint,
                    stake_pool_addr,
                    calc: Some(rec.calc()),
                    clock_epoch: None,
                },
            ),
            Err(_) => Err(LstSolValCalcError::InvalidSnapshotData),
        }
    }

    /// The accounts whose current contents must be supplied to `update`
    /// before pricing is valid.
    pub fn get_accounts_to_update(&self) -> (r: Vec<Pubkey>)
        ensures
            r@ =~= seq![spec_clock_sysvar_id(), self.stake_pool_addr],
    {
        let mut v: Vec<Pubkey> = Vec::new();
        v.push(clock_sysvar_id());
        v.push(self.stake_pool_addr);
        v
    }

    /// Refreshes the cached rate and epoch from a snapshot of the accounts
    /// named by `get_accounts_to_update`. The clock is taken first, so a
    /// failure on the pool state leaves an already-refreshed epoch in place;
    /// a failure on the clock leaves the calculator unchanged.
    pub fn update(&mut self, account_map: &Vec<AccountSnapshot>) -> (r: Result<
        (),
        LstSolValCalcError,
    >)
        ensures
            final(self).lst_mint == old(self).lst_mint,
            final(self).stake_pool_addr == old(self).stake_pool_addr,
            match clock_stage(old(self).clock_epoch, account_map@) {
                Err(e) => r == Err::<(), _>(e) && *final(self) == *old(self),
                Ok(ce) => {
                    &&& final(self).clock_epoch == ce
                    &&& match pool_stage(
                        old(self).calc,
                        old(self).lst_mint,
                        old(self).stake_pool_addr,
                        account_map@,
                    ) {
                        Err(e) => r == Err::<(), _>(e) && final(self).calc == old(self).calc,
                        Ok(c) => r is Ok && final(self).calc == c,
                    }
                },
            },
    {
        match snap_get(account_map, &clock_sysvar_id()) {
            Some(d) => match try_clock_epoch(d.as_slice()) {
                Ok(e) => {
                    self.clock_epoch = Some(e);
                },
                Err(_) => {
                    return Err(LstSolValCalcError::InvalidSnapshotData);
                },
            },
            None => {},
        }
        match snap_get(account_map, &self.stake_pool_addr) {
            Some(d) => match try_stake_pool(d.as_slice()) {
                Ok(rec) => {
                    if rec.pool_mint != self.lst_mint {
                        return Err(LstSolValCalcError::WrongLstMint);
                    }
                    self.calc = Some(rec.calc());
                },
                Err(_) => {
                    return Err(LstSolValCalcError::InvalidSnapshotData);
                },
            },
            None => {},
        }
        Ok(())
    }

    /// The mint this calculator prices; callers must check it matches the
    /// LST they intend to price.
    pub fn lst_mint(&self) -> (r: Pubkey)
        ensures
            r == self.lst_mint,
    {
        self.lst_mint
    }

    /// SOL value range of `lst_amount`, conservative at both ends.
    pub fn lst_to_sol(&self, lst_amount: u64) -> (r: Result<U64ValueRange, LstSolValCalcError>)
        ensures
            r == price_result(self.calc, self.clock_epoch, lst_amount, true),
            r matches Ok(v) ==> v.min <= v.max,
    {
        let calc = match &self.calc {
            Some(c) => *c,
            None => { return Err(LstSolValCalcError::StakePoolNotFetched); },
        };
        let epoch = match &self.clock_epoch {
            Some(e) => *e,
            None => { return Err(LstSolValCalcError::ClockNotFetched); },
        };
        match calc.verify_pool_updated_for_this_epoch(epoch) {
            Ok(_) => calc.calc_lst_to_sol(lst_amount),
            Err(e) => Err(e),
        }
    }

    /// LST amount range worth `lamports`, conservative at both ends.
    pub fn sol_to_lst(&self, lamports: u64) -> (r: Result<U64ValueRange, LstSolValCalcError>)
        ensures
            r == price_result(self.calc, self.clock_epoch, lamports, false),
            r matches Ok(v) ==> v.min <= v.max,
    {
        let calc = match &self.calc {
            Some(c) => *c,
            None => { return Err(LstSolValCalcError::StakePoolNotFetched); },
        };
        let epoch = match &self.clock_epoch {
            Some(e) => *e,
            None => { return Err(LstSolValCalcError::ClockNotFetched); },
        };
        match calc.verify_pool_updated_for_this_epoch(epoch) {
            Ok(_) => calc.calc_sol_to_lst(lamports),
            Err(e) => Err(e),
        }
    }

    /// The fixed account metas a price-refresh invocation of this backend
    /// must supply.
    pub fn ix_accounts(&self) -> (r: Vec<AccountMetaView>)
        ensures
            r@ =~= seq![
                (AccountMetaView { key: self.lst_mint, is_signer: false, is_writable: false }),
                (AccountMetaView {
                    key: self.stake_pool_addr,
                    is_signer: false,
                    is_writable: false,
                }),
            ],
    {
        let mut v: Vec<AccountMetaView> = Vec::new();
        v.push(readonly_meta(self.lst_mint));
        v.push(readonly_meta(self.stake_pool_addr));
        v
    }

    /// Converts from the tagged union; fails on any other variant's tag.
    pub fn try_from_known(value: KnownLstSolValCalc) -> (r: Result<Self, LstSolValCalcError>)
        ensures
            match value {
                KnownLstSolValCalc::SanctumSpl(s) => r == Ok::<Self, LstSolValCalcError>(s),
                _ => r == Err::<Self, _>(LstSolValCalcError::WrongLstSolValCalc),
            },
    {
        match value {
            KnownLstSolValCalc::SanctumSpl(s) => Ok(s),
            _ => Err(LstSolValCalcError::WrongLstSolValCalc),
        }
    }
}

impl SplLstSolValCalc {
    pub fn from_keys(keys: SplLstSolValCalcInitKeys) -> (r: Self)
        ensures
            r.lst_mint == keys.lst_mint,
            r.stake_pool_addr == keys.stake_pool_addr,
            r.calc is None,
            r.clock_epoch is None,
    {
        SplLstSolValCalc {
            lst_mint: keys.lst_mint,
            stake_pool_addr: keys.stake_pool_addr,
            calc: None,
            clock_epoch: None,
        }
    }

    /// The accounts whose current contents must be supplied to `update`.
    pub fn get_accounts_to_update(&self) -> (r: Vec<Pubkey>)
        ensures
            r@ =~= seq![spec_clock_sysvar_id(), self.stake_pool_addr],
    {
        let mut v: Vec<Pubkey> = Vec::new();
        v.push(clock_sysvar_id());
        v.push(self.stake_pool_addr);
        v
    }

    /// Refreshes the cached rate and epoch from a snapshot; see
    /// `SanctumSplLstSolValCalc::update`.
    pub fn update(&mut self, account_map: &Vec<AccountSnapshot>) -> (r: Result<
        (),
        LstSolValCalcError,
    >)
        ensures
            final(self).lst_mint == old(self).lst_mint,
            final(self).stake_pool_addr == old(self).stake_pool_addr,
            match clock_stage(old(self).clock_epoch, account_map@) {
                Err(e) => r == Err::<(), _>(e) && *final(self) == *old(self),
                Ok(ce) => {
                    &&& final(self).clock_epoch == ce
                    &&& match pool_stage(
                        old(self).calc,
                        old(self).lst_mint,
                        old(self).stake_pool_addr,
                        account_map@,
                    ) {
                        Err(e) => r == Err::<(), _>(e) && final(self).calc == old(self).calc,
                        Ok(c) => r is Ok && final(self).calc == c,
                    }
                },
            },
    {
        match snap_get(account_map, &clock_sysvar_id()) {
            Some(d) => match try_clock_epoch(d.as_slice()) {
                Ok(e) => {
                    self.clock_epoch = Some(e);
                },
                Err(_) => {
                    return Err(LstSolValCalcError::InvalidSnapshotData);
                },
            },
            None => {},
        }
        match snap_get(account_map, &self.stake_pool_addr) {
            Some(d) => match try_stake_pool(d.as_slice()) {
                Ok(rec) => {
                    if rec.pool_mint != self.lst_mint {
                        return Err(LstSolValCalcError::WrongLstMint);
                    }
                    self.calc = Some(rec.calc());
                },
                Err(_) => {
                    return Err(LstSolValCalcError::InvalidSnapshotData);
                },
            },
            None => {},
        }
        Ok(())
    }

    /// The mint this calculator prices.
    pub fn lst_mint(&self) -> (r: Pubkey)
        ensures
            r == self.lst_mint,
    {
        self.lst_mint
    }

    /// SOL value range of `lst_amount`, conservative at both ends.
    pub fn lst_to_sol(&self, lst_amount: u64) -> (r: Result<U64ValueRange, LstSolValCalcError>)
        ensures
            r == price_result(self.calc, self.clock_epoch, lst_amount, true),
            r matches Ok(v) ==> v.min <= v.max,
    {
        let calc = match &self.calc {
            Some(c) => *c,
            None => { return Err(LstSolValCalcError::StakePoolNotFetched); },
        };
        let epoch = match &self.clock_epoch {
            Some(e) => *e,
            None => { return Err(LstSolValCalcError::ClockNotFetched); },
        };
        match calc.verify_pool_updated_for_this_epoch(epoch) {
            Ok(_) => calc.calc_lst_to_sol(lst_amount),
            Err(e) => Err(e),
        }
    }

    /// LST amount range worth `lamports`, conservative at both ends.
    pub fn sol_to_lst(&self, lamports: u64) -> (r: Result<U64ValueRange, LstSolValCalcError>)
        ensures
            r == price_result(self.calc, self.clock_epoch, lamports, false),
            r matches Ok(v) ==> v.min <= v.max,
    {
        let calc = match &self.calc {
            Some(c) => *c,
            None => { return Err(LstSolValCalcError::StakePoolNotFetched); },
        };
        let epoch = match &self.clock_epoch {
            Some(e) => *e,
            None => { return Err(LstSolValCalcError::ClockNotFetched); },
        };
        match calc.verify_pool_updated_for_this_epoch(epoch) {
            Ok(_) => calc.calc_sol_to_lst(lamports),
            Err(e) => Err(e),
        }
    }

    /// The fixed account metas a price-refresh invocation must supply.
    pub fn ix_accounts(&self) -> (r: Vec<AccountMetaView>)
        ensures
            r@ =~= seq![
                (AccountMetaView { key: self.lst_mint, is_signer: false, is_writable: false }),
                (AccountMetaView {
                    key: self.stake_pool_addr,
                    is_signer: false,
                    is_writable: false,
                }),
            ],
    {
        let mut v: Vec<AccountMetaView> = Vec::new();
        v.push(readonly_meta(self.lst_mint));
        v.push(readonly_meta(self.stake_pool_addr));
        v
    }

    /// Converts from the tagged union; fails on any other variant's tag.
    pub fn try_from_known(value: KnownLstSolValCalc) -> (r: Result<Self, LstSolValCalcError>)
        ensures
            match value {
                KnownLstSolValCalc::Spl(s) => r == Ok::<Self, LstSolValCalcError>(s),
                _ => r == Err::<Self, _>(LstSolValCalcError::WrongLstSolValCalc),
            },
    {
        match value {
            KnownLstSolValCalc::Spl(s) => Ok(s),
            _ => Err(LstSolValCalcError::WrongLstSolValCalc),
        }
    }
}

/// All supported backend variants as one tagged union, so the rebalance and
/// value-sync paths can price without knowing the concrete backend.
#[derive(Clone, Copy, Debug)]
pub enum KnownLstSolValCalc {
    Spl(SplLstSolValCalc),
    SanctumSpl(SanctumSplLstSolValCalc),
}

impl KnownLstSolValCalc {
    /// The mint the wrapped calculator prices.
    pub fn lst_mint(&self) -> (r: Pubkey)
        ensures
            r == (match *self {
                KnownLstSolValCalc::Spl(c) => c.lst_mint,
                KnownLstSolValCalc::SanctumSpl(c) => c.lst_mint,
            }),
    {
        match self {
            KnownLstSolValCalc::Spl(c) => c.lst_mint,
            KnownLstSolValCalc::SanctumSpl(c) => c.lst_mint,
        }
    }

    /// SOL value range of `lst_amount` under the wrapped calculator.
    pub fn lst_to_sol(&self, lst_amount: u64) -> (r: Result<U64ValueRange, LstSolValCalcError>)
        ensures
            r == (match *self {
                KnownLstSolValCalc::Spl(c) => price_result(
                    c.calc, c.clock_epoch, lst_amount, true,
                ),
                KnownLstSolValCalc::SanctumSpl(c) => price_result(
                    c.calc, c.clock_epoch, lst_amount, true,
                ),
            }),
            r matches Ok(v) ==> v.min <= v.max,
    {
        match self {
            KnownLstSolValCalc::Spl(c) => c.lst_to_sol(lst_amount),
            KnownLstSolValCalc::SanctumSpl(c) => c.lst_to_sol(lst_amount),
        }
    }

    /// LST amount range worth `lamports` under the wrapped calculator.
    pub fn sol_to_lst(&self, lamports: u64) -> (r: Result<U64ValueRange, LstSolValCalcError>)
        ensures
            r == (match *self {
                KnownLstSolValCalc::Spl(c) => price_result(
                    c.calc, c.clock_epoch, lamports, false,
                ),
                KnownLstSolValCalc::SanctumSpl(c) => price_result(
                    c.calc, c.clock_epoch, lamports, false,
                ),
            }),
            r matches Ok(v) ==> v.min <= v.max,
    {
        match self {
            KnownLstSolValCalc::Spl(c) => c.sol_to_lst(lamports),
            KnownLstSolValCalc::SanctumSpl(c) => c.sol_to_lst(lamports),
        }
    }

    /// Refreshes the wrapped calculator from a snapshot; the tag is kept.
    pub fn update(&mut self, account_map: &Vec<AccountSnapshot>) -> (r: Result<
        (),
        LstSolValCalcError,
    >)
        ensures
            match *old(self) {
                KnownLstSolValCalc::Spl(c0) => (*final(self)) matches KnownLstSolValCalc::Spl(c1)
                    && c1.lst_mint == c0.lst_mint
                    && c1.stake_pool_addr == c0.stake_pool_addr
                    && (match clock_stage(c0.clock_epoch, account_map@) {
                        Err(e) => r == Err::<(), LstSolValCalcError>(e) && c1 == c0,
                        Ok(ce) => {
                            &&& c1.clock_epoch == ce
                            &&& match pool_stage(
                                c0.calc, c0.lst_mint, c0.stake_pool_addr, account_map@,
                            ) {
                                Err(e) => r == Err::<(), LstSolValCalcError>(e) && c1.calc
                                    == c0.calc,
                                Ok(c) => r is Ok && c1.calc == c,
                            }
                        },
                    }),
                KnownLstSolValCalc::SanctumSpl(c0) => (*final(self)) matches
                    KnownLstSolValCalc::SanctumSpl(c1)
                    && c1.lst_mint == c0.lst_mint
                    && c1.stake_pool_addr == c0.stake_pool_addr
                    && (match clock_stage(c0.clock_epoch, account_map@) {
                        Err(e) => r == Err::<(), LstSolValCalcError>(e) && c1 == c0,
                        Ok(ce) => {
                            &&& c1.clock_epoch == ce
                            &&& match pool_stage(
                                c0.calc, c0.lst_mint, c0.stake_pool_addr, account_map@,
                            ) {
                                Err(e) => r == Err::<(), LstSolValCalcError>(e) && c1.calc
                                    == c0.calc,
                                Ok(c) => r is Ok && c1.calc == c,
                            }
                        },
                    }),
            },
    {
        match self {
            KnownLstSolValCalc::Spl(c) => c.update(account_map),
            KnownLstSolValCalc::SanctumSpl(c) => c.update(account_map),
        }
    }

    /// The accounts whose current contents must be supplied before pricing
    /// is valid, for the wrapped calculator.
    pub fn get_accounts_to_update(&self) -> (r: Vec<Pubkey>)
        ensures
            r@ =~= seq![
                spec_clock_sysvar_id(),
                (match *self {
                    KnownLstSolValCalc::Spl(c) => c.stake_pool_addr,
                    KnownLstSolValCalc::SanctumSpl(c) => c.stake_pool_addr,
                }),
            ],
    {
        match self {
            KnownLstSolValCalc::Spl(c) => c.get_accounts_to_update(),
            KnownLstSolValCalc::SanctumSpl(c) => c.get_accounts_to_update(),
        }
    }

    /// The fixed account metas a price-refresh invocation of the wrapped
    /// backend must supply: its mint and its backend pool state, both
    /// read-only, whichever the variant.
    pub fn ix_accounts(&self) -> (r: Vec<AccountMetaView>)
        ensures
            r@ =~= (match *self {
                KnownLstSolValCalc::Spl(c) => seq![
                    (AccountMetaView { key: c.lst_mint, is_signer: false, is_writable: false }),
                    (AccountMetaView {
                        key: c.stake_pool_addr,
                        is_signer: false,
                        is_writable: false,
                    }),
                ],
                KnownLstSolValCalc::SanctumSpl(c) => seq![
                    (AccountMetaView { key: c.lst_mint, is_signer: false, is_writable: false }),
                    (AccountMetaView {
                        key: c.stake_pool_addr,
                        is_signer: false,
                        is_writable: false,
                    }),
                ],
            }),
    {
        match self {
            KnownLstSolValCalc::Spl(c) => c.ix_accounts(),
            KnownLstSolValCalc::SanctumSpl(c) => c.ix_accounts(),
        }
    }
}

} // verus!
