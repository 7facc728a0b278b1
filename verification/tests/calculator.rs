//! Calculator tests: pricing ranges, fetch-before-price errors, staleness,
//! and mint checks on snapshot refresh.

use s_controller::bytes::push_u64_le;
use s_controller::calculator::{
    AccountSnapshot, KnownLstSolValCalc, SanctumSplLstSolValCalc, SplLstSolValCalc,
    SplLstSolValCalcInitKeys, SplStakePoolCalc, StakePoolRecord,
};
use s_controller::errors::LstSolValCalcError;
use s_controller::pubkey::{clock_sysvar_id, Pubkey};

fn clock_bytes(epoch: u64) -> Vec<u8> {
    let mut v = vec![0u8; 16];
    push_u64_le(&mut v, epoch);
    while v.len() < 40 {
        v.push(0);
    }
    v
}

fn mint_a() -> Pubkey {
    Pubkey::new(11, 12, 13, 14)
}

fn pool_addr() -> Pubkey {
    Pubkey::new(21, 22, 23, 24)
}

fn fresh_calc() -> SanctumSplLstSolValCalc {
    SanctumSplLstSolValCalc::from_keys(SplLstSolValCalcInitKeys {
        lst_mint: mint_a(),
        stake_pool_addr: pool_addr(),
    })
}

fn snapshot(epoch: u64, rec: &StakePoolRecord) -> Vec<AccountSnapshot> {
    vec![
        AccountSnapshot { key: clock_sysvar_id(), data: clock_bytes(epoch) },
        AccountSnapshot { key: pool_addr(), data: rec.to_vec() },
    ]
}

#[test]
fn lst_to_sol_before_update_fails() {
    let calc = fresh_calc();
    assert_eq!(
        calc.lst_to_sol(100),
        Err(LstSolValCalcError::StakePoolNotFetched)
    );
    assert_eq!(
        calc.sol_to_lst(100),
        Err(LstSolValCalcError::StakePoolNotFetched)
    );
}

#[test]
fn lst_to_sol_without_clock_fails() {
    let mut calc = fresh_calc();
    let rec = StakePoolRecord {
        pool_mint: mint_a(),
        total_lamports: 3,
        pool_token_supply: 2,
        last_update_epoch: 5,
    };
    let snap = vec![AccountSnapshot { key: pool_addr(), data: rec.to_vec() }];
    calc.update(&snap).unwrap();
    assert_eq!(calc.lst_to_sol(100), Err(LstSolValCalcError::ClockNotFetched));
}

#[test]
fn update_wrong_mint_fails() {
    let mut calc = fresh_calc();
    let rec = StakePoolRecord {
        pool_mint: Pubkey::new(99, 99, 99, 99),
        total_lamports: 3,
        pool_token_supply: 2,
        last_update_epoch: 5,
    };
    let r = calc.update(&snapshot(5, &rec));
    assert_eq!(r, Err(LstSolValCalcError::WrongLstMint));
    // The rate was not taken; pricing still refuses.
    assert_eq!(
        calc.lst_to_sol(100),
        Err(LstSolValCalcError::StakePoolNotFetched)
    );
}

#[test]
fn stale_epoch_fails() {
    let mut calc = fresh_calc();
    let rec = StakePoolRecord {
        pool_mint: mint_a(),
        total_lamports: 3,
        pool_token_supply: 2,
        last_update_epoch: 5,
    };
    calc.update(&snapshot(6, &rec)).unwrap();
    assert_eq!(
        calc.lst_to_sol(100),
        Err(LstSolValCalcError::PoolNotUpdatedForThisEpoch)
    );
}

#[test]
fn lst_to_sol_exact_range() {
    let mut calc = fresh_calc();
    let rec = StakePoolRecord {
        pool_mint: mint_a(),
        total_lamports: 3,
        pool_token_supply: 2,
        last_update_epoch: 5,
    };
    calc.update(&snapshot(5, &rec)).unwrap();
    // 5 tokens * 3 lamports / 2 supply = 7.5: the range brackets it.
    let r = calc.lst_to_sol(5).unwrap();
    assert_eq!((r.min, r.max), (7, 8));
    // 3 lamports * 2 supply / 3 lamports = 2 exactly.
    let r = calc.sol_to_lst(3).unwrap();
    assert_eq!((r.min, r.max), (2, 2));
}

#[test]
fn range_min_le_max_samples() {
    let calc = SplStakePoolCalc { total_lamports: 7, pool_token_supply: 3, last_update_epoch: 0 };
    for amount in [0u64, 1, 2, 3, 1000, u64::MAX / 7] {
        let r = calc.calc_lst_to_sol(amount).unwrap();
        assert!(r.min <= r.max);
        let r = calc.calc_sol_to_lst(amount).unwrap();
        assert!(r.min <= r.max);
    }
}

#[test]
fn zero_supply_is_math_error() {
    let calc = SplStakePoolCalc { total_lamports: 7, pool_token_supply: 0, last_update_epoch: 0 };
    assert_eq!(calc.calc_lst_to_sol(5), Err(LstSolValCalcError::MathError));
}

#[test]
fn overflowing_rate_is_math_error() {
    let calc = SplStakePoolCalc {
        total_lamports: u64::MAX,
        pool_token_supply: 1,
        last_update_epoch: 0,
    };
    assert_eq!(calc.calc_lst_to_sol(2), Err(LstSolValCalcError::MathError));
}

#[test]
fn from_pool_takes_pool_mint() {
    let rec = StakePoolRecord {
        pool_mint: mint_a(),
        total_lamports: 10,
        pool_token_supply: 4,
        last_update_epoch: 1,
    };
    let calc = SanctumSplLstSolValCalc::from_pool(pool_addr(), &rec.to_vec()).unwrap();
    assert_eq!(calc.lst_mint(), mint_a());
    assert!(calc.calc.is_some());
    assert!(calc.clock_epoch.is_none());
}

#[test]
fn known_calc_wrong_variant_conversion_fails() {
    let spl = SplLstSolValCalc::from_keys(SplLstSolValCalcInitKeys {
        lst_mint: mint_a(),
        stake_pool_addr: pool_addr(),
    });
    let known = KnownLstSolValCalc::Spl(spl);
    assert!(matches!(
        SanctumSplLstSolValCalc::try_from_known(known),
        Err(LstSolValCalcError::WrongLstSolValCalc)
    ));
    let sanctum = fresh_calc();
    let known = KnownLstSolValCalc::SanctumSpl(sanctum);
    assert!(SanctumSplLstSolValCalc::try_from_known(known).is_ok());
}

#[test]
fn known_calc_updates_and_prices_through_the_union() {
    let spl = SplLstSolValCalc::from_keys(SplLstSolValCalcInitKeys {
        lst_mint: mint_a(),
        stake_pool_addr: pool_addr(),
    });
    let mut known = KnownLstSolValCalc::Spl(spl);
    let rec = StakePoolRecord {
        pool_mint: mint_a(),
        total_lamports: 3,
        pool_token_supply: 2,
        last_update_epoch: 5,
    };
    known.update(&snapshot(5, &rec)).unwrap();
    assert_eq!(known.lst_mint(), mint_a());
    let r = known.lst_to_sol(5).unwrap();
    assert_eq!((r.min, r.max), (7, 8));
    let r = known.sol_to_lst(3).unwrap();
    assert_eq!((r.min, r.max), (2, 2));
    // The union hands out the wrapped variant's fixed metas.
    let metas = known.ix_accounts();
    assert_eq!(metas.len(), 2);
    assert_eq!(metas[0].key, mint_a());
    assert_eq!(metas[1].key, pool_addr());
    assert!(!metas[0].is_signer && !metas[0].is_writable);
}

#[test]
fn get_accounts_to_update_lists_clock_and_pool() {
    let calc = fresh_calc();
    let accs = calc.get_accounts_to_update();
    assert_eq!(accs, vec![clock_sysvar_id(), pool_addr()]);
}
