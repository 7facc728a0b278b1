//! Wire-format tests for the flat-fee program's instruction codec.

use s_controller::errors::ParseError;
use s_controller::flat_fee::instructions::{
    AddLstIxArgs, AddLstIxData, FlatFeeProgramIx, InitializeIxArgs, InitializeIxData,
    PriceExactInIxArgs, PriceExactInIxData, PriceExactOutIxArgs, PriceExactOutIxData,
    PriceLpTokensToMintIxArgs, PriceLpTokensToMintIxData, PriceLpTokensToRedeemIxArgs,
    PriceLpTokensToRedeemIxData, RemoveLstIxArgs, RemoveLstIxData, SetLpWithdrawalFeeIxArgs,
    SetLpWithdrawalFeeIxData, SetLstFeeIxArgs, SetLstFeeIxData, SetManagerIxArgs, SetManagerIxData,
};

#[test]
fn price_exact_in_exact_bytes() {
    let data = PriceExactInIxData(PriceExactInIxArgs { amount: 1, sol_value: 2 }).serialize();
    assert_eq!(
        data,
        vec![0u8, 1, 0, 0, 0, 0, 0, 0, 0, 2, 0, 0, 0, 0, 0, 0, 0]
    );
}

#[test]
fn price_exact_in_round_trip() {
    let args = PriceExactInIxArgs { amount: 0xdead_beef_0102_0304, sol_value: u64::MAX };
    let data = PriceExactInIxData(args.clone()).serialize();
    let back = PriceExactInIxData::deserialize(&data).unwrap();
    assert_eq!(back.0, args);
}

#[test]
fn price_exact_in_wrong_discm() {
    let mut data = PriceExactInIxData(PriceExactInIxArgs { amount: 1, sol_value: 2 }).serialize();
    data[0] = 7;
    assert_eq!(
        PriceExactInIxData::deserialize(&data),
        Err(ParseError::WrongDiscm)
    );
}

#[test]
fn price_exact_in_short_buffer() {
    assert_eq!(
        PriceExactInIxData::deserialize(&[0u8, 1, 2]),
        Err(ParseError::UnexpectedEnd)
    );
    assert_eq!(
        PriceExactInIxData::deserialize(&[]),
        Err(ParseError::UnexpectedEnd)
    );
}

#[test]
fn price_exact_in_ignores_trailing_bytes() {
    let mut data = PriceExactInIxData(PriceExactInIxArgs { amount: 9, sol_value: 10 }).serialize();
    data.push(0xaa);
    data.push(0xbb);
    let back = PriceExactInIxData::deserialize(&data).unwrap();
    assert_eq!(back.0, PriceExactInIxArgs { amount: 9, sol_value: 10 });
}

#[test]
fn price_exact_out_round_trip() {
    let args = PriceExactOutIxArgs { amount: 3, sol_value: 4 };
    let data = PriceExactOutIxData(args.clone()).serialize();
    assert_eq!(data[0], 1);
    assert_eq!(PriceExactOutIxData::deserialize(&data).unwrap().0, args);
}

#[test]
fn set_lst_fee_negative_bps_bytes() {
    let data = SetLstFeeIxData(SetLstFeeIxArgs { input_fee_bps: -1, output_fee_bps: 2 })
        .serialize();
    assert_eq!(data, vec![251u8, 0xff, 0xff, 2, 0]);
    let back = SetLstFeeIxData::deserialize(&data).unwrap();
    assert_eq!(back.0.input_fee_bps, -1);
    assert_eq!(back.0.output_fee_bps, 2);
}

#[test]
fn add_lst_round_trip() {
    let args = AddLstIxArgs { input_fee_bps: i16::MIN, output_fee_bps: i16::MAX };
    let data = AddLstIxData(args.clone()).serialize();
    assert_eq!(data[0], 253);
    assert_eq!(AddLstIxData::deserialize(&data).unwrap().0, args);
}

#[test]
fn set_lp_withdrawal_fee_round_trip() {
    let args = SetLpWithdrawalFeeIxArgs { lp_withdrawal_fee_bps: 0x1234 };
    let data = SetLpWithdrawalFeeIxData(args.clone()).serialize();
    assert_eq!(data, vec![250u8, 0x34, 0x12]);
    assert_eq!(SetLpWithdrawalFeeIxData::deserialize(&data).unwrap().0, args);
}

#[test]
fn empty_payload_instructions() {
    assert_eq!(
        RemoveLstIxData(RemoveLstIxArgs {}).serialize(),
        vec![252u8]
    );
    assert_eq!(
        SetManagerIxData(SetManagerIxArgs {}).serialize(),
        vec![254u8]
    );
    assert_eq!(
        InitializeIxData(InitializeIxArgs {}).serialize(),
        vec![255u8]
    );
    assert!(RemoveLstIxData::deserialize(&[252u8]).is_ok());
    assert!(SetManagerIxData::deserialize(&[254u8]).is_ok());
    assert!(InitializeIxData::deserialize(&[255u8]).is_ok());
    assert_eq!(
        SetManagerIxData::deserialize(&[255u8]),
        Err(ParseError::WrongDiscm)
    );
}

#[test]
fn program_ix_round_trip_every_variant() {
    let cases = vec![
        FlatFeeProgramIx::PriceExactIn(PriceExactInIxArgs { amount: 1, sol_value: 2 }),
        FlatFeeProgramIx::PriceExactOut(PriceExactOutIxArgs { amount: 3, sol_value: 4 }),
        FlatFeeProgramIx::PriceLpTokensToMint(PriceLpTokensToMintIxArgs {
            amount: 5,
            sol_value: 6,
        }),
        FlatFeeProgramIx::PriceLpTokensToRedeem(PriceLpTokensToRedeemIxArgs {
            amount: 7,
            sol_value: 8,
        }),
        FlatFeeProgramIx::SetLpWithdrawalFee(SetLpWithdrawalFeeIxArgs {
            lp_withdrawal_fee_bps: 9,
        }),
        FlatFeeProgramIx::SetLstFee(SetLstFeeIxArgs { input_fee_bps: -10, output_fee_bps: 11 }),
        FlatFeeProgramIx::RemoveLst(RemoveLstIxArgs {}),
        FlatFeeProgramIx::AddLst(AddLstIxArgs { input_fee_bps: 12, output_fee_bps: -13 }),
        FlatFeeProgramIx::SetManager(SetManagerIxArgs {}),
        FlatFeeProgramIx::Initialize(InitializeIxArgs {}),
    ];
    for ix in cases {
        let data = ix.serialize();
        let back = FlatFeeProgramIx::deserialize(&data).unwrap();
        assert_eq!(back, ix);
    }
}

#[test]
fn program_ix_unknown_discm() {
    assert_eq!(
        FlatFeeProgramIx::deserialize(&[9u8, 0, 0]),
        Err(ParseError::UnknownDiscm)
    );
    assert_eq!(
        FlatFeeProgramIx::deserialize(&[]),
        Err(ParseError::UnexpectedEnd)
    );
}
