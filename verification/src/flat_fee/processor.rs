//! The exact-in pricing path of the flat-fee program: account resolution
//! and verification, then the quoted SOL value.

use vstd::prelude::*;

use crate::bytes::{push_u64_le, u64v};
use crate::errors::{ParseError, ProgError, SControllerError};
use crate::flat_fee::keys::{
    price_exact_in_keys_err, price_exact_in_verify_account_keys, PriceExactInAccounts,
    PriceExactInKeys,
};
use crate::flat_fee::state::parse_fee_account;
use crate::flat_fee::state::try_fee_account;
use crate::pda::{fee_account_pda, find_fee_account_address};
use crate::pubkey::Pubkey;

verus! {

/// The free (caller-chosen) inputs from which the expected account list of
/// a price-exact-in instruction is resolved: the two mints being swapped.
#[derive(Clone, Copy, Debug, PartialEq, Eq, Structural)]
pub struct PriceExactInFreeArgs {
    pub input_lst_mint: Pubkey,
    pub output_lst_mint: Pubkey,
}

/// The expected keys resolved from the two mints, or why resolution fails.
pub open spec fn price_exact_in_resolve(args: PriceExactInFreeArgs) -> Result<
    PriceExactInKeys,
    ProgError,
> {
    match fee_account_pda(args.input_lst_mint) {
        Option::None => Err(ProgError::Controller(SControllerError::UnderivableAddress)),
        Option::Some(inp) => match fee_account_pda(args.output_lst_mint) {
            Option::None => Err(ProgError::Controller(SControllerError::UnderivableAddress)),
            Option::Some(outp) => Ok(
                PriceExactInKeys {
                    input_lst_mint: args.input_lst_mint,
                    output_lst_mint: args.output_lst_mint,
                    input_fee_acc: inp.0,
                    output_fee_acc: outp.0,
                },
            ),
        },
    }
}

impl PriceExactInFreeArgs {
    /// Resolves the expected account list: each fee account address is
    /// freshly derived from its mint.
    pub fn resolve(&self) -> (r: Result<PriceExactInKeys, ProgError>)
        ensures
            r == price_exact_in_resolve(*self),
    {
        let inp = match find_fee_account_address(&self.input_lst_mint) {
            Some(p) => p,
            None => {
                return Err(ProgError::Controller(SControllerError::UnderivableAddress));
            },
        };
        let outp = match find_fee_account_address(&self.output_lst_mint) {
            Some(p) => p,
            None => {
                return Err(ProgError::Controller(SControllerError::UnderivableAddress));
            },
        };
        Ok(
            PriceExactInKeys {
                input_lst_mint: self.input_lst_mint,
                output_lst_mint: self.output_lst_mint,
                input_fee_acc: inp.0,
                output_fee_acc: outp.0,
            },
        )
    }
}

/// Why verifying a supplied price-exact-in account list fails, if it does.
pub open spec fn verify_price_exact_in_err(a: PriceExactInAccounts) -> Option<ProgError> {
    let free = PriceExactInFreeArgs {
        input_lst_mint: a.input_lst_mint.key,
        output_lst_mint: a.output_lst_mint.key,
    };
    match price_exact_in_resolve(free) {
        Err(e) => Some(e),
        Ok(keys) => match price_exact_in_keys_err(a, keys) {
            Option::Some(p) => Some(ProgError::WrongAccount(p.0, p.1)),
            Option::None => None,
        },
    }
}

/// Verifies a supplied price-exact-in account list: the fee accounts must
/// sit at the addresses derived from the two mints. This instruction
/// demands no privileges.
pub fn verify_price_exact_in(accounts: &PriceExactInAccounts) -> (r: Result<(), ProgError>)
    ensures
        match verify_price_exact_in_err(*accounts) {
            Some(e) => r == Err::<(), ProgError>(e),
            None => r is Ok,
        },
{
    let free = PriceExactInFreeArgs {
        input_lst_mint: accounts.input_lst_mint.key,
        output_lst_mint: accounts.output_lst_mint.key,
    };
    let keys = match free.resolve() {
        Ok(k) => k,
        Err(e) => {
            return Err(e);
        },
    };
    match price_exact_in_verify_account_keys(accounts, &keys) {
        Ok(_) => Ok(()),
        Err(p) => Err(ProgError::WrongAccount(p.0, p.1)),
    }
}

/// What the exact-in quote returns: the input's SOL value, once both fee
/// account records have decoded. The fee parameters are read and reserved
/// for the fee levy; the quote itself passes the SOL value through.
pub open spec fn price_exact_in_result(
    input_fee_acc: Seq<u8>,
    output_fee_acc: Seq<u8>,
    sol_value: u64,
) -> Result<u64, ProgError> {
    match parse_fee_account(input_fee_acc) {
        Err(e) => Err(ProgError::Parse(e)),
        Ok(_) => match parse_fee_account(output_fee_acc) {
            Err(e) => Err(ProgError::Parse(e)),
            Ok(_) => Ok(sol_value),
        },
    }
}

/// Quotes the SOL value of the output for an exact-in swap whose input is
/// worth `sol_value`. "Unchecked" because account authorization is its
/// callers' duty; both fee account records are still required to decode.
pub fn process_price_exact_in_unchecked(
    input_fee_acc_data: &[u8],
    output_fee_acc_data: &[u8],
    amount: u64,
    sol_value: u64,
) -> (r: Result<u64, ProgError>)
    ensures
        r == price_exact_in_result(input_fee_acc_data@, output_fee_acc_data@, sol_value),
{
    match try_fee_account(input_fee_acc_data) {
        Ok(_) => {},
        Err(e) => {
            return Err(ProgError::Parse(e));
        },
    }
    match try_fee_account(output_fee_acc_data) {
        Ok(_) => {},
        Err(e) => {
            return Err(ProgError::Parse(e));
        },
    }
    Ok(sol_value)
}

/// The little-endian return buffer a pricing invocation hands back to its
/// caller.
pub fn pricing_return_data(result: u64) -> (r: Vec<u8>)
    ensures
        r@.len() == 8,
        u64v(r@, 0) == result,
{
    let mut out: Vec<u8> = Vec::new();
    push_u64_le(&mut out, result);
    out
}

} // verus!
