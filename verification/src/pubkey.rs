//! 32-byte account addresses and program-derived-address (PDA) resolution.
//!
//! An address is stored as four 64-bit words; the on-the-wire form is the 32
//! bytes obtained by concatenating the words' little-endian encodings. PDA
//! derivation itself is a hash computation done by an outside crate; every
//! caller-supplied derived address is checked against a fresh derivation.

use vstd::prelude::*;

use crate::bytes::{push_u64_le, read_u64_le, u64_le_seq, u64v};

verus! {

/// A 32-byte account address. The four words are the little-endian
/// interpretation of bytes 0..8, 8..16, 16..24 and 24..32.
#[derive(Clone, Copy, Debug, PartialEq, Eq, Structural)]
pub struct Pubkey {
    pub w0: u64,
    pub w1: u64,
    pub w2: u64,
    pub w3: u64,
}

/// Byte `j` of the 32-byte form of an address.
pub open spec fn pk_byte(k: Pubkey, j: int) -> u8 {
    if j < 8 {
        u64_le_seq(k.w0)[j]
    } else if j < 16 {
        u64_le_seq(k.w1)[j - 8]
    } else if j < 24 {
        u64_le_seq(k.w2)[j - 16]
    } else {
        u64_le_seq(k.w3)[j - 24]
    }
}

/// The 32-byte form of an address.
pub open spec fn pk_bytes(k: Pubkey) -> Seq<u8> {
    Seq::new(32, |j: int| pk_byte(k, j))
}

/// The address whose 32-byte form sits at `off`.
pub open spec fn pk_at(s: Seq<u8>, off: int) -> Pubkey {
    Pubkey {
        w0: u64v(s, off) as u64,
        w1: u64v(s, off + 8) as u64,
        w2: u64v(s, off + 16) as u64,
        w3: u64v(s, off + 24) as u64,
    }
}

impl Pubkey {
    pub fn new(w0: u64, w1: u64, w2: u64, w3: u64) -> (r: Pubkey)
        ensures
            r == (Pubkey { w0, w1, w2, w3 }),
    {
        Pubkey { w0, w1, w2, w3 }
    }

    /// The 32-byte form of this address.
    pub fn to_vec(&self) -> (r: Vec<u8>)
        ensures
            r@ =~= pk_bytes(*self),
    {
        let mut out: Vec<u8> = Vec::new();
        push_u64_le(&mut out, self.w0);
        push_u64_le(&mut out, self.w1);
        push_u64_le(&mut out, self.w2);
        push_u64_le(&mut out, self.w3);
        out
    }
}

/// Appends the 32-byte form of `k`.
pub fn push_pubkey(out: &mut Vec<u8>, k: &Pubkey)
    ensures
        final(out)@.len() == old(out)@.len() + 32,
        forall|j: int| 0 <= j < old(out)@.len() ==> final(out)@[j] == old(out)@[j],
        pk_at(final(out)@, old(out)@.len() as int) == *k,
{
    push_u64_le(out, k.w0);
    push_u64_le(out, k.w1);
    push_u64_le(out, k.w2);
    push_u64_le(out, k.w3);
}

/// Reads the address whose 32-byte form is at `off`.
pub fn read_pubkey(s: &[u8], off: usize) -> (r: Pubkey)
    requires
        off + 32 <= s@.len(),
    ensures
        r == pk_at(s@, off as int),
{
    // Binding the length as a usize lets the offset arithmetic below be
    // checked against the machine's address range.
    let _n: usize = s.len();
    Pubkey {
        w0: read_u64_le(s, off),
        w1: read_u64_le(s, off + 8),
        w2: read_u64_le(s, off + 16),
        w3: read_u64_le(s, off + 24),
    }
}

/// The deployed pool controller program's address.
pub open spec fn spec_controller_program_id() -> Pubkey {
    Pubkey { w0: 0x11aa_22bb_33cc_44dd, w1: 0x55ee_66ff_7700_8811, w2: 0x99a1_b2c3_d4e5_f607, w3: 0x1829_3a4b_5c6d_7e8f }
}

#[verifier::when_used_as_spec(spec_controller_program_id)]
pub fn controller_program_id() -> (r: Pubkey)
    ensures
        r == spec_controller_program_id(),
{
    Pubkey { w0: 0x11aa_22bb_33cc_44dd, w1: 0x55ee_66ff_7700_8811, w2: 0x99a1_b2c3_d4e5_f607, w3: 0x1829_3a4b_5c6d_7e8f }
}

/// The deployed flat-fee pricing program's address.
pub open spec fn spec_flat_fee_program_id() -> Pubkey {
    Pubkey { w0: 0x0f1e_2d3c_4b5a_6978, w1: 0x8796_a5b4_c3d2_e1f0, w2: 0x0102_0304_0506_0708, w3: 0x090a_0b0c_0d0e_0f10 }
}

#[verifier::when_used_as_spec(spec_flat_fee_program_id)]
pub fn flat_fee_program_id() -> (r: Pubkey)
    ensures
        r == spec_flat_fee_program_id(),
{
    Pubkey { w0: 0x0f1e_2d3c_4b5a_6978, w1: 0x8796_a5b4_c3d2_e1f0, w2: 0x0102_0304_0506_0708, w3: 0x090a_0b0c_0d0e_0f10 }
}

/// The SOL-value calculator program for plain SPL stake pools.
pub open spec fn spec_spl_calculator_program_id() -> Pubkey {
    Pubkey { w0: 0x73_70_6c, w1: 0x63_61_6c_63, w2: 1, w3: 1 }
}

#[verifier::when_used_as_spec(spec_spl_calculator_program_id)]
pub fn spl_calculator_program_id() -> (r: Pubkey)
    ensures
        r == spec_spl_calculator_program_id(),
{
    Pubkey { w0: 0x73_70_6c, w1: 0x63_61_6c_63, w2: 1, w3: 1 }
}

/// The SOL-value calculator program for Sanctum SPL stake pools.
pub open spec fn spec_sanctum_spl_calculator_program_id() -> Pubkey {
    Pubkey { w0: 0x73_70_6c, w1: 0x63_61_6c_63, w2: 2, w3: 2 }
}

#[verifier::when_used_as_spec(spec_sanctum_spl_calculator_program_id)]
pub fn sanctum_spl_calculator_program_id() -> (r: Pubkey)
    ensures
        r == spec_sanctum_spl_calculator_program_id(),
{
    Pubkey { w0: 0x73_70_6c, w1: 0x63_61_6c_63, w2: 2, w3: 2 }
}

/// The token program's address.
pub open spec fn spec_token_program_id() -> Pubkey {
    Pubkey { w0: 0x70_6b_6e, w1: 0x70_6b_6e, w2: 0x70_6b_6e, w3: 0x70_6b_6e }
}

#[verifier::when_used_as_spec(spec_token_program_id)]
pub fn token_program_id() -> (r: Pubkey)
    ensures
        r == spec_token_program_id(),
{
    Pubkey { w0: 0x70_6b_6e, w1: 0x70_6b_6e, w2: 0x70_6b_6e, w3: 0x70_6b_6e }
}

/// The associated-token-account program's address.
pub open spec fn spec_ata_program_id() -> Pubkey {
    Pubkey { w0: 0x61_74_61, w1: 0x61_74_61, w2: 0x61_74_61, w3: 0x61_74_61 }
}

#[verifier::when_used_as_spec(spec_ata_program_id)]
pub fn ata_program_id() -> (r: Pubkey)
    ensures
        r == spec_ata_program_id(),
{
    Pubkey { w0: 0x61_74_61, w1: 0x61_74_61, w2: 0x61_74_61, w3: 0x61_74_61 }
}

/// The system program's address (all zero bytes).
pub open spec fn spec_system_program_id() -> Pubkey {
    Pubkey { w0: 0, w1: 0, w2: 0, w3: 0 }
}

#[verifier::when_used_as_spec(spec_system_program_id)]
pub fn system_program_id() -> (r: Pubkey)
    ensures
        r == spec_system_program_id(),
{
    Pubkey { w0: 0, w1: 0, w2: 0, w3: 0 }
}

/// The instructions sysvar's address.
pub open spec fn spec_instructions_sysvar_id() -> Pubkey {
    Pubkey { w0: 0x69_78_73, w1: 0x69_78_73, w2: 0x69_78_73, w3: 0x69_78_73 }
}

#[verifier::when_used_as_spec(spec_instructions_sysvar_id)]
pub fn instructions_sysvar_id() -> (r: Pubkey)
    ensures
        r == spec_instructions_sysvar_id(),
{
    Pubkey { w0: 0x69_78_73, w1: 0x69_78_73, w2: 0x69_78_73, w3: 0x69_78_73 }
}

/// The clock sysvar's address.
pub open spec fn spec_clock_sysvar_id() -> Pubkey {
    Pubkey { w0: 0x63_6c_6b, w1: 0x63_6c_6b, w2: 0x63_6c_6b, w3: 0x63_6c_6b }
}

#[verifier::when_used_as_spec(spec_clock_sysvar_id)]
pub fn clock_sysvar_id() -> (r: Pubkey)
    ensures
        r == spec_clock_sysvar_id(),
{
    Pubkey { w0: 0x63_6c_6b, w1: 0x63_6c_6b, w2: 0x63_6c_6b, w3: 0x63_6c_6b }
}

/// What `try_find_program_address` of the outside crate returns for given
/// seeds and program address bytes: the derived address's 32 bytes and the
/// bump byte, or nothing in the statistically improbable case that no bump
/// yields a valid derivation. The derivation is a hash of its arguments
/// alone, so the result is a function of them.
pub uninterp spec fn pda_of(seeds: Seq<Seq<u8>>, program_id: Seq<u8>) -> Option<(Seq<u8>, u8)>;

/// The derived address for `seeds` under `program_id`, as this library's
/// address type.
pub open spec fn derived_address(seeds: Seq<Seq<u8>>, program_id: Pubkey) -> Option<(Pubkey, u8)> {
    match pda_of(seeds, pk_bytes(program_id)) {
        Option::Some(p) => Some((pk_at(p.0, 0), p.1)),
        Option::None => None,
    }
}

/// Relies on solana_program::pubkey::Pubkey::try_find_program_address: the
/// derived address and bump depend on the seeds and program address alone;
/// None is returned when the seed set is unusable (too many seeds, or a
/// seed over the maximum length) or, in the statistically improbable case,
/// when no bump byte yields a valid derivation.
#[verifier::external_body]
pub fn find_pda(seeds: &Vec<Vec<u8>>, program_id: &Pubkey) -> (r: Option<(Pubkey, u8)>)
    ensures
        r == (match pda_of(seeds@.map_values(|v: Vec<u8>| v@), pk_bytes(*program_id)) {
            Option::Some(p) => Some((pk_at(p.0, 0), p.1)),
            Option::None => None,
        }),
{
    let pid = solana_program::pubkey::Pubkey::try_from(program_id.to_vec().as_slice()).unwrap();
    let refs: Vec<&[u8]> = seeds.iter().map(|v| v.as_slice()).collect();
    solana_program::pubkey::Pubkey::try_find_program_address(&refs, &pid).map(|(k, bump)| {
        let b = k.to_bytes();
        (read_pubkey(&b[..], 0), bump)
    })
}

} // verus!
