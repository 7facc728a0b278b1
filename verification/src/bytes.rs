//! Little-endian integer fields of fixed-layout binary records.
//!
//! Every persisted record and instruction payload in this crate is a sequence
//! of little-endian integer fields at fixed offsets. The spec functions here
//! give the value of such a field as a function of the raw bytes; the
//! executable functions read and append fields and are proved against those
//! spec functions.

use vstd::prelude::*;

verus! {

/// Value of the 2-byte little-endian field at `off`.
pub open spec fn u16v(s: Seq<u8>, off: int) -> int {
    s[off] + 0x100 * s[off + 1]
}

/// Value of the 4-byte little-endian field at `off`.
pub open spec fn u32v(s: Seq<u8>, off: int) -> int {
    s[off] + 0x100 * s[off + 1] + 0x1_0000 * s[off + 2] + 0x100_0000 * s[off + 3]
}

/// Value of the 8-byte little-endian field at `off`.
pub open spec fn u64v(s: Seq<u8>, off: int) -> int {
    s[off] + 0x100 * s[off + 1] + 0x1_0000 * s[off + 2] + 0x100_0000 * s[off + 3]
        + 0x1_0000_0000 * s[off + 4] + 0x100_0000_0000 * s[off + 5]
        + 0x1_0000_0000_0000 * s[off + 6] + 0x100_0000_0000_0000 * s[off + 7]
}

/// Value of the 2-byte little-endian field at `off`, read as a signed
/// two's-complement 16-bit integer.
pub open spec fn i16v(s: Seq<u8>, off: int) -> int {
    if u16v(s, off) < 0x8000 {
        u16v(s, off)
    } else {
        u16v(s, off) - 0x1_0000
    }
}

/// The 2-byte little-endian encoding of `v`.
pub open spec fn u16_le_seq(v: u16) -> Seq<u8> {
    seq![
        (v % 0x100) as u8,
        (v / 0x100) as u8,
    ]
}

/// The 4-byte little-endian encoding of `v`.
pub open spec fn u32_le_seq(v: u32) -> Seq<u8> {
    seq![
        (v % 0x100) as u8,
        ((v / 0x100) % 0x100) as u8,
        ((v / 0x1_0000) % 0x100) as u8,
        (v / 0x100_0000) as u8,
    ]
}

/// The 8-byte little-endian encoding of `v`.
pub open spec fn u64_le_seq(v: u64) -> Seq<u8> {
    seq![
        (v % 0x100) as u8,
        ((v / 0x100) % 0x100) as u8,
        ((v / 0x1_0000) % 0x100) as u8,
        ((v / 0x100_0000) % 0x100) as u8,
        ((v / 0x1_0000_0000) % 0x100) as u8,
        ((v / 0x100_0000_0000) % 0x100) as u8,
        ((v / 0x1_0000_0000_0000) % 0x100) as u8,
        (v / 0x100_0000_0000_0000) as u8,
    ]
}

/// The 2-byte little-endian two's-complement encoding of `v`.
pub open spec fn i16_le_seq(v: i16) -> Seq<u8> {
    if v >= 0 {
        u16_le_seq(v as u16)
    } else {
        u16_le_seq((v + 0x1_0000) as u16)
    }
}

pub fn read_u16_le(s: &[u8], off: usize) -> (r: u16)
    requires
        off + 2 <= s@.len(),
    ensures
        r == u16v(s@, off as int),
{
    let b0: u8 = s[off];
    let b1: u8 = s[off + 1];
    (b0 as u16) + 0x100 * (b1 as u16)
}

pub fn read_u32_le(s: &[u8], off: usize) -> (r: u32)
    requires
        off + 4 <= s@.len(),
    ensures
        r == u32v(s@, off as int),
{
    let b0: u8 = s[off];
    let b1: u8 = s[off + 1];
    let b2: u8 = s[off + 2];
    let b3: u8 = s[off + 3];
    (b0 as u32) + 0x100 * (b1 as u32) + 0x1_0000 * (b2 as u32) + 0x100_0000 * (b3 as u32)
}

pub fn read_u64_le(s: &[u8], off: usize) -> (r: u64)
    requires
        off + 8 <= s@.len(),
    ensures
        r == u64v(s@, off as int),
{
    let b0: u8 = s[off];
    let b1: u8 = s[off + 1];
    let b2: u8 = s[off + 2];
    let b3: u8 = s[off + 3];
    let b4: u8 = s[off + 4];
    let b5: u8 = s[off + 5];
    let b6: u8 = s[off + 6];
    let b7: u8 = s[off + 7];
    (b0 as u64) + 0x100 * (b1 as u64) + 0x1_0000 * (b2 as u64) + 0x100_0000 * (b3 as u64)
        + 0x1_0000_0000 * (b4 as u64) + 0x100_0000_0000 * (b5 as u64)
        + 0x1_0000_0000_0000 * (b6 as u64) + 0x100_0000_0000_0000 * (b7 as u64)
}

pub fn read_i16_le(s: &[u8], off: usize) -> (r: i16)
    requires
        off + 2 <= s@.len(),
    ensures
        r == i16v(s@, off as int),
{
    let u: u16 = read_u16_le(s, off);
    if u < 0x8000 {
        u as i16
    } else {
        ((u as i32) - 0x1_0000) as i16
    }
}

pub fn push_u16_le(out: &mut Vec<u8>, v: u16)
    ensures
        final(out)@.len() == old(out)@.len() + 2,
        forall|k: int| 0 <= k < old(out)@.len() ==> final(out)@[k] == old(out)@[k],
        u16v(final(out)@, old(out)@.len() as int) == v,
        final(out)@ =~= old(out)@ + u16_le_seq(v),
{
    let b0: u8 = (v % 0x100) as u8;
    let b1: u8 = (v / 0x100) as u8;
    out.push(b0);
    out.push(b1);
}

pub fn push_u32_le(out: &mut Vec<u8>, v: u32)
    ensures
        final(out)@.len() == old(out)@.len() + 4,
        forall|k: int| 0 <= k < old(out)@.len() ==> final(out)@[k] == old(out)@[k],
        u32v(final(out)@, old(out)@.len() as int) == v,
        final(out)@ =~= old(out)@ + u32_le_seq(v),
{
    let b0: u8 = (v % 0x100) as u8;
    let b1: u8 = ((v / 0x100) % 0x100) as u8;
    let b2: u8 = ((v / 0x1_0000) % 0x100) as u8;
    let b3: u8 = (v / 0x100_0000) as u8;
    out.push(b0);
    out.push(b1);
    out.push(b2);
    out.push(b3);
    proof {
        lemma_u32_recompose(v);
    }
}

pub fn push_u64_le(out: &mut Vec<u8>, v: u64)
    ensures
        final(out)@.len() == old(out)@.len() + 8,
        forall|k: int| 0 <= k < old(out)@.len() ==> final(out)@[k] == old(out)@[k],
        u64v(final(out)@, old(out)@.len() as int) == v,
        final(out)@ =~= old(out)@ + u64_le_seq(v),
{
    let b0: u8 = (v % 0x100) as u8;
    let b1: u8 = ((v / 0x100) % 0x100) as u8;
    let b2: u8 = ((v / 0x1_0000) % 0x100) as u8;
    let b3: u8 = ((v / 0x100_0000) % 0x100) as u8;
    let b4: u8 = ((v / 0x1_0000_0000) % 0x100) as u8;
    let b5: u8 = ((v / 0x100_0000_0000) % 0x100) as u8;
    let b6: u8 = ((v / 0x1_0000_0000_0000) % 0x100) as u8;
    let b7: u8 = (v / 0x100_0000_0000_0000) as u8;
    out.push(b0);
    out.push(b1);
    out.push(b2);
    out.push(b3);
    out.push(b4);
    out.push(b5);
    out.push(b6);
    out.push(b7);
    proof {
        lemma_u64_recompose(v);
    }
}

pub fn push_i16_le(out: &mut Vec<u8>, v: i16)
    ensures
        final(out)@.len() == old(out)@.len() + 2,
        forall|k: int| 0 <= k < old(out)@.len() ==> final(out)@[k] == old(out)@[k],
        i16v(final(out)@, old(out)@.len() as int) == v,
        final(out)@ =~= old(out)@ + i16_le_seq(v),
{
    let u: u16 = if v >= 0 {
        v as u16
    } else {
        ((v as i32) + 0x1_0000) as u16
    };
    push_u16_le(out, u);
}

/// A 32-bit value is the sum of its four little-endian base-256 digits.
proof fn lemma_u32_recompose(v: u32)
    ensures
        v == (v % 0x100) + 0x100 * ((v / 0x100) % 0x100) + 0x1_0000 * ((v / 0x1_0000) % 0x100)
            + 0x100_0000 * (v / 0x100_0000),
{
    assert(v == (v % 0x100) + 0x100 * ((v / 0x100) % 0x100) + 0x1_0000 * ((v / 0x1_0000) % 0x100)
        + 0x100_0000 * (v / 0x100_0000)) by (bit_vector);
}

/// A 64-bit value is the sum of its eight little-endian base-256 digits.
proof fn lemma_u64_recompose(v: u64)
    ensures
        v == (v % 0x100) + 0x100 * ((v / 0x100) % 0x100) + 0x1_0000 * ((v / 0x1_0000) % 0x100)
            + 0x100_0000 * ((v / 0x100_0000) % 0x100)
            + 0x1_0000_0000 * ((v / 0x1_0000_0000) % 0x100)
            + 0x100_0000_0000 * ((v / 0x100_0000_0000) % 0x100)
            + 0x1_0000_0000_0000 * ((v / 0x1_0000_0000_0000) % 0x100)
            + 0x100_0000_0000_0000 * (v / 0x100_0000_0000_0000),
{
    assert(v == (v % 0x100) + 0x100 * ((v / 0x100) % 0x100) + 0x1_0000 * ((v / 0x1_0000) % 0x100)
        + 0x100_0000 * ((v / 0x100_0000) % 0x100)
        + 0x1_0000_0000 * ((v / 0x1_0000_0000) % 0x100)
        + 0x100_0000_0000 * ((v / 0x100_0000_0000) % 0x100)
        + 0x1_0000_0000_0000 * ((v / 0x1_0000_0000_0000) % 0x100)
        + 0x100_0000_0000_0000 * (v / 0x100_0000_0000_0000)) by (bit_vector);
}

/// Two byte sequences that agree on the value of a 2-byte little-endian
/// field agree on each of its bytes.
pub proof fn lemma_u16_field_unique(a: Seq<u8>, i: int, b: Seq<u8>, j: int)
    requires
        0 <= i, i + 2 <= a.len(),
        0 <= j, j + 2 <= b.len(),
        u16v(a, i) == u16v(b, j),
    ensures
        a[i] == b[j], a[i + 1] == b[j + 1],
{
    let a0: u16 = a[i] as u16; let a1: u16 = a[i+1] as u16;
    let b0: u16 = b[j] as u16; let b1: u16 = b[j+1] as u16;
    assert(
        (a0 < 0x100 && a1 < 0x100 && b0 < 0x100 && b1 < 0x100
            && a0 + 0x100 * a1 == b0 + 0x100 * b1)
        ==> (a0 == b0 && a1 == b1)
    ) by (bit_vector);
}

/// Two byte sequences that agree on the value of an 8-byte little-endian
/// field agree on each of its bytes.
pub proof fn lemma_u64_field_unique(a: Seq<u8>, i: int, b: Seq<u8>, j: int)
    requires
        0 <= i, i + 8 <= a.len(),
        0 <= j, j + 8 <= b.len(),
        u64v(a, i) == u64v(b, j),
    ensures
        a[i] == b[j], a[i + 1] == b[j + 1], a[i + 2] == b[j + 2], a[i + 3] == b[j + 3],
        a[i + 4] == b[j + 4], a[i + 5] == b[j + 5], a[i + 6] == b[j + 6], a[i + 7] == b[j + 7],
{
    let a0: u64 = a[i] as u64; let a1: u64 = a[i+1] as u64; let a2: u64 = a[i+2] as u64; let a3: u64 = a[i+3] as u64;
    let a4: u64 = a[i+4] as u64; let a5: u64 = a[i+5] as u64; let a6: u64 = a[i+6] as u64; let a7: u64 = a[i+7] as u64;
    let b0: u64 = b[j] as u64; let b1: u64 = b[j+1] as u64; let b2: u64 = b[j+2] as u64; let b3: u64 = b[j+3] as u64;
    let b4: u64 = b[j+4] as u64; let b5: u64 = b[j+5] as u64; let b6: u64 = b[j+6] as u64; let b7: u64 = b[j+7] as u64;
    assert(
        (a0 < 0x100 && a1 < 0x100 && a2 < 0x100 && a3 < 0x100 && a4 < 0x100 && a5 < 0x100
            && a6 < 0x100 && a7 < 0x100 && b0 < 0x100 && b1 < 0x100 && b2 < 0x100 && b3 < 0x100
            && b4 < 0x100 && b5 < 0x100 && b6 < 0x100 && b7 < 0x100
            && a0 + 0x100 * a1 + 0x1_0000 * a2 + 0x100_0000 * a3 + 0x1_0000_0000 * a4
                + 0x100_0000_0000 * a5 + 0x1_0000_0000_0000 * a6 + 0x100_0000_0000_0000 * a7
            == b0 + 0x100 * b1 + 0x1_0000 * b2 + 0x100_0000 * b3 + 0x1_0000_0000 * b4
                + 0x100_0000_0000 * b5 + 0x1_0000_0000_0000 * b6 + 0x100_0000_0000_0000 * b7)
        ==> (a0 == b0 && a1 == b1 && a2 == b2 && a3 == b3 && a4 == b4 && a5 == b5 && a6 == b6
            && a7 == b7)
    ) by (bit_vector);
}

} // verus!
