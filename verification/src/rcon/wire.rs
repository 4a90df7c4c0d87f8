//! Little-endian 32-bit fields, as the packet header holds them.

use vstd::prelude::*;

verus! {

/// The four bytes, least significant first, of `v` taken modulo 2^32.
/// For a negative `v` this is its two's complement pattern.
pub open spec fn le_bytes(v: int) -> Seq<u8> {
    let w = v % 0x1_0000_0000;
    seq![
        (w % 0x100) as u8,
        (w / 0x100 % 0x100) as u8,
        (w / 0x1_0000 % 0x100) as u8,
        (w / 0x100_0000) as u8,
    ]
}

/// The unsigned number that the first four bytes of `b` spell, least
/// significant first.
pub open spec fn le_unsigned(b: Seq<u8>) -> int {
    b[0] + b[1] * 0x100 + b[2] * 0x1_0000 + b[3] * 0x100_0000
}

/// The signed 32-bit number that the first four bytes of `b` spell.
pub open spec fn le_signed(b: Seq<u8>) -> int {
    let w = le_unsigned(b);
    if w < 0x8000_0000 {
        w
    } else {
        w - 0x1_0000_0000
    }
}

/// Encoding a signed 32-bit number and reading it back gives the number.
pub proof fn lemma_le_signed_of_bytes(v: i32)
    ensures
        le_bytes(v as int).len() == 4,
        le_signed(le_bytes(v as int)) == v,
{
    let w = v as int % 0x1_0000_0000;
    assert(w == if v >= 0 {
        v as int
    } else {
        v + 0x1_0000_0000
    });
    let q1 = w / 0x100;
    let q2 = q1 / 0x100;
    let q3 = q2 / 0x100;
    assert(w / 0x1_0000 == q2);
    assert(w / 0x100_0000 == q3);
    assert(w == w % 0x100 + 0x100 * q1);
    assert(q1 == q1 % 0x100 + 0x100 * q2);
    assert(q2 == q2 % 0x100 + 0x100 * q3);
    assert(0 <= q3 < 0x100);
    let b = le_bytes(v as int);
    assert(b[0] == w % 0x100);
    assert(b[1] == q1 % 0x100);
    assert(b[2] == q2 % 0x100);
    assert(b[3] == q3);
    assert(le_unsigned(b) == w);
}

/// Reading four bytes and encoding the number gives the four bytes.
pub proof fn lemma_le_bytes_of_signed(b: Seq<u8>)
    requires
        b.len() == 4,
    ensures
        i32::MIN <= le_signed(b) <= i32::MAX,
        le_bytes(le_signed(b)) == b,
{
    let b0 = b[0] as int;
    let b1 = b[1] as int;
    let b2 = b[2] as int;
    let b3 = b[3] as int;
    let w = le_unsigned(b);
    assert(w == b0 + 0x100 * (b1 + 0x100 * (b2 + 0x100 * b3)));
    assert(le_signed(b) % 0x1_0000_0000 == w);
    assert(w % 0x100 == b0);
    assert(w / 0x100 == b1 + 0x100 * (b2 + 0x100 * b3));
    assert(w / 0x100 % 0x100 == b1);
    assert(w / 0x1_0000 == b2 + 0x100 * b3);
    assert(w / 0x1_0000 % 0x100 == b2);
    assert(w / 0x100_0000 == b3);
    assert(le_bytes(le_signed(b)) =~= b);
}

/// Only the low 32 bits of a number reach its bytes.
pub proof fn lemma_le_bytes_wraps(v: int)
    ensures
        le_bytes(v % 0x1_0000_0000) == le_bytes(v),
{
    assert((v % 0x1_0000_0000) % 0x1_0000_0000 == v % 0x1_0000_0000);
}

/// Appends the little-endian bytes of `w`.
pub fn push_le_u32(out: &mut Vec<u8>, w: u32)
    ensures
        final(out)@ == old(out)@ + le_bytes(w as int),
{
    out.push((w % 0x100) as u8);
    out.push((w / 0x100 % 0x100) as u8);
    out.push((w / 0x1_0000 % 0x100) as u8);
    out.push((w / 0x100_0000) as u8);
}

/// Appends the little-endian two's complement bytes of `v`.
pub fn push_le_i32(out: &mut Vec<u8>, v: i32)
    ensures
        final(out)@ == old(out)@ + le_bytes(v as int),
{
    let w: u32 = if v >= 0 {
        v as u32
    } else {
        (v as i64 + 0x1_0000_0000) as u32
    };
    push_le_u32(out, w);
}

/// Reads the signed little-endian field that starts at `at`.
pub fn read_le_i32(bytes: &[u8], at: usize) -> (v: i32)
    requires
        at + 4 <= bytes@.len(),
    ensures
        v == le_signed(bytes@.subrange(at as int, at + 4)),
{
    let b0: u32 = bytes[at] as u32;
    let b1: u32 = bytes[at + 1] as u32;
    let b2: u32 = bytes[at + 2] as u32;
    let b3: u32 = bytes[at + 3] as u32;
    let w: u32 = b0 + b1 * 0x100 + b2 * 0x1_0000 + b3 * 0x100_0000;
    if w < 0x8000_0000 {
        w as i32
    } else {
        (w as i64 - 0x1_0000_0000) as i32
    }
}

} // verus!
