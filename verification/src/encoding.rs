use vstd::arithmetic::div_mod::lemma_div_denominator;
use vstd::prelude::*;

verus! {

/// The eight bytes of `value`, least significant first.
pub open spec fn u64_le_bytes(value: u64) -> Seq<u8> {
    seq![
        (value % 0x100) as u8,
        (value / 0x100 % 0x100) as u8,
        (value / 0x1_0000 % 0x100) as u8,
        (value / 0x100_0000 % 0x100) as u8,
        (value / 0x1_0000_0000 % 0x100) as u8,
        (value / 0x100_0000_0000 % 0x100) as u8,
        (value / 0x1_0000_0000_0000 % 0x100) as u8,
        (value / 0x100_0000_0000_0000 % 0x100) as u8,
    ]
}

/// The unsigned 64-bit number with the same bit pattern as `value` in two's
/// complement: `value` itself when it is not negative, `value + 2^64` otherwise.
pub open spec fn twos_complement(value: i64) -> u64 {
    if value >= 0 {
        value as u64
    } else {
        (value + 0x1_0000_0000_0000_0000) as u64
    }
}

/// The eight bytes of `value` in two's complement, least significant first.
pub open spec fn i64_le_bytes(value: i64) -> Seq<u8> {
    u64_le_bytes(twos_complement(value))
}

/// The number that eight little-endian bytes stand for.
pub open spec fn u64_from_le_bytes(bytes: Seq<u8>) -> int
    recommends
        bytes.len() == 8,
{
    bytes[0] + bytes[1] * 0x100 + bytes[2] * 0x1_0000 + bytes[3] * 0x100_0000 + bytes[4]
        * 0x1_0000_0000 + bytes[5] * 0x100_0000_0000 + bytes[6] * 0x1_0000_0000_0000 + bytes[7]
        * 0x100_0000_0000_0000
}

/// Decoding the little-endian bytes of a number gives the number back.
pub proof fn lemma_u64_le_round_trip(value: u64)
    ensures
        u64_le_bytes(value).len() == 8,
        u64_from_le_bytes(u64_le_bytes(value)) == value,
{
    let q0: int = value as int;
    let q1: int = q0 / 0x100;
    let q2: int = q1 / 0x100;
    let q3: int = q2 / 0x100;
    let q4: int = q3 / 0x100;
    let q5: int = q4 / 0x100;
    let q6: int = q5 / 0x100;
    let q7: int = q6 / 0x100;
    assert(q2 == q0 / 0x1_0000) by {
        lemma_div_denominator(q0, 0x100, 0x100);
    }
    assert(q3 == q0 / 0x100_0000) by {
        lemma_div_denominator(q0, 0x1_0000, 0x100);
    }
    assert(q4 == q0 / 0x1_0000_0000) by {
        lemma_div_denominator(q0, 0x100_0000, 0x100);
    }
    assert(q5 == q0 / 0x100_0000_0000) by {
        lemma_div_denominator(q0, 0x1_0000_0000, 0x100);
    }
    assert(q6 == q0 / 0x1_0000_0000_0000) by {
        lemma_div_denominator(q0, 0x100_0000_0000, 0x100);
    }
    assert(q7 == q0 / 0x100_0000_0000_0000) by {
        lemma_div_denominator(q0, 0x1_0000_0000_0000, 0x100);
    }
    assert(q7 < 0x100);
    let bytes = u64_le_bytes(value);
    assert(bytes[0] == q0 % 0x100);
    assert(bytes[1] == q1 % 0x100);
    assert(bytes[2] == q2 % 0x100);
    assert(bytes[3] == q3 % 0x100);
    assert(bytes[4] == q4 % 0x100);
    assert(bytes[5] == q5 % 0x100);
    assert(bytes[6] == q6 % 0x100);
    assert(bytes[7] == q7);
}

/// Different numbers have different little-endian encodings.
pub proof fn lemma_u64_le_injective(a: u64, b: u64)
    ensures
        (u64_le_bytes(a) == u64_le_bytes(b)) <==> (a == b),
{
    lemma_u64_le_round_trip(a);
    lemma_u64_le_round_trip(b);
}

/// Different signed numbers have different two's complement encodings.
pub proof fn lemma_i64_le_injective(a: i64, b: i64)
    ensures
        (i64_le_bytes(a) == i64_le_bytes(b)) <==> (a == b),
{
    lemma_u64_le_injective(twos_complement(a), twos_complement(b));
}

/// Reinterprets a signed number as the unsigned number with the same bits.
pub fn i64_to_twos_complement(value: i64) -> (bits: u64)
    ensures
        bits == twos_complement(value),
{
    if value >= 0 {
        value as u64
    } else {
        let offset: u64 = (value - i64::MIN) as u64;
        offset + 0x8000_0000_0000_0000u64
    }
}

/// Appends the eight little-endian bytes of `value` to `buf`.
pub fn push_u64_le(buf: &mut Vec<u8>, value: u64)
    ensures
        final(buf)@ == old(buf)@ + u64_le_bytes(value),
{
    buf.push((value % 0x100) as u8);
    buf.push((value / 0x100 % 0x100) as u8);
    buf.push((value / 0x1_0000 % 0x100) as u8);
    buf.push((value / 0x100_0000 % 0x100) as u8);
    buf.push((value / 0x1_0000_0000 % 0x100) as u8);
    buf.push((value / 0x100_0000_0000 % 0x100) as u8);
    buf.push((value / 0x1_0000_0000_0000 % 0x100) as u8);
    buf.push((value / 0x100_0000_0000_0000 % 0x100) as u8);
}

/// Appends the eight little-endian two's complement bytes of `value` to `buf`.
pub fn push_i64_le(buf: &mut Vec<u8>, value: i64)
    ensures
        final(buf)@ == old(buf)@ + i64_le_bytes(value),
{
    push_u64_le(buf, i64_to_twos_complement(value));
}

} // verus!
