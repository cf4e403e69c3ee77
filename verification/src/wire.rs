//! Primitive wire encodings: VarInt, booleans, bytes and big-endian words.

use vstd::prelude::*;

verus! {

/// The LEB128 bytes of an unsigned 32-bit value: seven bits per byte, least
/// significant group first, the high bit set on every byte but the last.
pub open spec fn leb128(x: u32) -> Seq<u8>
    decreases x,
{
    if x < 0x80 {
        seq![x as u8]
    } else {
        seq![(x % 0x80 + 0x80) as u8] + leb128(x / 0x80)
    }
}

/// The bytes of a VarInt: the LEB128 encoding of the value's 32-bit pattern.
pub open spec fn var_int_bytes(v: i32) -> Seq<u8> {
    leb128(v as u32)
}

/// The value that a LEB128 byte sequence stands for.
pub open spec fn leb128_value(s: Seq<u8>) -> int
    decreases s.len(),
{
    if s.len() == 0 {
        0
    } else if s[0] < 0x80 {
        s[0] as int
    } else {
        (s[0] - 0x80) + 0x80 * leb128_value(s.drop_first())
    }
}

/// The value that a VarInt byte sequence stands for.
pub open spec fn var_int_value(s: Seq<u8>) -> i32 {
    (leb128_value(s) as u32) as i32
}

/// A boolean is one byte, 1 for true and 0 for false.
pub open spec fn bool_bytes(b: bool) -> Seq<u8> {
    if b {
        seq![1u8]
    } else {
        seq![0u8]
    }
}

/// The four bytes of a 32-bit word, most significant first.
pub open spec fn u32_be_bytes(x: u32) -> Seq<u8> {
    seq![
        (x / 0x100_0000) as u8,
        (x / 0x1_0000 % 0x100) as u8,
        (x / 0x100 % 0x100) as u8,
        (x % 0x100) as u8,
    ]
}

/// A VarInt is one to five bytes; every byte but the last has its high bit
/// set and the last has it clear, so a reader finds its end; and reading it
/// back, whatever bytes follow, gives the value written.
pub proof fn lemma_var_int_round_trip(v: i32, rest: Seq<u8>)
    ensures
        1 <= var_int_bytes(v).len() <= 5,
        forall|i: int| 0 <= i < var_int_bytes(v).len() - 1 ==> var_int_bytes(v)[i] >= 0x80,
        var_int_bytes(v).last() < 0x80,
        var_int_value(var_int_bytes(v) + rest) == v,
{
    lemma_leb128(v as u32, rest);
    assert(((v as u32) as i32) == v) by (bit_vector);
}

/// The facts of `lemma_var_int_round_trip`, stated over the unsigned pattern.
proof fn lemma_leb128(x: u32, rest: Seq<u8>)
    ensures
        1 <= leb128(x).len(),
        x < 0x80 ==> leb128(x).len() == 1,
        x < 0x4000 ==> leb128(x).len() <= 2,
        x < 0x20_0000 ==> leb128(x).len() <= 3,
        x < 0x1000_0000 ==> leb128(x).len() <= 4,
        leb128(x).len() <= 5,
        forall|i: int| 0 <= i < leb128(x).len() - 1 ==> leb128(x)[i] >= 0x80,
        leb128(x).last() < 0x80,
        leb128_value(leb128(x) + rest) == x,
    decreases x,
{
    if x < 0x80 {
        assert((leb128(x) + rest)[0] == x as u8);
    } else {
        let q: u32 = x / 0x80;
        let b: u8 = (x % 0x80 + 0x80) as u8;
        lemma_leb128(q, rest);
        let s = leb128(x);
        assert(s == seq![b] + leb128(q));
        assert(forall|i: int| 0 < i < s.len() ==> s[i] == leb128(q)[i - 1]);
        assert((s + rest).drop_first() == leb128(q) + rest);
        assert((s + rest)[0] == b);
    }
}

/// Appends the VarInt encoding of `value`.
pub fn write_var_int(out: &mut Vec<u8>, value: i32)
    ensures
        final(out)@ == old(out)@ + var_int_bytes(value),
{
    let mut val: u32 = value as u32;
    loop
        invariant_except_break
            out@ + leb128(val) == old(out)@ + var_int_bytes(value),
        ensures
            out@ == old(out)@ + var_int_bytes(value),
        decreases val,
    {
        let low: u8 = (val % 0x80) as u8;
        let rest: u32 = val / 0x80;
        if rest == 0 {
            proof {
                assert(leb128(val) == seq![low]);
            }
            out.push(low);
            break;
        } else {
            let ghost before = out@;
            proof {
                assert(leb128(val) == seq![(low + 0x80) as u8] + leb128(rest));
            }
            out.push(low + 0x80);
            assert(out@ + leb128(rest) == before + leb128(val));
            val = rest;
        }
    }
}

/// Appends a boolean byte.
pub fn write_bool(out: &mut Vec<u8>, b: bool)
    ensures
        final(out)@ == old(out)@ + bool_bytes(b),
{
    if b {
        out.push(1u8);
    } else {
        out.push(0u8);
    }
}

/// Appends one byte.
pub fn write_u8(out: &mut Vec<u8>, b: u8)
    ensures
        final(out)@ == old(out)@ + seq![b],
{
    out.push(b);
}

/// Appends a 32-bit word in big-endian order; a float is written as the
/// word of its bits.
pub fn write_u32_be(out: &mut Vec<u8>, x: u32)
    ensures
        final(out)@ == old(out)@ + u32_be_bytes(x),
{
    out.push((x / 0x100_0000) as u8);
    out.push((x / 0x1_0000 % 0x100) as u8);
    out.push((x / 0x100 % 0x100) as u8);
    out.push((x % 0x100) as u8);
}

} // verus!
