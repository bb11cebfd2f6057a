//! Big- and little-endian numbers in bytes.
use vstd::prelude::*;

verus! {

/// The big-endian bytes of a 16-bit number.
pub open spec fn be16(v: int) -> Seq<u8> {
    seq![(v / 0x100) as u8, (v % 0x100) as u8]
}

/// The big-endian bytes of a 32-bit number.
pub open spec fn be32(v: int) -> Seq<u8> {
    seq![
        (v / 0x100_0000) as u8,
        (v / 0x1_0000 % 0x100) as u8,
        (v / 0x100 % 0x100) as u8,
        (v % 0x100) as u8,
    ]
}

/// The 16-bit big-endian number at `i`.
pub open spec fn be16_at(bytes: Seq<u8>, i: int) -> int {
    bytes[i] * 0x100 + bytes[i + 1]
}

/// The 32-bit big-endian number at `i`.
pub open spec fn be32_at(bytes: Seq<u8>, i: int) -> int {
    be16_at(bytes, i) * 0x1_0000 + be16_at(bytes, i + 2)
}

/// The two's complement bit pattern of a 16-bit number.
pub open spec fn bits16(v: i16) -> int {
    if v < 0 { v + 0x1_0000 } else { v as int }
}

pub fn be16_bytes(v: u16) -> (r: [u8; 2])
    ensures
        r@ == be16(v as int),
{
    let r: [u8; 2] = [(v / 0x100) as u8, (v % 0x100) as u8];
    proof {
        assert(r@ =~= be16(v as int));
    }
    r
}

pub fn be32_bytes(v: u32) -> (r: [u8; 4])
    ensures
        r@ == be32(v as int),
{
    let r: [u8; 4] = [
        (v / 0x100_0000) as u8,
        (v / 0x1_0000 % 0x100) as u8,
        (v / 0x100 % 0x100) as u8,
        (v % 0x100) as u8,
    ];
    proof {
        assert(r@ =~= be32(v as int));
    }
    r
}

pub fn read_be16(bytes: &[u8], i: usize) -> (v: u16)
    requires
        i + 2 <= bytes@.len(),
    ensures
        v == be16_at(bytes@, i as int),
{
    (bytes[i] as u16) * 0x100 + (bytes[i + 1] as u16)
}

pub fn read_be32(bytes: &[u8], i: usize) -> (v: u32)
    requires
        i + 4 <= bytes@.len(),
    ensures
        v == be32_at(bytes@, i as int),
{
    (bytes[i] as u32) * 0x100_0000 + (bytes[i + 1] as u32) * 0x1_0000 + (bytes[i + 2] as u32)
        * 0x100 + (bytes[i + 3] as u32)
}

/// The bit pattern of a signed number.
pub fn to_bits16(v: i16) -> (r: u16)
    ensures
        r == bits16(v),
{
    if v < 0 {
        (v as i32 + 0x1_0000) as u16
    } else {
        v as u16
    }
}

/// A 32-bit number that was written big-endian is read back.
pub proof fn law_be32_is_read_back(v: int)
    requires
        0 <= v < 0x1_0000_0000,
    ensures
        be32_at(be32(v), 0) == v,
{
}

/// Big-endian bytes are the digits of a number to the base 256, the highest first.
pub proof fn law_big_endian_is_base_256(v: int, w: int)
    requires
        0 <= v < 0x1_0000,
        0 <= w < 0x1_0000_0000,
    ensures
        be16(v).len() == 2,
        be16(v)[0] * 256 + be16(v)[1] == v,
        be32(w).len() == 4,
        be32(w)[0] * 0x100_0000 + be32(w)[1] * 0x1_0000 + be32(w)[2] * 0x100 + be32(w)[3] == w,
{
}

/// Big-endian numbers are read with their highest byte first.
pub proof fn law_big_endian_is_read_highest_first(bytes: Seq<u8>, i: int)
    requires
        0 <= i,
    ensures
        i + 2 <= bytes.len() ==> be16_at(bytes, i) == bytes[i] * 256 + bytes[i + 1],
        i + 4 <= bytes.len() ==> be32_at(bytes, i) == bytes[i] * 0x100_0000 + bytes[i + 1] * 0x1_0000 + bytes[i + 2] * 0x100
            + bytes[i + 3],
{
}

/// The bit pattern of a signed number is the number modulo 2^16.
pub proof fn law_bit_pattern_is_modulo(v: i16)
    ensures
        0 <= bits16(v) < 0x1_0000,
        bits16(v) == v || bits16(v) == v + 0x1_0000,
{
}

} // verus!
