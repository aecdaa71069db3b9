//! Fixed-width integers in a stated byte order.

use crate::probe::Endianness;
use vstd::prelude::*;

verus! {

/// The unsigned 16-bit integer at `i`.
pub open spec fn u16_at(order: Endianness, s: Seq<u8>, i: int) -> int {
    match order {
        Endianness::Little => s[i] + 0x100 * s[i + 1],
        Endianness::Big => 0x100 * s[i] + s[i + 1],
    }
}

/// The unsigned 32-bit integer at `i`.
pub open spec fn u32_at(order: Endianness, s: Seq<u8>, i: int) -> int {
    match order {
        Endianness::Little => u16_at(order, s, i) + 0x1_0000 * u16_at(order, s, i + 2),
        Endianness::Big => 0x1_0000 * u16_at(order, s, i) + u16_at(order, s, i + 2),
    }
}

/// The unsigned 64-bit integer at `i`.
pub open spec fn u64_at(order: Endianness, s: Seq<u8>, i: int) -> int {
    match order {
        Endianness::Little => u32_at(order, s, i) + 0x1_0000_0000 * u32_at(order, s, i + 4),
        Endianness::Big => 0x1_0000_0000 * u32_at(order, s, i) + u32_at(order, s, i + 4),
    }
}

/// The two's complement 32-bit integer at `i`.
pub open spec fn i32_at(order: Endianness, s: Seq<u8>, i: int) -> int {
    let n = u32_at(order, s, i);
    if n < 0x8000_0000 {
        n
    } else {
        n - 0x1_0000_0000
    }
}

/// The two's complement 64-bit integer at `i`.
pub open spec fn i64_at(order: Endianness, s: Seq<u8>, i: int) -> int {
    let n = u64_at(order, s, i);
    if n < 0x8000_0000_0000_0000 {
        n
    } else {
        n - 0x1_0000_0000_0000_0000
    }
}

/// Reads the unsigned 16-bit integer at `i`.
pub fn read_u16(order: Endianness, bytes: &[u8], i: usize) -> (n: u16)
    requires
        i + 2 <= bytes.len(),
    ensures
        n == u16_at(order, bytes@, i as int),
{
    match order {
        Endianness::Little => bytes[i] as u16 + 0x100 * bytes[i + 1] as u16,
        Endianness::Big => 0x100 * bytes[i] as u16 + bytes[i + 1] as u16,
    }
}

/// Reads the unsigned 32-bit integer at `i`.
pub fn read_u32(order: Endianness, bytes: &[u8], i: usize) -> (n: u32)
    requires
        i + 4 <= bytes.len(),
    ensures
        n == u32_at(order, bytes@, i as int),
{
    let first: u32 = read_u16(order, bytes, i) as u32;
    let second: u32 = read_u16(order, bytes, i + 2) as u32;
    match order {
        Endianness::Little => first + 0x1_0000 * second,
        Endianness::Big => 0x1_0000 * first + second,
    }
}

/// Reads the two's complement 32-bit integer at `i`.
pub fn read_i32(order: Endianness, bytes: &[u8], i: usize) -> (n: i32)
    requires
        i + 4 <= bytes.len(),
    ensures
        n == i32_at(order, bytes@, i as int),
{
    let n: i64 = read_u32(order, bytes, i) as i64;
    if n < 0x8000_0000 {
        n as i32
    } else {
        (n - 0x1_0000_0000) as i32
    }
}

/// Reads the two's complement 64-bit integer at `i`.
pub fn read_i64(order: Endianness, bytes: &[u8], i: usize) -> (n: i64)
    requires
        i + 8 <= bytes.len(),
    ensures
        n == i64_at(order, bytes@, i as int),
{
    let first: i128 = read_u32(order, bytes, i) as i128;
    let second: i128 = read_u32(order, bytes, i + 4) as i128;
    let n: i128 = match order {
        Endianness::Little => first + 0x1_0000_0000 * second,
        Endianness::Big => 0x1_0000_0000 * first + second,
    };
    if n < 0x8000_0000_0000_0000 {
        n as i64
    } else {
        (n - 0x1_0000_0000_0000_0000) as i64
    }
}

/// Integers are positional: in little order each byte counts 256 times as much
/// as the one before it, in big order as the one behind it.
pub proof fn law_bytes_are_positional(s: Seq<u8>, i: int)
    ensures
        u16_at(Endianness::Little, s, i) == s[i] + 0x100 * s[i + 1],
        u16_at(Endianness::Big, s, i) == s[i + 1] + 0x100 * s[i],
        u32_at(Endianness::Little, s, i) == s[i] + 0x100 * s[i + 1] + 0x1_0000 * s[i + 2]
            + 0x100_0000 * s[i + 3],
        u32_at(Endianness::Big, s, i) == s[i + 3] + 0x100 * s[i + 2] + 0x1_0000 * s[i + 1]
            + 0x100_0000 * s[i],
        u64_at(Endianness::Little, s, i) == u32_at(Endianness::Little, s, i) + 0x1_0000_0000
            * u32_at(Endianness::Little, s, i + 4),
        u64_at(Endianness::Big, s, i) == u32_at(Endianness::Big, s, i + 4) + 0x1_0000_0000
            * u32_at(Endianness::Big, s, i),
{
}

/// A signed integer is the unsigned one of the same bytes, less the whole range
/// where the highest bit is set.
pub proof fn law_signs_are_the_highest_bit(order: Endianness, s: Seq<u8>, i: int)
    ensures
        i32_at(order, s, i) == u32_at(order, s, i) || i32_at(order, s, i) == u32_at(order, s, i)
            - 0x1_0000_0000,
        -0x8000_0000 <= i32_at(order, s, i) < 0x8000_0000,
        i64_at(order, s, i) == u64_at(order, s, i) || i64_at(order, s, i) == u64_at(order, s, i)
            - 0x1_0000_0000_0000_0000,
        -0x8000_0000_0000_0000 <= i64_at(order, s, i) < 0x8000_0000_0000_0000,
{
}

} // verus!
