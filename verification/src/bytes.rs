//! Fixed-width little-endian integers inside byte buffers.

use vstd::prelude::*;

verus! {

/// The value of the two bytes at `at`, least significant byte first.
pub open spec fn u16_le(s: Seq<u8>, at: int) -> int {
    s[at] as int + 0x100 * (s[at + 1] as int)
}

/// The value of the four bytes at `at`, least significant byte first.
pub open spec fn u32_le(s: Seq<u8>, at: int) -> int {
    u16_le(s, at) + 0x1_0000 * u16_le(s, at + 2)
}

/// The value of the eight bytes at `at`, least significant byte first.
pub open spec fn u64_le(s: Seq<u8>, at: int) -> int {
    u32_le(s, at) + 0x1_0000_0000 * u32_le(s, at + 4)
}

/// The two's-complement reading of a 16-bit pattern.
pub open spec fn signed16(pattern: int) -> int {
    if pattern < 0x8000 {
        pattern
    } else {
        pattern - 0x1_0000
    }
}

/// The two's-complement reading of a 64-bit pattern.
pub open spec fn signed64(pattern: int) -> int {
    if pattern < 0x8000_0000_0000_0000 {
        pattern
    } else {
        pattern - 0x1_0000_0000_0000_0000
    }
}

/// The two bytes that encode `value`, least significant byte first.
pub open spec fn u16_bytes(value: int) -> Seq<u8> {
    seq![(value % 0x100) as u8, (value / 0x100 % 0x100) as u8]
}

/// The four bytes that encode `value`, least significant byte first.
pub open spec fn u32_bytes(value: int) -> Seq<u8> {
    u16_bytes(value % 0x1_0000) + u16_bytes(value / 0x1_0000)
}

/// The eight bytes that encode `value`, least significant byte first.
pub open spec fn u64_bytes(value: int) -> Seq<u8> {
    u32_bytes(value % 0x1_0000_0000) + u32_bytes(value / 0x1_0000_0000)
}

/// A 16-bit value is read back from its two bytes, wherever they stand.
pub proof fn lemma_u16_roundtrip(value: int, s: Seq<u8>, at: int)
    requires
        0 <= value < 0x1_0000,
        0 <= at,
        at + 2 <= s.len(),
        s.subrange(at, at + 2) == u16_bytes(value),
    ensures
        u16_le(s, at) == value,
{
    let field = s.subrange(at, at + 2);
    assert(s[at] == field[0] && s[at + 1] == field[1]);
}

/// A 32-bit value is read back from its four bytes, wherever they stand.
pub proof fn lemma_u32_roundtrip(value: int, s: Seq<u8>, at: int)
    requires
        0 <= value < 0x1_0000_0000,
        0 <= at,
        at + 4 <= s.len(),
        s.subrange(at, at + 4) == u32_bytes(value),
    ensures
        u32_le(s, at) == value,
{
    let field = s.subrange(at, at + 4);
    assert(s.subrange(at, at + 2) =~= field.subrange(0, 2));
    assert(s.subrange(at + 2, at + 4) =~= field.subrange(2, 4));
    assert(field.subrange(0, 2) =~= u16_bytes(value % 0x1_0000));
    assert(field.subrange(2, 4) =~= u16_bytes(value / 0x1_0000));
    lemma_u16_roundtrip(value % 0x1_0000, s, at);
    lemma_u16_roundtrip(value / 0x1_0000, s, at + 2);
}

/// A 64-bit value is read back from its eight bytes, wherever they stand.
pub proof fn lemma_u64_roundtrip(value: int, s: Seq<u8>, at: int)
    requires
        0 <= value < 0x1_0000_0000_0000_0000,
        0 <= at,
        at + 8 <= s.len(),
        s.subrange(at, at + 8) == u64_bytes(value),
    ensures
        u64_le(s, at) == value,
{
    let field = s.subrange(at, at + 8);
    assert(s.subrange(at, at + 4) =~= field.subrange(0, 4));
    assert(s.subrange(at + 4, at + 8) =~= field.subrange(4, 8));
    assert(field.subrange(0, 4) =~= u32_bytes(value % 0x1_0000_0000));
    assert(field.subrange(4, 8) =~= u32_bytes(value / 0x1_0000_0000));
    lemma_u32_roundtrip(value % 0x1_0000_0000, s, at);
    lemma_u32_roundtrip(value / 0x1_0000_0000, s, at + 4);
}

/// Reads the 16-bit value at `at`.
pub(crate) fn read_u16_le(data: &[u8], at: usize) -> (value: u16)
    requires
        at + 2 <= data.len(),
    ensures
        value == u16_le(data@, at as int),
{
    let lo: u16 = data[at] as u16;
    let hi: u16 = data[at + 1] as u16;
    lo + 0x100 * hi
}

/// Reads the 32-bit value at `at`.
pub(crate) fn read_u32_le(data: &[u8], at: usize) -> (value: u32)
    requires
        at + 4 <= data.len(),
    ensures
        value == u32_le(data@, at as int),
{
    let lo: u32 = read_u16_le(data, at) as u32;
    let hi: u32 = read_u16_le(data, at + 2) as u32;
    lo + 0x1_0000 * hi
}

/// Reads the 64-bit value at `at`.
pub(crate) fn read_u64_le(data: &[u8], at: usize) -> (value: u64)
    requires
        at + 8 <= data.len(),
    ensures
        value == u64_le(data@, at as int),
{
    let lo: u64 = read_u32_le(data, at) as u64;
    let hi: u64 = read_u32_le(data, at + 4) as u64;
    lo + 0x1_0000_0000 * hi
}

/// Reads the signed 16-bit value at `at`.
pub(crate) fn read_i16_le(data: &[u8], at: usize) -> (value: i16)
    requires
        at + 2 <= data.len(),
    ensures
        value == signed16(u16_le(data@, at as int)),
{
    let pattern: u16 = read_u16_le(data, at);
    if pattern < 0x8000 {
        pattern as i16
    } else {
        let low: i16 = (pattern - 0x8000) as i16;
        low + i16::MIN
    }
}

/// Reads the signed 64-bit value at `at`.
pub(crate) fn read_i64_le(data: &[u8], at: usize) -> (value: i64)
    requires
        at + 8 <= data.len(),
    ensures
        value == signed64(u64_le(data@, at as int)),
{
    let pattern: u64 = read_u64_le(data, at);
    if pattern < 0x8000_0000_0000_0000 {
        pattern as i64
    } else {
        let low: i64 = (pattern - 0x8000_0000_0000_0000) as i64;
        low + i64::MIN
    }
}

/// Appends the two bytes of `value` to `out`.
pub fn write_u16_le(value: u16, out: &mut Vec<u8>)
    ensures
        final(out)@ == old(out)@ + u16_bytes(value as int),
{
    out.push((value % 0x100) as u8);
    out.push((value / 0x100) as u8);
    assert(out@ =~= old(out)@ + u16_bytes(value as int));
}

/// Appends the four bytes of `value` to `out`.
pub fn write_u32_le(value: u32, out: &mut Vec<u8>)
    ensures
        final(out)@ == old(out)@ + u32_bytes(value as int),
{
    write_u16_le((value % 0x1_0000) as u16, out);
    write_u16_le((value / 0x1_0000) as u16, out);
    assert(out@ =~= old(out)@ + u32_bytes(value as int));
}

/// Appends the eight bytes of `value` to `out`.
pub fn write_u64_le(value: u64, out: &mut Vec<u8>)
    ensures
        final(out)@ == old(out)@ + u64_bytes(value as int),
{
    write_u32_le((value % 0x1_0000_0000) as u32, out);
    write_u32_le((value / 0x1_0000_0000) as u32, out);
    assert(out@ =~= old(out)@ + u64_bytes(value as int));
}

} // verus!
