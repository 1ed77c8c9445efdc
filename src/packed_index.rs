//! One 64-bit word holding both cursors of the sample ring: the producer's
//! write position in the high half and the consumer's read position in the
//! low half. Each side replaces only its own half, so a single load always
//! yields a consistent pair.
use vstd::prelude::*;

verus! {

/// The number of values one half of the word can hold.
pub open spec fn half_range() -> int {
    0x1_0000_0000
}

/// The write position held in a packed word.
pub open spec fn write_of(p: u64) -> int {
    p as int / half_range()
}

/// The read position held in a packed word.
pub open spec fn read_of(p: u64) -> int {
    p as int % half_range()
}

/// Builds the word that holds `write` and `read`.
pub fn pack(write: u32, read: u32) -> (p: u64)
    ensures
        write_of(p) == write as int,
        read_of(p) == read as int,
{
    let p: u64 = ((write as u64) << 32u64) | (read as u64);
    assert(((write as u64) << 32u64 | read as u64) / 0x1_0000_0000u64 == write as u64
        && ((write as u64) << 32u64 | read as u64) % 0x1_0000_0000u64 == read as u64)
        by (bit_vector);
    p
}

/// The write position of a packed word.
pub fn write_half(p: u64) -> (w: u32)
    ensures
        w as int == write_of(p),
{
    assert(p >> 32u64 == p / 0x1_0000_0000u64 && p >> 32u64 <= 0xffff_ffffu64) by (bit_vector);
    (p >> 32u64) as u32
}

/// The read position of a packed word.
pub fn read_half(p: u64) -> (r: u32)
    ensures
        r as int == read_of(p),
{
    assert(p & 0xffff_ffffu64 == p % 0x1_0000_0000u64) by (bit_vector);
    (p & 0xffff_ffffu64) as u32
}

/// The word that `current` becomes when the producer moves its cursor to
/// `write`: the read half is carried over unchanged.
pub fn with_write_half(current: u64, write: u32) -> (p: u64)
    ensures
        write_of(p) == write as int,
        read_of(p) == read_of(current),
{
    pack(write, read_half(current))
}

/// The word that `current` becomes when the consumer moves its cursor to
/// `read`: the write half is carried over unchanged.
pub fn with_read_half(current: u64, read: u32) -> (p: u64)
    ensures
        write_of(p) == write_of(current),
        read_of(p) == read as int,
{
    pack(write_half(current), read)
}

} // verus!
