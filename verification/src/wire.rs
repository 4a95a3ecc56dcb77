//! Little-endian fixed-width integers at fixed offsets of a byte buffer.

use vstd::prelude::*;

verus! {

/// The unsigned 16 bit integer stored low byte first at `at`.
pub open spec fn le_u16(bytes: Seq<u8>, at: int) -> u16 {
    (bytes[at] as int + 256 * (bytes[at + 1] as int)) as u16
}

/// The signed 16 bit integer stored low byte first, in two's complement, at `at`.
pub open spec fn le_i16(bytes: Seq<u8>, at: int) -> i16 {
    let unsigned = le_u16(bytes, at) as int;
    if unsigned < 0x8000 {
        unsigned as i16
    } else {
        (unsigned - 0x1_0000) as i16
    }
}

/// The unsigned 32 bit integer stored low byte first at `at`.
pub open spec fn le_u32(bytes: Seq<u8>, at: int) -> u32 {
    (bytes[at] as int + 0x100 * (bytes[at + 1] as int) + 0x1_0000 * (bytes[at + 2] as int)
        + 0x100_0000 * (bytes[at + 3] as int)) as u32
}

/// Byte `j` of `value` in little-endian order: the low byte for zero, the
/// high byte otherwise.
pub open spec fn u16_le_byte(value: u16, j: int) -> u8 {
    if j == 0 {
        (value as int % 256) as u8
    } else {
        (value as int / 256) as u8
    }
}

/// `bytes` with `value` stored low byte first at `at` and `at + 1`.
pub open spec fn with_le_u16(bytes: Seq<u8>, at: int, value: u16) -> Seq<u8> {
    bytes.update(at, u16_le_byte(value, 0)).update(at + 1, u16_le_byte(value, 1))
}

/// The unsigned integer with the same 32 bits as `value` in two's complement.
pub open spec fn twos_complement(value: i32) -> int {
    if value < 0 {
        value as int + 0x1_0000_0000
    } else {
        value as int
    }
}

/// `bytes` with `value` stored low byte first, in two's complement, at
/// `at .. at + 4`.
pub open spec fn with_le_i32(bytes: Seq<u8>, at: int, value: i32) -> Seq<u8> {
    let bits = twos_complement(value);
    bytes.update(at, (bits % 256) as u8).update(at + 1, (bits / 0x100 % 256) as u8).update(
        at + 2,
        (bits / 0x1_0000 % 256) as u8,
    ).update(at + 3, (bits / 0x100_0000 % 256) as u8)
}

/// Reads the unsigned 16 bit integer stored low byte first at `at`.
pub fn read_le_u16(buffer: &[u8], at: usize) -> (value: u16)
    requires
        at + 2 <= buffer@.len(),
    ensures
        value == le_u16(buffer@, at as int),
{
    let low = buffer[at] as u16;
    let high = buffer[at + 1] as u16;
    assert(low | (high << 8) == low + 256 * high) by (bit_vector)
        requires
            low < 256,
            high < 256,
    ;
    low | (high << 8)
}

/// Reads the signed 16 bit integer stored low byte first at `at`.
pub fn read_le_i16(buffer: &[u8], at: usize) -> (value: i16)
    requires
        at + 2 <= buffer@.len(),
    ensures
        value == le_i16(buffer@, at as int),
{
    let unsigned = read_le_u16(buffer, at);
    assert(unsigned < 0x8000 ==> (unsigned as i16) == unsigned) by (bit_vector);
    assert(unsigned >= 0x8000 ==> (unsigned as i16) == unsigned - 0x1_0000) by (bit_vector);
    unsigned as i16
}

/// Reads the unsigned 32 bit integer stored low byte first at `at`.
pub fn read_le_u32(buffer: &[u8], at: usize) -> (value: u32)
    requires
        at + 4 <= buffer@.len(),
    ensures
        value == le_u32(buffer@, at as int),
{
    let b0 = buffer[at] as u32;
    let b1 = buffer[at + 1] as u32;
    let b2 = buffer[at + 2] as u32;
    let b3 = buffer[at + 3] as u32;
    assert(b0 | (b1 << 8) | (b2 << 16) | (b3 << 24) == b0 + 0x100 * b1 + 0x1_0000 * b2 + 0x100_0000
        * b3) by (bit_vector)
        requires
            b0 < 256,
            b1 < 256,
            b2 < 256,
            b3 < 256,
    ;
    b0 | (b1 << 8) | (b2 << 16) | (b3 << 24)
}

/// Stores `value` low byte first at `at` and `at + 1`.
pub fn write_le_u16(buffer: &mut [u8], at: usize, value: u16)
    requires
        at + 2 <= old(buffer)@.len(),
    ensures
        final(buffer)@ == with_le_u16(old(buffer)@, at as int, value),
{
    assert((value & 0xff) == value % 256 && (value >> 8) == value / 256 && (value >> 8) < 256)
        by (bit_vector);
    buffer[at] = (value & 0xff) as u8;
    buffer[at + 1] = (value >> 8) as u8;
}

/// Stores `value` low byte first, in two's complement, at `at .. at + 4`.
pub fn write_le_i32(buffer: &mut [u8], at: usize, value: i32)
    requires
        at + 4 <= old(buffer)@.len(),
    ensures
        final(buffer)@ == with_le_i32(old(buffer)@, at as int, value),
{
    let bits = value as u32;
    assert(value >= 0 ==> (value as u32) == value) by (bit_vector);
    assert(value < 0 ==> (value as u32) == value + 0x1_0000_0000) by (bit_vector);
    assert(bits == twos_complement(value));
    assert((bits & 0xff) == bits % 256 && ((bits >> 8) & 0xff) == bits / 0x100 % 256 && ((bits
        >> 16) & 0xff) == bits / 0x1_0000 % 256 && (bits >> 24) == bits / 0x100_0000 % 256 && (bits
        >> 24) < 256) by (bit_vector);
    buffer[at] = (bits & 0xff) as u8;
    buffer[at + 1] = ((bits >> 8) & 0xff) as u8;
    buffer[at + 2] = ((bits >> 16) & 0xff) as u8;
    buffer[at + 3] = (bits >> 24) as u8;
}

} // verus!
