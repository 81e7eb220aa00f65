//! Little-endian integers in byte sequences.

use byteorder::{LittleEndian, ReadBytesExt};
use vstd::prelude::*;

verus! {

/// The number that the first four bytes of `bytes` hold, least significant
/// byte first.
pub open spec fn le_u32(bytes: Seq<u8>) -> u32 {
    (bytes[0] as int + 0x100 * bytes[1] as int + 0x1_0000 * bytes[2] as int + 0x100_0000
        * bytes[3] as int) as u32
}

/// The number that the first eight bytes of `bytes` hold, least significant
/// byte first.
pub open spec fn le_u64(bytes: Seq<u8>) -> u64 {
    (le_u32(bytes) as int + 0x1_0000_0000 * le_u32(bytes.skip(4)) as int) as u64
}

/// The four bytes that hold `value`, least significant byte first.
pub open spec fn le_bytes_of_u32(value: u32) -> Seq<u8> {
    seq![
        (value % 0x100) as u8,
        (value / 0x100 % 0x100) as u8,
        (value / 0x1_0000 % 0x100) as u8,
        (value / 0x100_0000) as u8,
    ]
}

/// The eight bytes that hold `value`, least significant byte first.
pub open spec fn le_bytes_of_u64(value: u64) -> Seq<u8> {
    le_bytes_of_u32((value % 0x1_0000_0000) as u32) + le_bytes_of_u32(
        (value / 0x1_0000_0000) as u32,
    )
}

/// Reading back the bytes of a 32-bit number gives the number.
pub proof fn lemma_le_u32_round_trip(value: u32)
    ensures
        le_bytes_of_u32(value).len() == 4,
        le_u32(le_bytes_of_u32(value)) == value,
{
    assert(value / 0x1_0000 == value / 0x100 / 0x100) by (bit_vector);
    assert(value / 0x100_0000 == value / 0x100 / 0x100 / 0x100) by (bit_vector);
    assert(value / 0x100_0000 < 0x100) by (bit_vector);
}

/// Reading back the bytes of a 64-bit number gives the number, whatever
/// follows them.
pub proof fn lemma_le_u64_round_trip(value: u64, rest: Seq<u8>)
    ensures
        le_bytes_of_u64(value).len() == 8,
        le_u64(le_bytes_of_u64(value) + rest) == value,
{
    let low = (value % 0x1_0000_0000) as u32;
    let high = (value / 0x1_0000_0000) as u32;
    let bytes = le_bytes_of_u64(value) + rest;
    lemma_le_u32_round_trip(low);
    lemma_le_u32_round_trip(high);
    assert(bytes[0] == le_bytes_of_u32(low)[0]);
    assert(bytes[1] == le_bytes_of_u32(low)[1]);
    assert(bytes[2] == le_bytes_of_u32(low)[2]);
    assert(bytes[3] == le_bytes_of_u32(low)[3]);
    assert(bytes.skip(4)[0] == le_bytes_of_u32(high)[0]);
    assert(bytes.skip(4)[1] == le_bytes_of_u32(high)[1]);
    assert(bytes.skip(4)[2] == le_bytes_of_u32(high)[2]);
    assert(bytes.skip(4)[3] == le_bytes_of_u32(high)[3]);
}

/// `byteorder::ReadBytesExt::read_u32` with `LittleEndian`, on a byte slice.
/// The call reads four bytes and returns the number they hold, least
/// significant byte first; on a slice of fewer than four bytes it fails.
#[verifier::external_body]
pub(crate) fn read_u32_le(bytes: &[u8]) -> (value: Option<u32>)
    ensures
        bytes@.len() >= 4 ==> value == Some(le_u32(bytes@)),
        bytes@.len() < 4 ==> value is None,
{
    let mut reader = bytes;
    reader.read_u32::<LittleEndian>().ok()
}

/// `byteorder::ReadBytesExt::read_u64` with `LittleEndian`, on a byte slice.
/// The call reads eight bytes and returns the number they hold, least
/// significant byte first; on a slice of fewer than eight bytes it fails.
#[verifier::external_body]
pub(crate) fn read_u64_le(bytes: &[u8]) -> (value: Option<u64>)
    ensures
        bytes@.len() >= 8 ==> value == Some(le_u64(bytes@)),
        bytes@.len() < 8 ==> value is None,
{
    let mut reader = bytes;
    reader.read_u64::<LittleEndian>().ok()
}

/// `u64::to_le_bytes`: the memory representation of the number as a byte
/// array in little-endian order.
#[verifier::external_body]
pub(crate) fn to_le_bytes(value: u64) -> (bytes: [u8; 8])
    ensures
        bytes@ == le_bytes_of_u64(value),
{
    value.to_le_bytes()
}

} // verus!
