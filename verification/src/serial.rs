//! Framing of encoded values: an encoding travels behind its size.

use vstd::prelude::*;
use vstd::slice::slice_subrange;
use crate::endian::{le_bytes_of_u64, le_u64, lemma_le_u64_round_trip, read_u64_le, to_le_bytes};

verus! {

/// The number of bytes that the size takes in front of an encoding.
pub const SIZE_BYTES: usize = 8;

/// An encoding with its size in front: the number of its bytes as a 64-bit
/// number, least significant byte first, and then the bytes themselves.
pub open spec fn with_size(serial: Seq<u8>) -> Seq<u8> {
    le_bytes_of_u64(serial.len() as u64) + serial
}

/// Tacks the size of an encoding on its front, as a 64-bit number with the
/// least significant byte first.
pub fn encode_with_size(serial: &[u8]) -> (data: Vec<u8>)
    ensures
        data@ == with_size(serial@),
{
    let mut data: Vec<u8> = Vec::new();
    let size = to_le_bytes(serial.len() as u64);
    let mut index: usize = 0;
    while index < SIZE_BYTES
        invariant
            index <= SIZE_BYTES,
            size@.len() == SIZE_BYTES,
            data@ == size@.take(index as int),
        decreases SIZE_BYTES - index,
    {
        data.push(size[index]);
        assert(data@ =~= size@.take(index + 1));
        index += 1;
    }
    assert(data@ =~= size@);
    data.extend_from_slice(serial);
    assert(data@ =~= with_size(serial@));
    data
}

/// The size that stands in front of an encoding: the 64-bit number in the
/// first eight bytes of `data`. `None` when `data` has fewer than eight bytes.
pub fn encoded_size(data: &[u8]) -> (size: Option<u64>)
    ensures
        data@.len() >= SIZE_BYTES ==> size == Some(le_u64(data@)),
        data@.len() < SIZE_BYTES ==> size is None,
{
    read_u64_le(data)
}

/// The encoding behind the size: `data` without its first eight bytes.
pub fn decode_with_size(data: &[u8]) -> (serial: &[u8])
    requires
        data@.len() >= SIZE_BYTES,
    ensures
        serial@ == data@.skip(SIZE_BYTES as int),
{
    slice_subrange(data, SIZE_BYTES, data.len())
}

/// The encoding at the front of `data`, which may hold more: the bytes
/// behind the size, as many as the size says. `None` when `data` is too short
/// to hold a size and that many bytes.
pub fn decode_sized_prefix(data: &[u8]) -> (serial: Option<&[u8]>)
    ensures
        match serial {
            Some(serial) => {
                &&& data@.len() >= SIZE_BYTES
                &&& le_u64(data@) <= data@.len() - SIZE_BYTES
                &&& serial@ == data@.subrange(SIZE_BYTES as int, SIZE_BYTES + le_u64(data@))
            },
            None => data@.len() < SIZE_BYTES || le_u64(data@) > data@.len() - SIZE_BYTES,
        },
{
    match encoded_size(data) {
        Some(size) => {
            if size > (data.len() - SIZE_BYTES) as u64 {
                None
            } else {
                Some(slice_subrange(data, SIZE_BYTES, SIZE_BYTES + size as usize))
            }
        },
        None => None,
    }
}

/// What goes out with its size in front comes back: the size read from the
/// frame is the number of bytes of the encoding, and the bytes behind it are
/// the encoding, also where more data follows the frame.
pub proof fn law_size_round_trip(serial: Seq<u8>, rest: Seq<u8>)
    requires
        serial.len() <= u64::MAX,
    ensures
        with_size(serial).len() == SIZE_BYTES + serial.len(),
        le_u64(with_size(serial) + rest) == serial.len(),
        with_size(serial).skip(SIZE_BYTES as int) == serial,
        (with_size(serial) + rest).subrange(SIZE_BYTES as int, SIZE_BYTES + serial.len())
            == serial,
{
    lemma_le_u64_round_trip(serial.len() as u64, serial + rest);
    assert(with_size(serial) + rest =~= le_bytes_of_u64(serial.len() as u64) + (serial + rest));
    assert(with_size(serial).skip(SIZE_BYTES as int) =~= serial);
    assert((with_size(serial) + rest).subrange(SIZE_BYTES as int, SIZE_BYTES + serial.len())
        =~= serial);
}

} // verus!
