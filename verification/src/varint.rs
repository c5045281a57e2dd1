//! Unsigned LEB128 numbers, as the `leb128` crate writes and reads them.

use vstd::prelude::*;

verus! {

/// The unsigned LEB128 encoding of `value`: seven bits a byte, least
/// significant first, every byte but the last with its high bit set.
pub open spec fn unsigned_leb128(value: nat) -> Seq<u8>
    decreases value,
{
    if value < 128 {
        seq![value as u8]
    } else {
        seq![(value % 128 + 128) as u8] + unsigned_leb128(value / 128)
    }
}

/// The number that a reader of 64-bit unsigned LEB128 finds at the start of
/// `bytes`, when `position` bytes of that number were read before them.
///
/// There is none where the bytes end inside the number, and none where the
/// tenth byte holds more than the one bit that is left of 64.
pub open spec fn read_unsigned_leb128(bytes: Seq<u8>, position: nat) -> Option<nat>
    decreases bytes.len(),
{
    if bytes.len() == 0 || position > 9 {
        None
    } else if position == 9 && bytes[0] > 1 {
        None
    } else if bytes[0] < 128 {
        Some(bytes[0] as nat)
    } else {
        match read_unsigned_leb128(bytes.skip(1), position + 1) {
            Some(rest) => Some((bytes[0] - 128) as nat + 128 * rest),
            None => None,
        }
    }
}

/// One more than the largest number whose encoding may begin at byte
/// `position` of a 64-bit number.
pub open spec fn room(position: nat) -> nat
    decreases 9 - position,
{
    if position >= 9 {
        2
    } else {
        128 * room(position + 1)
    }
}

/// Writes `value` as unsigned LEB128 with `leb128::write::unsigned`, into a
/// buffer that grows as needed. The contract restates the loop of that
/// function: the low seven bits of the value, the high bit set while
/// anything is left, then the same for the value shifted right by seven.
#[verifier::external_body]
pub(crate) fn write_unsigned(value: u64) -> (bytes: Vec<u8>)
    ensures
        bytes@ == unsigned_leb128(value as nat),
{
    let mut bytes = Vec::new();
    let _ = leb128::write::unsigned(&mut bytes, value);
    bytes
}

/// Reads an unsigned LEB128 number from the start of `bytes` with
/// `leb128::read::unsigned`. The contract restates that function: bytes are
/// taken while their high bit is set, each giving seven bits; running out of
/// bytes is an error, and so is a tenth byte other than 0 or 1. Both errors
/// come back as `None`.
#[verifier::external_body]
pub(crate) fn read_unsigned(bytes: &[u8]) -> (value: Option<u64>)
    ensures
        match value {
            Some(v) => read_unsigned_leb128(bytes@, 0) == Some(v as nat),
            None => read_unsigned_leb128(bytes@, 0) is None,
        },
{
    let mut reader = bytes;
    match leb128::read::unsigned(&mut reader) {
        Ok(value) => Some(value),
        Err(_) => None,
    }
}

/// A number below `room(position)` takes at most `10 - position` bytes.
pub proof fn lemma_encoding_length(value: nat, position: nat)
    requires
        position <= 9,
        value < room(position),
    ensures
        1 <= unsigned_leb128(value).len() <= 10 - position,
    decreases value,
{
    if value >= 128 {
        assert(position < 9) by {
            if position >= 9 {
                assert(room(position) == 2);
            }
        }
        assert(room(position) == 128 * room(position + 1));
        lemma_encoding_length(value / 128, position + 1);
    }
}

/// Every 64-bit number is below `room(0)`, which is two to the power 64.
pub proof fn lemma_room_of_u64(value: u64)
    ensures
        value < room(0),
        room(0) == 0x1_0000_0000_0000_0000,
{
    reveal_with_fuel(room, 11);
}

/// Reading finds the number that was written, whatever follows it.
pub proof fn lemma_read_written(value: nat, position: nat, rest: Seq<u8>)
    requires
        position <= 9,
        value < room(position),
    ensures
        read_unsigned_leb128(unsigned_leb128(value) + rest, position) == Some(value),
    decreases value,
{
    let bytes = unsigned_leb128(value) + rest;
    if value < 128 {
        assert(bytes[0] == value as u8);
        if position == 9 {
            assert(room(position) == 2);
        }
    } else {
        assert(position < 9) by {
            if position >= 9 {
                assert(room(position) == 2);
            }
        }
        assert(room(position) == 128 * room(position + 1));
        assert(bytes[0] == (value % 128 + 128) as u8);
        assert(bytes.skip(1) =~= unsigned_leb128(value / 128) + rest);
        lemma_read_written(value / 128, position + 1, rest);
    }
}

} // verus!
