//! SCALE encodings of the byte vectors and field vectors that the runtime
//! hashes: a vector is its compact length followed by its items.

use parity_scale_codec::{Compact, CompactLen, Encode};
use vstd::prelude::*;

use crate::digest::flatten;

verus! {

/// The `count` little-endian bytes of `value`, truncated to that width.
pub open spec fn le_bytes(value: nat, count: nat) -> Seq<u8>
    decreases count,
{
    if count == 0 {
        Seq::empty()
    } else {
        seq![(value % 256) as u8] + le_bytes(value / 256, (count - 1) as nat)
    }
}

/// SCALE's compact encoding of a `u32`: one, two or four little-endian bytes
/// holding the value shifted past a two-bit mode tag, or the tag `0b11`
/// followed by the four bytes of the value.
pub open spec fn compact_u32(value: nat) -> Seq<u8> {
    if value < 0x40 {
        le_bytes(value * 4, 1)
    } else if value < 0x4000 {
        le_bytes(value * 4 + 1, 2)
    } else if value < 0x4000_0000 {
        le_bytes(value * 4 + 2, 4)
    } else {
        seq![3u8] + le_bytes(value, 4)
    }
}

/// Length of the compact encoding of a `u32`.
pub open spec fn compact_u32_len(value: nat) -> nat {
    if value < 0x40 {
        1
    } else if value < 0x4000 {
        2
    } else if value < 0x4000_0000 {
        4
    } else {
        5
    }
}

/// Calls `Encode::encode` of `parity-scale-codec` on a byte vector. Its
/// source writes the compact length (and panics on more than `u32::MAX`
/// items, which `requires` leaves out), then the bytes.
#[verifier::external_body]
pub(crate) fn scale_encode_bytes(bytes: &Vec<u8>) -> (encoded: Vec<u8>)
    requires
        bytes@.len() <= u32::MAX,
    ensures
        encoded@ == compact_u32(bytes@.len()) + bytes@,
{
    bytes.encode()
}

/// Calls `Encode::encode` of `parity-scale-codec` on a vector of 32-byte
/// fields. Its source writes the compact length (and panics on more than
/// `u32::MAX` items, which `requires` leaves out), then every field's bytes
/// in order, fixed-size arrays carrying no length of their own.
#[verifier::external_body]
pub(crate) fn scale_encode_fields(fields: &Vec<[u8; 32]>) -> (encoded: Vec<u8>)
    requires
        fields@.len() <= u32::MAX,
    ensures
        encoded@ == compact_u32(fields@.len()) + flatten(fields@),
{
    fields.encode()
}

/// Calls `CompactLen::compact_len` of `parity-scale-codec` for `u32`, whose
/// source returns 1, 2, 4 or 5 by the value's range.
#[verifier::external_body]
pub(crate) fn scale_compact_len(value: u32) -> (len: usize)
    ensures
        len == compact_u32_len(value as nat),
{
    <Compact<u32> as CompactLen<u32>>::compact_len(&value)
}

} // verus!
