//! BLAKE2b-256 digests that pin the built-in verifier parameters, and the
//! byte layouts that those digests are taken over; SHA-256 digests.

use blake2::{digest::consts::U32, Blake2b, Digest};
use sha2::Sha256;
use vstd::prelude::*;

verus! {

/// The BLAKE2b digest with a 32-byte output of `message`.
pub uninterp spec fn blake2b256_digest(message: Seq<u8>) -> Seq<u8>;

/// Calls `blake2::Blake2b::<U32>::digest` on the whole message. BLAKE2b is a
/// function of the message alone, so the result is named rather than
/// described; feeding a message in several updates yields the digest of
/// their concatenation, which is how the callers build their messages.
#[verifier::external_body]
pub(crate) fn blake2b256(message: &[u8]) -> (digest: [u8; 32])
    ensures
        digest@ == blake2b256_digest(message@),
{
    Blake2b::<U32>::digest(message).into()
}

/// The SHA-256 digest of `message`.
pub uninterp spec fn sha256_digest(message: Seq<u8>) -> Seq<u8>;

/// Calls `sha2::Sha256::digest` on the whole message. SHA-256 is a function
/// of the message alone, so the result is named rather than described.
#[verifier::external_body]
pub(crate) fn sha256(message: &[u8]) -> (digest: [u8; 32])
    ensures
        digest@ == sha256_digest(message@),
{
    Sha256::digest(message).into()
}

/// The eight little-endian bytes of `value`.
pub open spec fn u64_le(value: u64) -> Seq<u8> {
    seq![
        value as u8,
        (value >> 8u64) as u8,
        (value >> 16u64) as u8,
        (value >> 24u64) as u8,
        (value >> 32u64) as u8,
        (value >> 40u64) as u8,
        (value >> 48u64) as u8,
        (value >> 56u64) as u8,
    ]
}

/// The four little-endian bytes of `value`.
pub open spec fn u32_le(value: u32) -> Seq<u8> {
    seq![value as u8, (value >> 8u32) as u8, (value >> 16u32) as u8, (value >> 24u32) as u8]
}

/// The concatenation of fixed-size encodings, in order.
pub open spec fn flatten<const N: usize>(items: Seq<[u8; N]>) -> Seq<u8>
    decreases items.len(),
{
    if items.len() == 0 {
        Seq::empty()
    } else {
        flatten(items.drop_last()) + items.last()@
    }
}

/// Appends `bytes` to `out`.
pub fn push_bytes(out: &mut Vec<u8>, bytes: &[u8])
    ensures
        final(out)@ == old(out)@ + bytes@,
{
    let ghost start = out@;
    let mut i: usize = 0;
    while i < bytes.len()
        invariant
            i <= bytes@.len(),
            out@ == start + bytes@.take(i as int),
        decreases bytes@.len() - i,
    {
        out.push(bytes[i]);
        assert(bytes@.take(i as int + 1) =~= bytes@.take(i as int).push(bytes@[i as int]));
        i = i + 1;
    }
    assert(bytes@.take(bytes@.len() as int) =~= bytes@);
}

/// Appends the little-endian encoding of `value`.
pub fn push_u64_le(out: &mut Vec<u8>, value: u64)
    ensures
        final(out)@ == old(out)@ + u64_le(value),
{
    out.push(value as u8);
    out.push((value >> 8u64) as u8);
    out.push((value >> 16u64) as u8);
    out.push((value >> 24u64) as u8);
    out.push((value >> 32u64) as u8);
    out.push((value >> 40u64) as u8);
    out.push((value >> 48u64) as u8);
    out.push((value >> 56u64) as u8);
    assert(out@ =~= old(out)@ + u64_le(value));
}

/// Appends the little-endian encoding of `value`.
pub fn push_u32_le(out: &mut Vec<u8>, value: u32)
    ensures
        final(out)@ == old(out)@ + u32_le(value),
{
    out.push(value as u8);
    out.push((value >> 8u32) as u8);
    out.push((value >> 16u32) as u8);
    out.push((value >> 24u32) as u8);
    assert(out@ =~= old(out)@ + u32_le(value));
}

/// Appends every encoding of `items`, in order.
pub fn push_flattened<const N: usize>(out: &mut Vec<u8>, items: &[[u8; N]])
    ensures
        final(out)@ == old(out)@ + flatten(items@),
{
    let ghost start = out@;
    let mut i: usize = 0;
    assert(items@.take(0) =~= Seq::<[u8; N]>::empty());
    while i < items.len()
        invariant
            i <= items@.len(),
            out@ == start + flatten(items@.take(i as int)),
        decreases items@.len() - i,
    {
        push_bytes(out, items[i].as_slice());
        assert(items@.take(i as int + 1).drop_last() =~= items@.take(i as int));
        assert(out@ =~= start + flatten(items@.take(i as int + 1)));
        i = i + 1;
    }
    assert(items@.take(items@.len() as int) =~= items@);
}

} // verus!
