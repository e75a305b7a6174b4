//! The 40 public-input fields of the outer wrap proof, in the order in
//! which Pickles lays them out.
//!
//! The deferred values and the two message digests are reconstructed with
//! Mina's Poseidon sponge and Kimchi's frozen constraint expressions; here
//! they are inputs, and what is assembled from them is verified.

use vstd::prelude::*;

use crate::digest::u64_le;
use crate::format::{FieldBytes, PicklesProofPayload, PicklesVkPayload, ScalarChallenge};
use crate::kimchi::pow2;
use crate::pasta::{
    decodes_pallas_base, decodes_vesta_base, is_canonical_pallas_base, is_canonical_vesta_base,
    byte_field, le_value, limbs_value, pallas_base_add, pallas_base_inverse, pallas_base_modulus,
    pallas_base_mul, pallas_base_sub, vesta_base_from_limbs, vesta_base_modulus,
};
use crate::pickles::{PreparedError, Pubs};
use crate::profile::{uses_lookup, WRAP_PUBLIC_INPUTS};
use crate::transcript::{branch_encoding, spec_branch_encoding};

verus! {

broadcast use vstd::arithmetic::div_mod::lemma_mod_twice;

// ---------------------------------------------------------------------------
// Small field encodings
// ---------------------------------------------------------------------------

/// The canonical encoding of a small integer: its eight little-endian bytes
/// followed by zeros.
pub open spec fn small_field_bytes(value: u64) -> Seq<u8> {
    u64_le(value) + Seq::new(24, |i: int| 0u8)
}

/// The canonical encoding of the integer that two 64-bit limbs hold.
pub open spec fn limbs2_bytes(limbs: ScalarChallenge) -> Seq<u8> {
    u64_le(limbs[0]) + u64_le(limbs[1]) + Seq::new(16, |i: int| 0u8)
}

/// The canonical encoding of the integer that four 64-bit limbs hold.
pub open spec fn limbs4_bytes(limbs: [u64; 4]) -> Seq<u8> {
    u64_le(limbs[0]) + u64_le(limbs[1]) + u64_le(limbs[2]) + u64_le(limbs[3])
}

/// Writes `value` as the first eight little-endian bytes of `out`.
fn write_u64_le(out: &mut FieldBytes, at: usize, value: u64)
    requires
        at + 8 <= 32,
    ensures
        final(out)@ == old(out)@.subrange(0, at as int) + u64_le(value) + old(out)@.subrange(
            at + 8,
            32,
        ),
{
    out[at] = value as u8;
    out[at + 1] = (value >> 8u64) as u8;
    out[at + 2] = (value >> 16u64) as u8;
    out[at + 3] = (value >> 24u64) as u8;
    out[at + 4] = (value >> 32u64) as u8;
    out[at + 5] = (value >> 40u64) as u8;
    out[at + 6] = (value >> 48u64) as u8;
    out[at + 7] = (value >> 56u64) as u8;
    assert(out@ =~= old(out)@.subrange(0, at as int) + u64_le(value) + old(out)@.subrange(
        at + 8,
        32,
    ));
}

/// The encoding of a small integer.
fn small_field(value: u64) -> (field: FieldBytes)
    ensures
        field@ == small_field_bytes(value),
{
    let mut field = [0u8; 32];
    write_u64_le(&mut field, 0, value);
    assert(field@ =~= small_field_bytes(value));
    field
}

/// The encoding of the integer that two limbs hold.
pub(crate) fn limbs2_field(limbs: ScalarChallenge) -> (field: FieldBytes)
    ensures
        field@ == limbs2_bytes(limbs),
{
    let mut field = [0u8; 32];
    write_u64_le(&mut field, 0, limbs[0]);
    write_u64_le(&mut field, 8, limbs[1]);
    assert(field@ =~= limbs2_bytes(limbs));
    field
}

/// The encoding of the integer that four limbs hold.
pub(crate) fn limbs4_field(limbs: [u64; 4]) -> (field: FieldBytes)
    ensures
        field@ == limbs4_bytes(limbs),
{
    let mut field = [0u8; 32];
    write_u64_le(&mut field, 0, limbs[0]);
    write_u64_le(&mut field, 8, limbs[1]);
    write_u64_le(&mut field, 16, limbs[2]);
    write_u64_le(&mut field, 24, limbs[3]);
    assert(field@ =~= limbs4_bytes(limbs));
    field
}

// ---------------------------------------------------------------------------
// The shifted deferred values
// ---------------------------------------------------------------------------

/// The offset that Pickles removes from a step-field value before it halves
/// it into the wrap field: `2^255 + 1`.
pub open spec fn shift_offset() -> nat {
    pow2(255) + 1
}

/// `result` is the Pickles shift of `value`: the Pallas base-field element
/// `(value - (2^255 + 1)) / 2`.
pub open spec fn is_shift_of(result: nat, value: nat) -> bool {
    &&& result < pallas_base_modulus()
    &&& ((2 * result) as int) % (pallas_base_modulus() as int) == (value as int
        - shift_offset() as int) % (pallas_base_modulus() as int)
}

/// Shifts a step-field value as Pickles does before it is passed to the
/// wrap circuit: subtract `2^255 + 1`, then multiply by the inverse of 2.
pub fn shift(value: &FieldBytes) -> (shifted: FieldBytes)
    requires
        is_canonical_pallas_base(value@),
    ensures
        is_canonical_pallas_base(shifted@),
        is_shift_of(le_value(shifted@), le_value(value@)),
{
    let ghost p = pallas_base_modulus() as int;
    let one = byte_field(1);
    let mut offset = one;
    let mut k: u32 = 0;
    proof {
        vstd::arithmetic::div_mod::lemma_small_mod(1, pallas_base_modulus());
    }
    while k < 255
        invariant
            k <= 255,
            is_canonical_pallas_base(offset@),
            le_value(offset@) == pow2(k as nat) % pallas_base_modulus(),
            p == pallas_base_modulus(),
        decreases 255 - k,
    {
        let ghost before = le_value(offset@);
        offset = pallas_base_add(&offset, &offset);
        proof {
            let e = pow2(k as nat) as int;
            assert(pow2(k as nat + 1) == 2 * pow2(k as nat));
            vstd::arithmetic::div_mod::lemma_add_mod_noop(e, e, p);
            assert(before + before == (e % p) + (e % p));
        }
        k = k + 1;
    }
    offset = pallas_base_add(&offset, &one);
    proof {
        vstd::arithmetic::div_mod::lemma_add_mod_noop(pow2(255) as int, 1, p);
        vstd::arithmetic::div_mod::lemma_small_mod(1, pallas_base_modulus());
    }
    let difference = pallas_base_sub(value, &offset);
    proof {
        vstd::arithmetic::div_mod::lemma_sub_mod_noop_right(
            le_value(value@) as int,
            shift_offset() as int,
            p,
        );
    }
    let two = byte_field(2);
    let half = match pallas_base_inverse(&two) {
        Some(half) => half,
        None => {
            assert(false);
            two
        },
    };
    let shifted = pallas_base_mul(&difference, &half);
    proof {
        let d = le_value(difference@) as int;
        let h = le_value(half@) as int;
        vstd::arithmetic::div_mod::lemma_mul_mod_noop_right(2, d * h, p);
        assert(2 * (d * h) == d * (h * 2)) by (nonlinear_arith);
        vstd::arithmetic::div_mod::lemma_mul_mod_noop_right(d, h * 2, p);
        vstd::arithmetic::div_mod::lemma_small_mod(d as nat, p as nat);
    }
    shifted
}

// ---------------------------------------------------------------------------
// Bounds on encodings
// ---------------------------------------------------------------------------

/// `256^count`.
pub open spec fn byte_bound(count: nat) -> nat
    decreases count,
{
    if count == 0 {
        1
    } else {
        256 * byte_bound((count - 1) as nat)
    }
}

/// A little-endian byte string encodes less than `256^len`.
proof fn lemma_le_value_bound(bytes: Seq<u8>)
    ensures
        le_value(bytes) < byte_bound(bytes.len()),
    decreases bytes.len(),
{
    if bytes.len() > 0 {
        let rest = bytes.drop_first();
        lemma_le_value_bound(rest);
        assert(le_value(bytes) == bytes[0] as nat + 256 * le_value(rest));
        assert(byte_bound(bytes.len()) == 256 * byte_bound(rest.len()));
        assert(le_value(bytes) < byte_bound(bytes.len())) by (nonlinear_arith)
            requires
                le_value(bytes) == bytes[0] as nat + 256 * le_value(rest),
                le_value(rest) < byte_bound(rest.len()),
                byte_bound(bytes.len()) == 256 * byte_bound(rest.len()),
                bytes[0] < 256,
        ;
    }
}

/// Trailing zero bytes do not change the encoded integer.
proof fn lemma_le_value_trailing_zeros(head: Seq<u8>, zeros: Seq<u8>)
    requires
        forall|i: int| 0 <= i < zeros.len() ==> zeros[i] == 0,
    ensures
        le_value(head + zeros) == le_value(head),
    decreases head.len(),
{
    if head.len() == 0 {
        assert(head + zeros =~= zeros);
        lemma_le_value_zeros(zeros);
    } else {
        let rest = head.drop_first();
        lemma_le_value_trailing_zeros(rest, zeros);
        assert((head + zeros).drop_first() =~= rest + zeros);
    }
}

/// A string of zero bytes encodes zero.
proof fn lemma_le_value_zeros(zeros: Seq<u8>)
    requires
        forall|i: int| 0 <= i < zeros.len() ==> zeros[i] == 0,
    ensures
        le_value(zeros) == 0,
    decreases zeros.len(),
{
    if zeros.len() > 0 {
        let rest = zeros.drop_first();
        assert forall|i: int| 0 <= i < rest.len() implies rest[i] == 0 by {
            assert(rest[i] == zeros[i + 1]);
        }
        lemma_le_value_zeros(rest);
    }
}

/// The encoding of two limbs is below `2^128`, hence canonical in both
/// Pasta base fields.
pub(crate) proof fn lemma_limbs2_canonical(limbs: ScalarChallenge)
    ensures
        is_canonical_pallas_base(limbs2_bytes(limbs)),
        is_canonical_vesta_base(limbs2_bytes(limbs)),
        limbs_value(seq![limbs[0], limbs[1], 0u64, 0u64]) < vesta_base_modulus(),
{
    let head = u64_le(limbs[0]) + u64_le(limbs[1]);
    let zeros = Seq::new(16, |i: int| 0u8);
    assert(limbs2_bytes(limbs) =~= head + zeros);
    lemma_le_value_trailing_zeros(head, zeros);
    lemma_le_value_bound(head);
    reveal_with_fuel(byte_bound, 17);
    assert(byte_bound(16) == 340282366920938463463374607431768211456nat);
    let l = seq![limbs[0], limbs[1], 0u64, 0u64];
    reveal_with_fuel(limbs_value, 5);
    assert(l.drop_first() =~= seq![limbs[1], 0u64, 0u64]);
    assert(l.drop_first().drop_first() =~= seq![0u64, 0u64]);
    assert(l.drop_first().drop_first().drop_first() =~= seq![0u64]);
    assert(l.drop_first().drop_first().drop_first().drop_first() =~= Seq::<u64>::empty());
    assert(limbs_value(l) == (limbs[0] as nat) + 0x1_0000_0000_0000_0000nat * (limbs[1] as nat));
    assert((limbs[0] as nat) + 0x1_0000_0000_0000_0000nat * (limbs[1] as nat)
        < 340282366920938463463374607431768211456nat) by (nonlinear_arith)
        requires
            limbs[0] < 0x1_0000_0000_0000_0000nat,
            limbs[1] < 0x1_0000_0000_0000_0000nat,
    ;
}

/// Every canonical step-field element is canonical in the wrap field: the
/// Pallas base modulus is below the Vesta base modulus.
proof fn lemma_step_field_fits_wrap_field(bytes: Seq<u8>)
    requires
        is_canonical_pallas_base(bytes),
    ensures
        is_canonical_vesta_base(bytes),
{
}

// ---------------------------------------------------------------------------
// The wrap public input
// ---------------------------------------------------------------------------

/// The deferred values that Pickles reconstructs from the step proof, as
/// step-field (Pallas base) elements, and the limbs squeezed for `xi`.
#[derive(Clone, Copy, Debug, PartialEq, Eq)]
pub struct ExpandedDeferred {
    pub combined_inner_product: FieldBytes,
    pub b: FieldBytes,
    pub zeta_to_srs_length: FieldBytes,
    pub zeta_to_domain_size: FieldBytes,
    pub perm: FieldBytes,
    pub xi: ScalarChallenge,
}

/// Every deferred value is a step-field element.
pub open spec fn deferred_canonical(deferred: ExpandedDeferred) -> bool {
    &&& is_canonical_pallas_base(deferred.combined_inner_product@)
    &&& is_canonical_pallas_base(deferred.b@)
    &&& is_canonical_pallas_base(deferred.zeta_to_srs_length@)
    &&& is_canonical_pallas_base(deferred.zeta_to_domain_size@)
    &&& is_canonical_pallas_base(deferred.perm@)
}

/// The encoding of a boolean: zero or one.
pub open spec fn bool_field_bytes(flag: bool) -> Seq<u8> {
    small_field_bytes(if flag { 1u64 } else { 0u64 })
}

/// The first 13 wrap public-input fields: the five shifted deferred
/// values; `beta`, `gamma`, `alpha`, `zeta` and `xi`; the sponge digest; and
/// the digests of the messages for the next wrap and step proofs.
pub open spec fn head_layout(
    head: Seq<FieldBytes>,
    proof: PicklesProofPayload,
    deferred: ExpandedDeferred,
    next_wrap_digest: FieldBytes,
    next_step_digest: FieldBytes,
) -> bool {
    let plonk = proof.statement.deferred_values.plonk;
    &&& head.len() == 13
    &&& is_shift_of(le_value(head[0]@), le_value(deferred.combined_inner_product@))
    &&& is_shift_of(le_value(head[1]@), le_value(deferred.b@))
    &&& is_shift_of(le_value(head[2]@), le_value(deferred.zeta_to_srs_length@))
    &&& is_shift_of(le_value(head[3]@), le_value(deferred.zeta_to_domain_size@))
    &&& is_shift_of(le_value(head[4]@), le_value(deferred.perm@))
    &&& head[5]@ == limbs2_bytes(plonk.beta)
    &&& head[6]@ == limbs2_bytes(plonk.gamma)
    &&& head[7]@ == limbs2_bytes(plonk.alpha)
    &&& head[8]@ == limbs2_bytes(plonk.zeta)
    &&& head[9]@ == limbs2_bytes(deferred.xi)
    &&& head[10]@ == limbs4_bytes(proof.statement.sponge_digest_before_evaluations)
    &&& head[11] == next_wrap_digest
    &&& head[12] == next_step_digest
}

/// The 16 bulletproof challenges, in order.
pub open spec fn challenges_layout(
    part: Seq<FieldBytes>,
    challenges: [ScalarChallenge; 16],
) -> bool {
    &&& part.len() == 16
    &&& forall|i: int| 0 <= i < 16 ==> #[trigger] part[i]@ == limbs2_bytes(challenges[i])
}

/// The last 11 fields: the branch, the eight feature flags, whether lookups
/// are used, and the joint combiner when they are (zero otherwise).
pub open spec fn tail_layout(part: Seq<FieldBytes>, proof: PicklesProofPayload) -> bool {
    let values = proof.statement.deferred_values;
    let plonk = values.plonk;
    let flags = plonk.feature_flags;
    &&& part.len() == 11
    &&& part[0]@ == small_field_bytes(spec_branch_encoding(values.branch_data) as u64)
    &&& part[1]@ == bool_field_bytes(flags.range_check0)
    &&& part[2]@ == bool_field_bytes(flags.range_check1)
    &&& part[3]@ == bool_field_bytes(flags.foreign_field_add)
    &&& part[4]@ == bool_field_bytes(flags.foreign_field_mul)
    &&& part[5]@ == bool_field_bytes(flags.xor)
    &&& part[6]@ == bool_field_bytes(flags.rot)
    &&& part[7]@ == bool_field_bytes(flags.lookup)
    &&& part[8]@ == bool_field_bytes(flags.runtime_tables)
    &&& part[9]@ == bool_field_bytes(uses_lookup(flags))
    &&& part[10]@ == if uses_lookup(flags) && plonk.joint_combiner is Some {
        limbs2_bytes(plonk.joint_combiner->Some_0)
    } else {
        small_field_bytes(0)
    }
}

/// The layout of the 40 wrap public-input fields: the head, the
/// bulletproof challenges, then the tail.
pub open spec fn wrap_input_layout(
    fields: Seq<FieldBytes>,
    proof: PicklesProofPayload,
    deferred: ExpandedDeferred,
    next_wrap_digest: FieldBytes,
    next_step_digest: FieldBytes,
) -> bool {
    &&& fields.len() == WRAP_PUBLIC_INPUTS
    &&& head_layout(fields.subrange(0, 13), proof, deferred, next_wrap_digest, next_step_digest)
    &&& challenges_layout(
        fields.subrange(13, 29),
        proof.statement.deferred_values.bulletproof_challenges,
    )
    &&& tail_layout(fields.subrange(29, 40), proof)
}

/// Appends the wrap-field encoding of a step-field element.
fn push_step_field(fields: &mut Vec<FieldBytes>, value: FieldBytes)
    requires
        is_canonical_pallas_base(value@),
    ensures
        final(fields)@ == old(fields)@.push(value),
{
    proof {
        lemma_step_field_fits_wrap_field(value@);
    }
    if !decodes_vesta_base(&value) {
        assert(false);
    }
    fields.push(value);
}

/// Appends the wrap-field element that two limbs encode.
fn push_limbs2(fields: &mut Vec<FieldBytes>, limbs: ScalarChallenge)
    ensures
        final(fields)@.len() == old(fields)@.len() + 1,
        final(fields)@.drop_last() == old(fields)@,
        final(fields)@.last()@ == limbs2_bytes(limbs),
{
    proof {
        lemma_limbs2_canonical(limbs);
    }
    let limbs4: [u64; 4] = [limbs[0], limbs[1], 0, 0];
    assert(limbs4@ =~= seq![limbs[0], limbs[1], 0u64, 0u64]);
    if !vesta_base_from_limbs(&limbs4) {
        assert(false);
    }
    let ghost before = fields@;
    fields.push(limbs2_field(limbs));
    assert(fields@.drop_last() =~= before);
}

/// Appends a bulletproof challenge: read as a step-field element, then
/// carried into the wrap field.
fn push_challenge(fields: &mut Vec<FieldBytes>, limbs: ScalarChallenge)
    ensures
        final(fields)@.len() == old(fields)@.len() + 1,
        final(fields)@.drop_last() == old(fields)@,
        final(fields)@.last()@ == limbs2_bytes(limbs),
{
    proof {
        lemma_limbs2_canonical(limbs);
    }
    let field = limbs2_field(limbs);
    if !decodes_pallas_base(&field) {
        assert(false);
    }
    let ghost before = fields@;
    push_step_field(fields, field);
    assert(fields@.drop_last() =~= before);
}

/// Appends the encoding of a small integer.
fn push_small(fields: &mut Vec<FieldBytes>, value: u64)
    ensures
        final(fields)@.len() == old(fields)@.len() + 1,
        final(fields)@.drop_last() == old(fields)@,
        final(fields)@.last()@ == small_field_bytes(value),
{
    let ghost before = fields@;
    fields.push(small_field(value));
    assert(fields@.drop_last() =~= before);
}

/// Why the wrap public input of a statement cannot be assembled: the public
/// values do not split as the key declares, or the sponge digest is not a
/// wrap-field element.
pub open spec fn wrap_input_error(
    proof: PicklesProofPayload,
    key: PicklesVkPayload,
    pubs: Pubs,
) -> Option<PreparedError> {
    if pubs.public_input@.len() != key.public_input_size || pubs.public_output@.len()
        != key.public_output_size {
        Some(PreparedError::PublicInput)
    } else if limbs_value(proof.statement.sponge_digest_before_evaluations@)
        >= vesta_base_modulus() {
        Some(PreparedError::Field)
    } else {
        None
    }
}

/// The first 13 fields, or `None` when the sponge digest is not a
/// wrap-field element.
fn head_fields(
    proof: &PicklesProofPayload,
    deferred: &ExpandedDeferred,
    next_wrap_digest: &FieldBytes,
    next_step_digest: &FieldBytes,
) -> (head: Option<Vec<FieldBytes>>)
    requires
        deferred_canonical(*deferred),
        is_canonical_vesta_base(next_wrap_digest@),
        is_canonical_pallas_base(next_step_digest@),
    ensures
        head is None <==> limbs_value(proof.statement.sponge_digest_before_evaluations@)
            >= vesta_base_modulus(),
        head matches Some(h) ==> head_layout(
            h@,
            *proof,
            *deferred,
            *next_wrap_digest,
            *next_step_digest,
        ),
{
    let statement = &proof.statement;
    let plonk = &statement.deferred_values.plonk;
    let mut fields: Vec<FieldBytes> = Vec::new();
    push_step_field(&mut fields, shift(&deferred.combined_inner_product));
    push_step_field(&mut fields, shift(&deferred.b));
    push_step_field(&mut fields, shift(&deferred.zeta_to_srs_length));
    push_step_field(&mut fields, shift(&deferred.zeta_to_domain_size));
    push_step_field(&mut fields, shift(&deferred.perm));
    let ghost shifted = fields@;
    push_limbs2(&mut fields, plonk.beta);
    let ghost f5 = fields@;
    push_limbs2(&mut fields, plonk.gamma);
    let ghost f6 = fields@;
    push_limbs2(&mut fields, plonk.alpha);
    let ghost f7 = fields@;
    push_limbs2(&mut fields, plonk.zeta);
    let ghost f8 = fields@;
    push_limbs2(&mut fields, deferred.xi);
    let ghost f9 = fields@;
    if !vesta_base_from_limbs(&statement.sponge_digest_before_evaluations) {
        return None;
    }
    fields.push(limbs4_field(statement.sponge_digest_before_evaluations));
    fields.push(*next_wrap_digest);
    push_step_field(&mut fields, *next_step_digest);
    proof {
        assert(f9.drop_last() == f8 && f8.drop_last() == f7 && f7.drop_last() == f6);
        assert(f6.drop_last() == f5 && f5.drop_last() == shifted);
        assert(fields@.subrange(0, 10) =~= f9);
        assert(f9.subrange(0, 9) =~= f8);
        assert(f8.subrange(0, 8) =~= f7);
        assert(f7.subrange(0, 7) =~= f6);
        assert(f6.subrange(0, 6) =~= f5);
        assert(f5.subrange(0, 5) =~= shifted);
        assert(fields@[5] == f5[5]);
        assert(fields@[6] == f6[6]);
        assert(fields@[7] == f7[7]);
        assert(fields@[8] == f8[8]);
        assert(fields@[9] == f9[9]);
        assert(fields@[0] == shifted[0]);
        assert(fields@[1] == shifted[1]);
        assert(fields@[2] == shifted[2]);
        assert(fields@[3] == shifted[3]);
        assert(fields@[4] == shifted[4]);
    }
    Some(fields)
}

/// The 16 bulletproof challenges as wrap-field elements.
fn challenge_fields(challenges: &[ScalarChallenge; 16]) -> (fields: Vec<FieldBytes>)
    ensures
        challenges_layout(fields@, *challenges),
{
    let mut fields: Vec<FieldBytes> = Vec::new();
    let mut i: usize = 0;
    while i < 16
        invariant
            i <= 16,
            fields@.len() == i,
            forall|j: int| 0 <= j < i ==> #[trigger] fields@[j]@ == limbs2_bytes(challenges[j]),
        decreases 16 - i,
    {
        let ghost before = fields@;
        push_challenge(&mut fields, challenges[i]);
        assert forall|j: int| 0 <= j < i + 1 implies #[trigger] fields@[j]@ == limbs2_bytes(
            challenges[j],
        ) by {
            if j < i {
                assert(fields@[j] == fields@.drop_last()[j]);
            }
        }
        i = i + 1;
    }
    fields
}

/// The last 11 fields.
fn tail_fields(proof: &PicklesProofPayload) -> (fields: Vec<FieldBytes>)
    ensures
        tail_layout(fields@, *proof),
{
    let values = &proof.statement.deferred_values;
    let flags = values.plonk.feature_flags;
    let mut fields: Vec<FieldBytes> = Vec::new();
    push_small(&mut fields, branch_encoding(values.branch_data));
    let feature_values = crate::transcript::feature_fields(flags);
    let mut k: usize = 0;
    while k < 8
        invariant
            k <= 8,
            fields@.len() == 1 + k,
            fields@[0]@ == small_field_bytes(spec_branch_encoding(values.branch_data) as u64),
            forall|j: int|
                0 <= j < k ==> fields@[1 + j]@ == bool_field_bytes(#[trigger] feature_values@[j]),
        decreases 8 - k,
    {
        let value: u64 = if feature_values[k] {
            1
        } else {
            0
        };
        push_small(&mut fields, value);
        assert(fields@[0] == fields@.drop_last()[0]);
        assert forall|j: int| 0 <= j < k + 1 implies fields@[1 + j]@ == bool_field_bytes(
            #[trigger] feature_values@[j],
        ) by {
            if j < k {
                assert(fields@[1 + j] == fields@.drop_last()[1 + j]);
            }
        }
        k = k + 1;
    }
    let ghost flagged = fields@;
    let uses = crate::transcript::statement_uses_lookup(flags);
    let used: u64 = if uses {
        1
    } else {
        0
    };
    push_small(&mut fields, used);
    let ghost with_use = fields@;
    match values.plonk.joint_combiner {
        Some(combiner) => {
            if uses {
                push_limbs2(&mut fields, combiner);
            } else {
                push_small(&mut fields, 0);
            }
        },
        None => {
            push_small(&mut fields, 0);
        },
    }
    proof {
        assert(fields@.drop_last() == with_use);
        assert(with_use.drop_last() == flagged);
        assert forall|j: int| 0 <= j < 9 implies fields@[j] == flagged[j] by {
            assert(fields@[j] == with_use[j]);
        }
        assert(fields@[1] == flagged[1]);
        assert(fields@[2] == flagged[2]);
        assert(fields@[3] == flagged[3]);
        assert(fields@[4] == flagged[4]);
        assert(fields@[5] == flagged[5]);
        assert(fields@[6] == flagged[6]);
        assert(fields@[7] == flagged[7]);
        assert(fields@[8] == flagged[8]);
        assert(fields@[9] == with_use[9]);
        assert(feature_values@[0] == flags.range_check0);
        assert(feature_values@[1] == flags.range_check1);
        assert(feature_values@[2] == flags.foreign_field_add);
        assert(feature_values@[3] == flags.foreign_field_mul);
        assert(feature_values@[4] == flags.xor);
        assert(feature_values@[5] == flags.rot);
        assert(feature_values@[6] == flags.lookup);
        assert(feature_values@[7] == flags.runtime_tables);
    }
    fields
}

/// Assembles the 40 public-input fields of the outer wrap proof from the
/// statement and the values reconstructed from it. The public values must
/// split as the key declares, and the sponge digest must be a wrap-field
/// element.
pub fn wrap_public_input(
    proof: &PicklesProofPayload,
    key: &PicklesVkPayload,
    pubs: &Pubs,
    deferred: &ExpandedDeferred,
    next_wrap_digest: &FieldBytes,
    next_step_digest: &FieldBytes,
) -> (result: Result<Vec<FieldBytes>, PreparedError>)
    requires
        deferred_canonical(*deferred),
        is_canonical_vesta_base(next_wrap_digest@),
        is_canonical_pallas_base(next_step_digest@),
    ensures
        match wrap_input_error(*proof, *key, *pubs) {
            Some(error) => result == Err::<Vec<FieldBytes>, PreparedError>(error),
            None => result matches Ok(fields) && wrap_input_layout(
                fields@,
                *proof,
                *deferred,
                *next_wrap_digest,
                *next_step_digest,
            ),
        },
{
    if pubs.public_input.len() as u64 != key.public_input_size as u64
        || pubs.public_output.len() as u64 != key.public_output_size as u64 {
        return Err(PreparedError::PublicInput);
    }
    let mut fields = match head_fields(proof, deferred, next_wrap_digest, next_step_digest) {
        Some(head) => head,
        None => {
            return Err(PreparedError::Field);
        },
    };
    let ghost head = fields@;
    let mut challenges = challenge_fields(&proof.statement.deferred_values.bulletproof_challenges);
    let ghost middle = challenges@;
    fields.append(&mut challenges);
    let mut tail = tail_fields(proof);
    let ghost last = tail@;
    fields.append(&mut tail);
    proof {
        assert(fields@ == head + middle + last);
        assert(fields@.subrange(0, 13) =~= head);
        assert(fields@.subrange(13, 29) =~= middle);
        assert(fields@.subrange(29, 40) =~= last);
    }
    Ok(fields)
}

} // verus!
