//! The field sequences that Pickles hashes into the messages for the next
//! wrap and step proofs, and the challenges of the step accumulator.
//! Hashing them with Mina's Poseidon sponge is left to the caller; which
//! fields are hashed, in which order, is decided here.

use vstd::prelude::*;

use crate::challenge::{endo_scalar, scalar_challenge_to_step_field, scalar_challenge_to_wrap_field};
use crate::format::{FieldBytes, PicklesProofPayload, PicklesVkPayload, PointBytes, ScalarChallenge};
use crate::pasta::{
    decodes_pallas_base, is_canonical_pallas_base, is_canonical_vesta_base, is_valid_pallas_point,
    is_valid_vesta_point, le_value, pallas_base_modulus, pallas_point_is_valid,
    vesta_base_modulus, vesta_point_is_valid,
};
use crate::pickles::{PreparedError, Pubs};

verus! {

// ---------------------------------------------------------------------------
// The message for the next wrap proof
// ---------------------------------------------------------------------------

/// `field` is the wrap-field element that `challenge` stands for.
pub open spec fn is_wrap_scalar(field: FieldBytes, challenge: ScalarChallenge, endo: nat) -> bool {
    &&& is_canonical_vesta_base(field@)
    &&& le_value(field@) == endo_scalar(challenge, endo as int) % (vesta_base_modulus() as int)
}

/// `field` is the step-field element that `challenge` stands for.
pub open spec fn is_step_scalar(field: FieldBytes, challenge: ScalarChallenge, endo: nat) -> bool {
    &&& is_canonical_pallas_base(field@)
    &&& le_value(field@) == endo_scalar(challenge, endo as int) % (pallas_base_modulus() as int)
}

/// The fields of the message for the next wrap proof: the 15 challenges of
/// each of the two old bulletproof challenge sets as wrap-field elements,
/// then the coordinates of the challenge polynomial commitment.
pub open spec fn wrap_message_layout(
    fields: Seq<FieldBytes>,
    proof: PicklesProofPayload,
    endo: nat,
) -> bool {
    let message = proof.statement.messages_for_next_wrap_proof;
    &&& fields.len() == 32
    &&& forall|set: int, i: int|
        0 <= set < 2 && 0 <= i < 15 ==> #[trigger] is_wrap_scalar(
            fields[15 * set + i],
            message.old_bulletproof_challenges[set].challenges[i],
            endo,
        )
    &&& fields[30] == message.challenge_polynomial_commitment[0]
    &&& fields[31] == message.challenge_polynomial_commitment[1]
}

/// Appends the wrap-field elements of 15 challenges.
pub(crate) fn push_wrap_challenges(
    fields: &mut Vec<FieldBytes>,
    challenges: &[ScalarChallenge; 15],
    endo: &FieldBytes,
)
    requires
        is_canonical_vesta_base(endo@),
    ensures
        final(fields)@.len() == old(fields)@.len() + 15,
        final(fields)@.subrange(0, old(fields)@.len() as int) == old(fields)@,
        forall|i: int|
            0 <= i < 15 ==> #[trigger] is_wrap_scalar(
                final(fields)@[old(fields)@.len() + i],
                challenges[i],
                le_value(endo@),
            ),
{
    let ghost start = fields@;
    let mut i: usize = 0;
    while i < 15
        invariant
            i <= 15,
            is_canonical_vesta_base(endo@),
            fields@.len() == start.len() + i,
            fields@.subrange(0, start.len() as int) == start,
            forall|j: int|
                0 <= j < i ==> #[trigger] is_wrap_scalar(
                    fields@[start.len() + j],
                    challenges[j],
                    le_value(endo@),
                ),
        decreases 15 - i,
    {
        let ghost before = fields@;
        fields.push(scalar_challenge_to_wrap_field(challenges[i], endo));
        assert(fields@.subrange(0, start.len() as int) =~= before.subrange(0, start.len() as int));
        assert forall|j: int| 0 <= j < i + 1 implies #[trigger] is_wrap_scalar(
            fields@[start.len() + j],
            challenges[j],
            le_value(endo@),
        ) by {
            if j < i {
                assert(fields@[start.len() + j] == before[start.len() + j]);
            }
        }
        i = i + 1;
    }
}

/// The fields of the message for the next wrap proof, under the wrap-field
/// endomorphism coefficient `endo`; fails when the commitment is not a
/// Vesta point.
pub fn next_wrap_message_fields(proof: &PicklesProofPayload, endo: &FieldBytes) -> (result:
    Result<Vec<FieldBytes>, PreparedError>)
    requires
        is_canonical_vesta_base(endo@),
    ensures
        ({
            let commitment =
                proof.statement.messages_for_next_wrap_proof.challenge_polynomial_commitment;
            if is_valid_vesta_point(commitment) {
                result matches Ok(fields) && wrap_message_layout(fields@, *proof, le_value(endo@))
            } else {
                result == Err::<Vec<FieldBytes>, PreparedError>(PreparedError::Point)
            }
        }),
{
    let message = &proof.statement.messages_for_next_wrap_proof;
    let mut fields: Vec<FieldBytes> = Vec::new();
    push_wrap_challenges(&mut fields, &message.old_bulletproof_challenges[0].challenges, endo);
    let ghost first = fields@;
    push_wrap_challenges(&mut fields, &message.old_bulletproof_challenges[1].challenges, endo);
    let ghost both = fields@;
    let point = message.challenge_polynomial_commitment;
    if !vesta_point_is_valid(&point) {
        return Err(PreparedError::Point);
    }
    fields.push(point[0]);
    fields.push(point[1]);
    proof {
        assert forall|set: int, i: int| 0 <= set < 2 && 0 <= i < 15 implies #[trigger] is_wrap_scalar(
            fields@[15 * set + i],
            message.old_bulletproof_challenges[set].challenges[i],
            le_value(endo@),
        ) by {
            assert(fields@[15 * set + i] == both[15 * set + i]);
            if set == 0 {
                assert(both[i] == both.subrange(0, 15)[i]);
                assert(both.subrange(0, 15) == first);
            }
        }
    }
    Ok(fields)
}

// ---------------------------------------------------------------------------
// The message for the next step proof
// ---------------------------------------------------------------------------

/// The commitments of the key's wrap index, in the order in which they are
/// hashed.
pub open spec fn key_points(key: PicklesVkPayload) -> Seq<PointBytes> {
    let index = key.wrap_index;
    index.sigma_comm@ + index.coefficients_comm@ + seq![
        index.generic_comm,
        index.psm_comm,
        index.complete_add_comm,
        index.mul_comm,
        index.emul_comm,
        index.endomul_scalar_comm,
    ]
}

/// The coordinates of each point, `x` then `y`.
pub open spec fn coordinates(points: Seq<PointBytes>) -> Seq<FieldBytes>
    decreases points.len(),
{
    if points.len() == 0 {
        Seq::empty()
    } else {
        coordinates(points.drop_last()) + seq![points.last()[0], points.last()[1]]
    }
}

/// The public values, input then output.
pub open spec fn public_fields(pubs: Pubs) -> Seq<FieldBytes> {
    pubs.public_input@ + pubs.public_output@
}

/// Number of (commitment, challenges) pairs of the message for the next
/// step proof: the shorter of the two lists.
pub open spec fn recursion_count(proof: PicklesProofPayload) -> nat {
    let message = proof.statement.messages_for_next_step_proof;
    if message.challenge_polynomial_commitments@.len()
        <= message.old_bulletproof_challenges@.len() {
        message.challenge_polynomial_commitments@.len()
    } else {
        message.old_bulletproof_challenges@.len()
    }
}

/// The 18 fields of one recursion entry, at `base`: the commitment's
/// coordinates, then its 16 challenges as step-field elements.
pub open spec fn recursion_entry(
    fields: Seq<FieldBytes>,
    base: int,
    commitment: PointBytes,
    challenges: [ScalarChallenge; 16],
    endo: nat,
) -> bool {
    &&& fields[base] == commitment[0]
    &&& fields[base + 1] == commitment[1]
    &&& forall|j: int|
        0 <= j < 16 ==> #[trigger] is_step_scalar(fields[base + 2 + j], challenges[j], endo)
}

/// Why the message for the next step proof cannot be formed, checked in
/// order: a key commitment that is not a Pallas point, a public value that
/// is not a step-field element, a recursion commitment that is not a
/// Pallas point.
pub open spec fn step_message_error(
    proof: PicklesProofPayload,
    key: PicklesVkPayload,
    pubs: Pubs,
) -> Option<PreparedError> {
    let message = proof.statement.messages_for_next_step_proof;
    if exists|i: int| 0 <= i < key_points(key).len() && !is_valid_pallas_point(#[trigger] key_points(key)[i]) {
        Some(PreparedError::Point)
    } else if exists|i: int|
        0 <= i < public_fields(pubs).len() && !is_canonical_pallas_base(
            (#[trigger] public_fields(pubs)[i])@,
        ) {
        Some(PreparedError::PublicInput)
    } else if exists|i: int|
        0 <= i < recursion_count(proof) && !is_valid_pallas_point(
            #[trigger] message.challenge_polynomial_commitments@[i],
        ) {
        Some(PreparedError::Point)
    } else {
        None
    }
}

/// The fields of the message for the next step proof: the coordinates of
/// the key's commitments, the public values, then for each recursion entry
/// its commitment's coordinates and its 16 challenges.
pub open spec fn step_message_layout(
    fields: Seq<FieldBytes>,
    proof: PicklesProofPayload,
    key: PicklesVkPayload,
    pubs: Pubs,
    endo: nat,
) -> bool {
    let message = proof.statement.messages_for_next_step_proof;
    let head = coordinates(key_points(key)) + public_fields(pubs);
    &&& fields.len() == head.len() + 18 * recursion_count(proof)
    &&& fields.subrange(0, head.len() as int) == head
    &&& forall|i: int|
        0 <= i < recursion_count(proof) ==> #[trigger] recursion_entry(
            fields,
            head.len() + 18 * i,
            message.challenge_polynomial_commitments@[i],
            message.old_bulletproof_challenges@[i],
            endo,
        )
}

/// Appends the coordinates of each point, checking that each is a Pallas
/// point.
fn push_pallas_coordinates(fields: &mut Vec<FieldBytes>, points: &[PointBytes]) -> (ok: bool)
    ensures
        ok == (forall|i: int| 0 <= i < points@.len() ==> is_valid_pallas_point(#[trigger] points@[i])),
        ok ==> final(fields)@ == old(fields)@ + coordinates(points@),
{
    let ghost start = fields@;
    let mut i: usize = 0;
    while i < points.len()
        invariant
            i <= points@.len(),
            fields@ == start + coordinates(points@.take(i as int)),
            forall|j: int| 0 <= j < i ==> is_valid_pallas_point(#[trigger] points@[j]),
        decreases points@.len() - i,
    {
        if !pallas_point_is_valid(&points[i]) {
            return false;
        }
        fields.push(points[i][0]);
        fields.push(points[i][1]);
        assert(points@.take(i as int + 1).drop_last() =~= points@.take(i as int));
        assert(fields@ =~= start + coordinates(points@.take(i as int + 1)));
        i = i + 1;
    }
    assert(points@.take(points@.len() as int) =~= points@);
    true
}

/// Appends the public values, checking that each is a step-field element.
fn push_step_fields(fields: &mut Vec<FieldBytes>, values: &[FieldBytes]) -> (ok: bool)
    ensures
        ok == (forall|i: int| 0 <= i < values@.len() ==> is_canonical_pallas_base((#[trigger] values@[i])@)),
        ok ==> final(fields)@ == old(fields)@ + values@,
{
    let ghost start = fields@;
    let mut i: usize = 0;
    while i < values.len()
        invariant
            i <= values@.len(),
            fields@ == start + values@.take(i as int),
            forall|j: int| 0 <= j < i ==> is_canonical_pallas_base((#[trigger] values@[j])@),
        decreases values@.len() - i,
    {
        if !decodes_pallas_base(&values[i]) {
            return false;
        }
        fields.push(values[i]);
        assert(values@.take(i as int + 1) =~= values@.take(i as int).push(values@[i as int]));
        i = i + 1;
    }
    assert(values@.take(values@.len() as int) =~= values@);
    true
}

/// Appends the step-field elements of 16 challenges.
fn push_step_challenges(
    fields: &mut Vec<FieldBytes>,
    challenges: &[ScalarChallenge; 16],
    endo: &FieldBytes,
)
    requires
        is_canonical_pallas_base(endo@),
    ensures
        final(fields)@.len() == old(fields)@.len() + 16,
        final(fields)@.subrange(0, old(fields)@.len() as int) == old(fields)@,
        forall|j: int|
            0 <= j < 16 ==> #[trigger] is_step_scalar(
                final(fields)@[old(fields)@.len() + j],
                challenges[j],
                le_value(endo@),
            ),
{
    let ghost start = fields@;
    let mut i: usize = 0;
    while i < 16
        invariant
            i <= 16,
            is_canonical_pallas_base(endo@),
            fields@.len() == start.len() + i,
            fields@.subrange(0, start.len() as int) == start,
            forall|j: int|
                0 <= j < i ==> #[trigger] is_step_scalar(
                    fields@[start.len() + j],
                    challenges[j],
                    le_value(endo@),
                ),
        decreases 16 - i,
    {
        let ghost before = fields@;
        fields.push(scalar_challenge_to_step_field(challenges[i], endo));
        assert(fields@.subrange(0, start.len() as int) =~= before.subrange(0, start.len() as int));
        assert forall|j: int| 0 <= j < i + 1 implies #[trigger] is_step_scalar(
            fields@[start.len() + j],
            challenges[j],
            le_value(endo@),
        ) by {
            if j < i {
                assert(fields@[start.len() + j] == before[start.len() + j]);
            }
        }
        i = i + 1;
    }
}

/// The coordinates of concatenated point lists concatenate.
proof fn lemma_coordinates_append(a: Seq<PointBytes>, b: Seq<PointBytes>)
    ensures
        coordinates(a + b) == coordinates(a) + coordinates(b),
    decreases b.len(),
{
    if b.len() == 0 {
        assert(a + b =~= a);
        assert(coordinates(b) =~= Seq::<FieldBytes>::empty());
        assert(coordinates(a) + coordinates(b) =~= coordinates(a));
    } else {
        lemma_coordinates_append(a, b.drop_last());
        assert((a + b).drop_last() =~= a + b.drop_last());
        assert((a + b).last() == b.last());
        assert(coordinates(a + b) =~= coordinates(a) + coordinates(b));
    }
}

/// Point `i` of a list gives coordinates `2 i` and `2 i + 1`.
proof fn lemma_coordinates_index(points: Seq<PointBytes>)
    ensures
        coordinates(points).len() == 2 * points.len(),
        forall|i: int|
            0 <= i < points.len() ==> coordinates(points)[2 * i] == (#[trigger] points[i])[0]
                && coordinates(points)[2 * i + 1] == points[i][1],
    decreases points.len(),
{
    if points.len() > 0 {
        let rest = points.drop_last();
        lemma_coordinates_index(rest);
        assert forall|i: int| 0 <= i < points.len() implies coordinates(points)[2 * i] == (
        #[trigger] points[i])[0] && coordinates(points)[2 * i + 1] == points[i][1] by {
            if i < rest.len() {
                assert(rest[i] == points[i]);
            }
        }
    }
}

/// The message for the next step proof hashes the coordinates of the key's
/// wrap-index commitments in a fixed order, `x` then `y` of each: the seven
/// sigma commitments, the fifteen coefficient commitments, then the
/// generic, Poseidon, complete-addition, variable-base multiplication,
/// endomorphism multiplication and endomorphism-scalar commitments. The
/// public input follows at field 56, then the public output.
pub proof fn lemma_step_message_lists_key_commitments(
    fields: Seq<FieldBytes>,
    proof: PicklesProofPayload,
    key: PicklesVkPayload,
    pubs: Pubs,
    endo: nat,
)
    requires
        step_message_layout(fields, proof, key, pubs, endo),
    ensures
        fields.len() >= 56 + pubs.public_input@.len() + pubs.public_output@.len(),
        forall|i: int|
            0 <= i < 7 ==> fields[2 * i] == (#[trigger] key.wrap_index.sigma_comm[i])[0]
                && fields[2 * i + 1] == key.wrap_index.sigma_comm[i][1],
        forall|i: int|
            0 <= i < 15 ==> fields[14 + 2 * i] == (#[trigger] key.wrap_index.coefficients_comm[i])[0]
                && fields[15 + 2 * i] == key.wrap_index.coefficients_comm[i][1],
        fields[44] == key.wrap_index.generic_comm[0],
        fields[45] == key.wrap_index.generic_comm[1],
        fields[46] == key.wrap_index.psm_comm[0],
        fields[47] == key.wrap_index.psm_comm[1],
        fields[48] == key.wrap_index.complete_add_comm[0],
        fields[49] == key.wrap_index.complete_add_comm[1],
        fields[50] == key.wrap_index.mul_comm[0],
        fields[51] == key.wrap_index.mul_comm[1],
        fields[52] == key.wrap_index.emul_comm[0],
        fields[53] == key.wrap_index.emul_comm[1],
        fields[54] == key.wrap_index.endomul_scalar_comm[0],
        fields[55] == key.wrap_index.endomul_scalar_comm[1],
        forall|i: int|
            0 <= i < pubs.public_input@.len() ==> fields[56 + i] == #[trigger] pubs.public_input@[i],
        forall|i: int|
            0 <= i < pubs.public_output@.len() ==> fields[56 + pubs.public_input@.len() + i]
                == #[trigger] pubs.public_output@[i],
{
    let wrap = key.wrap_index;
    let points = key_points(key);
    let head = coordinates(points) + public_fields(pubs);
    lemma_coordinates_index(points);
    assert(points.len() == 28);
    assert forall|k: int| 0 <= k < head.len() implies fields[k] == #[trigger] head[k] by {
        assert(fields[k] == fields.subrange(0, head.len() as int)[k]);
    }
    assert forall|i: int| 0 <= i < 7 implies fields[2 * i] == (
    #[trigger] wrap.sigma_comm[i])[0] && fields[2 * i + 1] == wrap.sigma_comm[i][1] by {
        assert(points[i] == wrap.sigma_comm[i]);
        assert(head[2 * i] == coordinates(points)[2 * i]);
        assert(head[2 * i + 1] == coordinates(points)[2 * i + 1]);
    }
    assert forall|i: int| 0 <= i < 15 implies fields[14 + 2 * i] == (
    #[trigger] wrap.coefficients_comm[i])[0] && fields[15 + 2 * i]
        == wrap.coefficients_comm[i][1] by {
        assert(points[7 + i] == wrap.coefficients_comm[i]);
        assert(head[2 * (7 + i)] == coordinates(points)[2 * (7 + i)]);
        assert(head[2 * (7 + i) + 1] == coordinates(points)[2 * (7 + i) + 1]);
    }
    assert forall|i: int| 22 <= i < 28 implies fields[2 * i] == (#[trigger] points[i])[0]
        && fields[2 * i + 1] == points[i][1] by {
        assert(head[2 * i] == coordinates(points)[2 * i]);
        assert(head[2 * i + 1] == coordinates(points)[2 * i + 1]);
    }
    assert(points[22] == wrap.generic_comm);
    assert(points[23] == wrap.psm_comm);
    assert(points[24] == wrap.complete_add_comm);
    assert(points[25] == wrap.mul_comm);
    assert(points[26] == wrap.emul_comm);
    assert(points[27] == wrap.endomul_scalar_comm);
    assert forall|i: int| 0 <= i < pubs.public_input@.len() implies fields[56 + i]
        == #[trigger] pubs.public_input@[i] by {
        assert(head[56 + i] == public_fields(pubs)[i]);
    }
    assert forall|i: int| 0 <= i < pubs.public_output@.len() implies fields[56
        + pubs.public_input@.len() + i] == #[trigger] pubs.public_output@[i] by {
        assert(head[56 + pubs.public_input@.len() + i] == public_fields(pubs)[pubs.public_input@.len()
            + i]);
    }
}

/// A recursion entry stays in place when fields are appended after it.
proof fn lemma_recursion_entry_kept(
    before: Seq<FieldBytes>,
    after: Seq<FieldBytes>,
    base: int,
    commitment: PointBytes,
    challenges: [ScalarChallenge; 16],
    endo: nat,
)
    requires
        0 <= base,
        base + 18 <= before.len() <= after.len(),
        after.subrange(0, before.len() as int) == before,
        recursion_entry(before, base, commitment, challenges, endo),
    ensures
        recursion_entry(after, base, commitment, challenges, endo),
{
    assert(after[base] == after.subrange(0, before.len() as int)[base]);
    assert(after[base + 1] == after.subrange(0, before.len() as int)[base + 1]);
    assert forall|j: int| 0 <= j < 16 implies #[trigger] is_step_scalar(
        after[base + 2 + j],
        challenges[j],
        endo,
    ) by {
        assert(after[base + 2 + j] == after.subrange(0, before.len() as int)[base + 2 + j]);
    }
}

/// The fields of the message for the next step proof, under the step-field
/// endomorphism coefficient `endo`.
pub fn next_step_message_fields(
    proof: &PicklesProofPayload,
    key: &PicklesVkPayload,
    pubs: &Pubs,
    endo: &FieldBytes,
) -> (result: Result<Vec<FieldBytes>, PreparedError>)
    requires
        is_canonical_pallas_base(endo@),
    ensures
        match step_message_error(*proof, *key, *pubs) {
            Some(error) => result == Err::<Vec<FieldBytes>, PreparedError>(error),
            None => result matches Ok(fields) && step_message_layout(
                fields@,
                *proof,
                *key,
                *pubs,
                le_value(endo@),
            ),
        },
{
    let index = &key.wrap_index;
    let fixed: [PointBytes; 6] = [
        index.generic_comm,
        index.psm_comm,
        index.complete_add_comm,
        index.mul_comm,
        index.emul_comm,
        index.endomul_scalar_comm,
    ];
    let ghost sigma = index.sigma_comm@;
    let ghost coefficients = index.coefficients_comm@;
    proof {
        assert(key_points(*key) =~= sigma + coefficients + fixed@);
        lemma_coordinates_append(sigma, coefficients);
        lemma_coordinates_append(sigma + coefficients, fixed@);
    }
    let mut fields: Vec<FieldBytes> = Vec::new();
    if !push_pallas_coordinates(&mut fields, index.sigma_comm.as_slice()) {
        proof {
            let i =
                choose|i: int| 0 <= i < sigma.len() && !is_valid_pallas_point(#[trigger] sigma[i]);
            assert(key_points(*key)[i] == sigma[i]);
        }
        return Err(PreparedError::Point);
    }
    if !push_pallas_coordinates(&mut fields, index.coefficients_comm.as_slice()) {
        proof {
            let i = choose|i: int|
                0 <= i < coefficients.len() && !is_valid_pallas_point(#[trigger] coefficients[i]);
            assert(key_points(*key)[7 + i] == coefficients[i]);
        }
        return Err(PreparedError::Point);
    }
    if !push_pallas_coordinates(&mut fields, fixed.as_slice()) {
        proof {
            let i = choose|i: int| 0 <= i < 6 && !is_valid_pallas_point(#[trigger] fixed@[i]);
            assert(key_points(*key)[22 + i] == fixed@[i]);
        }
        return Err(PreparedError::Point);
    }
    proof {
        assert forall|i: int| 0 <= i < key_points(*key).len() implies is_valid_pallas_point(
            #[trigger] key_points(*key)[i],
        ) by {
            if i < 7 {
                assert(key_points(*key)[i] == sigma[i]);
            } else if i < 22 {
                assert(key_points(*key)[i] == coefficients[i - 7]);
            } else {
                assert(key_points(*key)[i] == fixed@[i - 22]);
            }
        }
    }
    let ghost key_coordinates = fields@;
    if !push_step_fields(&mut fields, pubs.public_input.as_slice()) {
        proof {
            let i = choose|i: int|
                0 <= i < pubs.public_input@.len() && !is_canonical_pallas_base(
                    (#[trigger] pubs.public_input@[i])@,
                );
            assert(public_fields(*pubs)[i] == pubs.public_input@[i]);
        }
        return Err(PreparedError::PublicInput);
    }
    if !push_step_fields(&mut fields, pubs.public_output.as_slice()) {
        proof {
            let i = choose|i: int|
                0 <= i < pubs.public_output@.len() && !is_canonical_pallas_base(
                    (#[trigger] pubs.public_output@[i])@,
                );
            assert(public_fields(*pubs)[pubs.public_input@.len() + i] == pubs.public_output@[i]);
        }
        return Err(PreparedError::PublicInput);
    }
    proof {
        assert forall|i: int| 0 <= i < public_fields(*pubs).len() implies is_canonical_pallas_base(
            (#[trigger] public_fields(*pubs)[i])@,
        ) by {
            if i < pubs.public_input@.len() {
                assert(public_fields(*pubs)[i] == pubs.public_input@[i]);
            } else {
                assert(public_fields(*pubs)[i] == pubs.public_output@[i
                    - pubs.public_input@.len()]);
            }
        }
    }
    let ghost head = fields@;
    assert(head =~= coordinates(key_points(*key)) + public_fields(*pubs));
    let message = &proof.statement.messages_for_next_step_proof;
    let count = if message.challenge_polynomial_commitments.len()
        <= message.old_bulletproof_challenges.len() {
        message.challenge_polynomial_commitments.len()
    } else {
        message.old_bulletproof_challenges.len()
    };
    let mut i: usize = 0;
    while i < count
        invariant
            i <= count,
            *message == proof.statement.messages_for_next_step_proof,
            count == recursion_count(*proof),
            count <= message.challenge_polynomial_commitments@.len(),
            count <= message.old_bulletproof_challenges@.len(),
            is_canonical_pallas_base(endo@),
            fields@.len() == head.len() + 18 * i,
            fields@.subrange(0, head.len() as int) == head,
            forall|k: int|
                0 <= k < key_points(*key).len() ==> is_valid_pallas_point(
                    #[trigger] key_points(*key)[k],
                ),
            forall|k: int|
                0 <= k < public_fields(*pubs).len() ==> is_canonical_pallas_base(
                    (#[trigger] public_fields(*pubs)[k])@,
                ),
            forall|k: int|
                0 <= k < i ==> is_valid_pallas_point(
                    #[trigger] message.challenge_polynomial_commitments@[k],
                ),
            forall|k: int|
                0 <= k < i ==> #[trigger] recursion_entry(
                    fields@,
                    head.len() + 18 * k,
                    message.challenge_polynomial_commitments@[k],
                    message.old_bulletproof_challenges@[k],
                    le_value(endo@),
                ),
        decreases count - i,
    {
        let commitment = message.challenge_polynomial_commitments[i];
        if !pallas_point_is_valid(&commitment) {
            assert(!is_valid_pallas_point(
                proof.statement.messages_for_next_step_proof.challenge_polynomial_commitments@[i as int],
            ));
            return Err(PreparedError::Point);
        }
        let ghost before = fields@;
        fields.push(commitment[0]);
        fields.push(commitment[1]);
        let ghost with_point = fields@;
        push_step_challenges(&mut fields, &message.old_bulletproof_challenges[i], endo);
        proof {
            let base = head.len() + 18 * i;
            assert(fields@.subrange(0, before.len() as int) =~= before);
            assert(fields@.subrange(0, head.len() as int) =~= head) by {
                assert(before.subrange(0, head.len() as int) == head);
            }
            assert(fields@[base] == with_point[base]);
            assert(fields@[base + 1] == with_point[base + 1]);
            assert forall|j: int| 0 <= j < 16 implies #[trigger] is_step_scalar(
                fields@[base + 2 + j],
                message.old_bulletproof_challenges@[i as int][j],
                le_value(endo@),
            ) by {
                assert(fields@[base + 2 + j] == fields@[with_point.len() + j]);
            }
            assert(recursion_entry(
                fields@,
                base,
                message.challenge_polynomial_commitments@[i as int],
                message.old_bulletproof_challenges@[i as int],
                le_value(endo@),
            ));
            assert forall|k: int| 0 <= k < i + 1 implies #[trigger] recursion_entry(
                fields@,
                head.len() + 18 * k,
                message.challenge_polynomial_commitments@[k],
                message.old_bulletproof_challenges@[k],
                le_value(endo@),
            ) by {
                if k < i {
                    lemma_recursion_entry_kept(
                        before,
                        fields@,
                        head.len() + 18 * k,
                        message.challenge_polynomial_commitments@[k],
                        message.old_bulletproof_challenges@[k],
                        le_value(endo@),
                    );
                }
            }
        }
        i = i + 1;
    }
    Ok(fields)
}

// ---------------------------------------------------------------------------
// The step accumulator
// ---------------------------------------------------------------------------

/// What the Vesta accumulator check of a proof is run on: its 16
/// bulletproof challenges as step-field elements, and the challenge
/// polynomial commitment of the message for the next wrap proof.
pub fn accumulator_inputs(proof: &PicklesProofPayload, endo: &FieldBytes) -> (result: Result<
    (Vec<FieldBytes>, PointBytes),
    PreparedError,
>)
    requires
        is_canonical_pallas_base(endo@),
    ensures
        ({
            let commitment =
                proof.statement.messages_for_next_wrap_proof.challenge_polynomial_commitment;
            let challenges = proof.statement.deferred_values.bulletproof_challenges;
            if is_valid_vesta_point(commitment) {
                result matches Ok(inputs) && {
                    &&& inputs.1 == commitment
                    &&& inputs.0@.len() == 16
                    &&& forall|i: int|
                        0 <= i < 16 ==> #[trigger] is_step_scalar(
                            inputs.0@[i],
                            challenges[i],
                            le_value(endo@),
                        )
                }
            } else {
                result == Err::<(Vec<FieldBytes>, PointBytes), PreparedError>(PreparedError::Point)
            }
        }),
{
    let mut challenges: Vec<FieldBytes> = Vec::new();
    let ghost start = challenges@;
    let steps = &proof.statement.deferred_values.bulletproof_challenges;
    push_step_challenges(&mut challenges, steps, endo);
    proof {
        assert forall|i: int| 0 <= i < 16 implies #[trigger] is_step_scalar(
            challenges@[i],
            steps[i],
            le_value(endo@),
        ) by {
            assert(is_step_scalar(challenges@[start.len() + i], steps[i], le_value(endo@)));
        }
    }
    let commitment = proof.statement.messages_for_next_wrap_proof.challenge_polynomial_commitment;
    if !vesta_point_is_valid(&commitment) {
        return Err(PreparedError::Point);
    }
    Ok((challenges, commitment))
}

/// Two byte strings of one length that hold the same little-endian integer
/// are equal.
proof fn lemma_le_value_injective(a: Seq<u8>, b: Seq<u8>)
    requires
        a.len() == b.len(),
        le_value(a) == le_value(b),
    ensures
        a == b,
    decreases a.len(),
{
    if a.len() > 0 {
        assert(a[0] as nat + 256 * le_value(a.drop_first()) == b[0] as nat + 256 * le_value(
            b.drop_first(),
        ));
        assert(a[0] == b[0]);
        lemma_le_value_injective(a.drop_first(), b.drop_first());
        assert(a =~= seq![a[0]] + a.drop_first());
        assert(b =~= seq![b[0]] + b.drop_first());
    } else {
        assert(a =~= b);
    }
}

/// The layout of the message for the next step proof determines its fields.
proof fn lemma_step_layout_determines_fields(
    fields: Seq<FieldBytes>,
    other: Seq<FieldBytes>,
    proof: PicklesProofPayload,
    key: PicklesVkPayload,
    pubs: Pubs,
    endo: nat,
)
    requires
        step_message_layout(fields, proof, key, pubs, endo),
        step_message_layout(other, proof, key, pubs, endo),
    ensures
        fields == other,
{
    let message = proof.statement.messages_for_next_step_proof;
    let head = coordinates(key_points(key)) + public_fields(pubs);
    let h = head.len() as int;
    assert forall|i: int| 0 <= i < fields.len() implies fields[i] == other[i] by {
        if i < h {
            assert(fields[i] == fields.subrange(0, h)[i]);
            assert(other[i] == other.subrange(0, h)[i]);
        } else {
            let e = (i - h) / 18;
            let r = (i - h) % 18;
            vstd::arithmetic::div_mod::lemma_fundamental_div_mod(i - h, 18);
            assert(0 <= e < recursion_count(proof));
            assert(recursion_entry(
                fields,
                h + 18 * e,
                message.challenge_polynomial_commitments@[e],
                message.old_bulletproof_challenges@[e],
                endo,
            ));
            assert(recursion_entry(
                other,
                h + 18 * e,
                message.challenge_polynomial_commitments@[e],
                message.old_bulletproof_challenges@[e],
                endo,
            ));
            if r >= 2 {
                let j = r - 2;
                assert(i == h + 18 * e + 2 + j);
                let challenge = message.old_bulletproof_challenges@[e][j];
                assert(is_step_scalar(fields[h + 18 * e + 2 + j], challenge, endo));
                assert(is_step_scalar(other[h + 18 * e + 2 + j], challenge, endo));
                lemma_le_value_injective(fields[i]@, other[i]@);
                assert(fields[i]@ == other[i]@);
            }
        }
    }
    assert(fields =~= other);
}

/// The message for the next step proof sees the public values only as one
/// flat sequence: two partitions of the same values into input and output
/// give the same verdict and the same fields. Only the key's declared
/// arities tell such partitions apart.
pub proof fn lemma_step_message_sees_flat_public_values(
    proof: PicklesProofPayload,
    key: PicklesVkPayload,
    first: Pubs,
    second: Pubs,
    first_fields: Seq<FieldBytes>,
    second_fields: Seq<FieldBytes>,
    endo: nat,
)
    requires
        first.public_input@ + first.public_output@ == second.public_input@
            + second.public_output@,
    ensures
        step_message_error(proof, key, first) == step_message_error(proof, key, second),
        step_message_layout(first_fields, proof, key, first, endo) && step_message_layout(
            second_fields,
            proof,
            key,
            second,
            endo,
        ) ==> first_fields == second_fields,
{
    assert(public_fields(first) == public_fields(second));
    if step_message_layout(first_fields, proof, key, first, endo) && step_message_layout(
        second_fields,
        proof,
        key,
        second,
        endo,
    ) {
        assert(step_message_layout(second_fields, proof, key, first, endo));
        lemma_step_layout_determines_fields(first_fields, second_fields, proof, key, first, endo);
    }
}

} // verus!
