//! The checks that the outer wrap proof passes on its way to the outer
//! Kimchi verifier, and the previous challenges that it carries there.

use vstd::prelude::*;

use crate::format::{
    FieldBytes, PicklesProofPayload, PicklesVkPayload, PointBytes, ScalarChallenge,
    WrapEvaluations,
};
use crate::messages::{
    is_wrap_scalar, key_points, public_fields, push_wrap_challenges, step_message_error,
};
use crate::pickles::{Pickles, PreparedError, Pubs};
use crate::pasta::{
    decodes_vesta_base, is_canonical_pallas_base, is_canonical_vesta_base, is_valid_pallas_point,
    is_valid_vesta_point, le_value, pallas_point_is_valid,
};
use crate::profile::{
    all_pairs_canonical_vesta, all_pairs_decode_vesta, all_valid_pallas, spec_validate_proof,
    spec_validate_vk,
};

verus! {

// ---------------------------------------------------------------------------
// The recursion challenges of the outer proof
// ---------------------------------------------------------------------------

/// Why the outer wrap proof cannot be converted for the outer verifier.
#[derive(Clone, Copy, Debug, PartialEq, Eq, Structural)]
pub enum OuterProofError {
    /// A field element is not canonical.
    Field,
    /// A commitment is not a Pallas point.
    Point,
    /// More than two recursion commitments.
    Recursion,
}

/// The Pallas commitment that stands in for a missing recursion entry.
pub const PADDING_COMMITMENT: PointBytes = [
    [
        72, 181, 54, 232, 70, 84, 165, 95, 79, 253, 255, 253, 245, 145, 189, 157, 60, 161, 112,
        75, 206, 240, 92, 165, 157, 194, 100, 72, 222, 223, 211, 17,
    ],
    [
        107, 26, 44, 68, 221, 33, 199, 205, 89, 85, 239, 25, 195, 243, 171, 184, 66, 14, 27, 122,
        229, 23, 20, 222, 215, 138, 132, 77, 34, 7, 245, 5,
    ],
];

/// One previous challenge of the outer proof: 15 wrap-field challenges and
/// the commitment to their polynomial.
#[derive(Clone, Debug, PartialEq, Eq)]
pub struct RecursionInput {
    pub challenges: Vec<FieldBytes>,
    pub commitment: PointBytes,
}

/// The next-step commitments, front-padded to two entries.
pub open spec fn padded_commitments(commitments: Seq<PointBytes>) -> Seq<PointBytes> {
    Seq::new((2 - commitments.len()) as nat, |i: int| PADDING_COMMITMENT) + commitments
}

/// The two previous challenges of the outer proof: each old bulletproof
/// challenge set of the message for the next wrap proof, as wrap-field
/// elements, with the matching next-step commitment, missing commitments
/// being padded at the front.
pub open spec fn recursion_inputs_layout(
    inputs: Seq<RecursionInput>,
    proof: PicklesProofPayload,
    endo: nat,
) -> bool {
    let sets = proof.statement.messages_for_next_wrap_proof.old_bulletproof_challenges;
    let commitments = padded_commitments(
        proof.statement.messages_for_next_step_proof.challenge_polynomial_commitments@,
    );
    &&& inputs.len() == 2
    &&& forall|k: int|
        0 <= k < 2 ==> {
            &&& (#[trigger] inputs[k]).commitment == commitments[k]
            &&& inputs[k].challenges@.len() == 15
            &&& forall|i: int|
                0 <= i < 15 ==> #[trigger] is_wrap_scalar(
                    inputs[k].challenges@[i],
                    sets[k].challenges[i],
                    endo,
                )
        }
}

/// The wrap-field elements of 15 challenges.
fn wrap_challenges(challenges: &[ScalarChallenge; 15], endo: &FieldBytes) -> (fields: Vec<
    FieldBytes,
>)
    requires
        is_canonical_vesta_base(endo@),
    ensures
        fields@.len() == 15,
        forall|i: int|
            0 <= i < 15 ==> #[trigger] is_wrap_scalar(fields@[i], challenges[i], le_value(endo@)),
{
    let mut fields: Vec<FieldBytes> = Vec::new();
    let ghost start = fields@;
    push_wrap_challenges(&mut fields, challenges, endo);
    proof {
        assert forall|i: int| 0 <= i < 15 implies #[trigger] is_wrap_scalar(
            fields@[i],
            challenges[i],
            le_value(endo@),
        ) by {
            assert(is_wrap_scalar(fields@[start.len() + i], challenges[i], le_value(endo@)));
        }
    }
    fields
}

/// The previous challenges of the outer proof, under the wrap-field
/// endomorphism coefficient `endo`: every next-step commitment must be a
/// Pallas point, and there may be at most two.
pub fn recursion_challenges(proof: &PicklesProofPayload, endo: &FieldBytes) -> (result: Result<
    Vec<RecursionInput>,
    OuterProofError,
>)
    requires
        is_canonical_vesta_base(endo@),
    ensures
        ({
            let commitments =
                proof.statement.messages_for_next_step_proof.challenge_polynomial_commitments@;
            if exists|i: int| 0 <= i < commitments.len() && !is_valid_pallas_point(#[trigger] commitments[i]) {
                result == Err::<Vec<RecursionInput>, OuterProofError>(OuterProofError::Point)
            } else if commitments.len() > 2 {
                result == Err::<Vec<RecursionInput>, OuterProofError>(OuterProofError::Recursion)
            } else {
                result matches Ok(inputs) && recursion_inputs_layout(inputs@, *proof, le_value(endo@))
            }
        }),
{
    let commitments =
        &proof.statement.messages_for_next_step_proof.challenge_polynomial_commitments;
    let mut i: usize = 0;
    while i < commitments.len()
        invariant
            i <= commitments@.len(),
            *commitments == proof.statement.messages_for_next_step_proof.challenge_polynomial_commitments,
            forall|j: int| 0 <= j < i ==> is_valid_pallas_point(#[trigger] commitments@[j]),
        decreases commitments@.len() - i,
    {
        if !pallas_point_is_valid(&commitments[i]) {
            assert(!is_valid_pallas_point(commitments@[i as int]));
            return Err(OuterProofError::Point);
        }
        i = i + 1;
    }
    if commitments.len() > 2 {
        return Err(OuterProofError::Recursion);
    }
    let first_commitment = if commitments.len() == 2 {
        commitments[0]
    } else {
        PADDING_COMMITMENT
    };
    let second_commitment = if commitments.len() >= 1 {
        commitments[commitments.len() - 1]
    } else {
        PADDING_COMMITMENT
    };
    let sets = &proof.statement.messages_for_next_wrap_proof.old_bulletproof_challenges;
    let first = RecursionInput {
        challenges: wrap_challenges(&sets[0].challenges, endo),
        commitment: first_commitment,
    };
    let second = RecursionInput {
        challenges: wrap_challenges(&sets[1].challenges, endo),
        commitment: second_commitment,
    };
    let mut inputs: Vec<RecursionInput> = Vec::new();
    inputs.push(first);
    inputs.push(second);
    proof {
        let padded = padded_commitments(commitments@);
        assert(padded.len() == 2);
        assert(padded[0] == first_commitment);
        assert(padded[1] == second_commitment);
        assert forall|k: int| 0 <= k < 2 implies {
            &&& (#[trigger] inputs@[k]).commitment == padded[k]
            &&& inputs@[k].challenges@.len() == 15
            &&& forall|i: int|
                0 <= i < 15 ==> #[trigger] is_wrap_scalar(
                    inputs@[k].challenges@[i],
                    sets[k].challenges[i],
                    le_value(endo@),
                )
        } by {
            if k == 0 {
                assert(inputs@[k] == first);
            } else {
                assert(inputs@[k] == second);
            }
        }
    }
    Ok(inputs)
}


// ---------------------------------------------------------------------------
// The conversion of the outer proof
// ---------------------------------------------------------------------------

/// Every commitment that the opening and the commitments of the outer proof
/// carry is a Pallas point: the 15 `lr` pairs, `w_comm`, `z_comm`, `t_comm`
/// and `delta`.
pub open spec fn outer_commitments_valid(proof: PicklesProofPayload) -> bool {
    let wrap = proof.wrap_proof;
    &&& forall|i: int, j: int|
        0 <= i < 15 && 0 <= j < 2 ==> #[trigger] is_valid_pallas_point(wrap.opening.lr[i][j])
    &&& all_valid_pallas(wrap.commitments.w_comm@)
    &&& is_valid_pallas_point(wrap.commitments.z_comm)
    &&& all_valid_pallas(wrap.commitments.t_comm@)
    &&& is_valid_pallas_point(wrap.opening.delta)
}

/// Every evaluation of the outer proof is a canonical wrap-field element.
pub open spec fn outer_evaluations_canonical(e: WrapEvaluations) -> bool {
    &&& all_pairs_canonical_vesta(e.w@)
    &&& all_pairs_canonical_vesta(seq![e.z])
    &&& all_pairs_canonical_vesta(e.s@)
    &&& all_pairs_canonical_vesta(e.coefficients@)
    &&& all_pairs_canonical_vesta(
        seq![
            e.generic_selector,
            e.poseidon_selector,
            e.complete_add_selector,
            e.mul_selector,
            e.emul_selector,
            e.endomul_scalar_selector,
        ],
    )
}

/// The first failure met when the outer proof is converted, in the order
/// of the conversion: the opening's `lr` pairs and the commitments, then the
/// scalars `z1` and `z2`, the challenge polynomial commitment, the
/// evaluations and `ft_eval1`, and last the previous challenges.
pub open spec fn outer_proof_error(proof: PicklesProofPayload) -> Option<OuterProofError> {
    let wrap = proof.wrap_proof;
    let commitments =
        proof.statement.messages_for_next_step_proof.challenge_polynomial_commitments@;
    if !outer_commitments_valid(proof) {
        Some(OuterProofError::Point)
    } else if !is_canonical_vesta_base(wrap.opening.z1@) || !is_canonical_vesta_base(
        wrap.opening.z2@,
    ) {
        Some(OuterProofError::Field)
    } else if !is_valid_pallas_point(wrap.opening.challenge_polynomial_commitment) {
        Some(OuterProofError::Point)
    } else if !outer_evaluations_canonical(wrap.evaluations) || !is_canonical_vesta_base(
        wrap.ft_eval1@,
    ) {
        Some(OuterProofError::Field)
    } else if !all_valid_pallas(commitments) {
        Some(OuterProofError::Point)
    } else if commitments.len() > 2 {
        Some(OuterProofError::Recursion)
    } else {
        None
    }
}

/// Checks that every entry encodes a Pallas point.
fn all_pallas(points: &[PointBytes]) -> (ok: bool)
    ensures
        ok == all_valid_pallas(points@),
{
    let mut i: usize = 0;
    while i < points.len()
        invariant
            i <= points@.len(),
            forall|j: int| 0 <= j < i ==> #[trigger] is_valid_pallas_point(points@[j]),
        decreases points@.len() - i,
    {
        if !pallas_point_is_valid(&points[i]) {
            assert(!is_valid_pallas_point(points@[i as int]));
            return false;
        }
        i = i + 1;
    }
    true
}

/// Checks the opening's `lr` pairs and the commitments of the outer proof.
fn outer_commitments_check(proof: &PicklesProofPayload) -> (ok: bool)
    ensures
        ok == outer_commitments_valid(*proof),
{
    let wrap = &proof.wrap_proof;
    let mut i: usize = 0;
    while i < 15
        invariant
            i <= 15,
            *wrap == proof.wrap_proof,
            forall|k: int, j: int|
                0 <= k < i && 0 <= j < 2 ==> #[trigger] is_valid_pallas_point(
                    wrap.opening.lr[k][j],
                ),
        decreases 15 - i,
    {
        if !pallas_point_is_valid(&wrap.opening.lr[i][0]) || !pallas_point_is_valid(
            &wrap.opening.lr[i][1],
        ) {
            assert(!is_valid_pallas_point(wrap.opening.lr[i as int][0]) || !is_valid_pallas_point(
                wrap.opening.lr[i as int][1],
            ));
            return false;
        }
        assert forall|k: int, j: int| 0 <= k < i + 1 && 0 <= j < 2 implies #[trigger] is_valid_pallas_point(
            wrap.opening.lr[k][j],
        ) by {
            if k == i && j == 1 {
            } else if k == i {
            }
        }
        i = i + 1;
    }
    all_pallas(wrap.commitments.w_comm.as_slice()) && pallas_point_is_valid(
        &wrap.commitments.z_comm,
    ) && all_pallas(wrap.commitments.t_comm.as_slice()) && pallas_point_is_valid(
        &wrap.opening.delta,
    )
}

/// Checks that every evaluation of the outer proof is canonical.
fn outer_evaluations_check(e: &WrapEvaluations) -> (ok: bool)
    ensures
        ok == outer_evaluations_canonical(*e),
{
    let z: [[FieldBytes; 2]; 1] = [e.z];
    let fixed: [[FieldBytes; 2]; 6] = [
        e.generic_selector,
        e.poseidon_selector,
        e.complete_add_selector,
        e.mul_selector,
        e.emul_selector,
        e.endomul_scalar_selector,
    ];
    assert(z@ =~= seq![e.z]);
    assert(fixed@ =~= seq![
        e.generic_selector,
        e.poseidon_selector,
        e.complete_add_selector,
        e.mul_selector,
        e.emul_selector,
        e.endomul_scalar_selector,
    ]);
    all_pairs_decode_vesta(e.w.as_slice()) && all_pairs_decode_vesta(z.as_slice())
        && all_pairs_decode_vesta(e.s.as_slice()) && all_pairs_decode_vesta(
        e.coefficients.as_slice(),
    ) && all_pairs_decode_vesta(fixed.as_slice())
}

/// Converts the outer wrap proof for the outer verifier, under the
/// wrap-field endomorphism coefficient `endo`: fails with the first failure
/// of the conversion, and otherwise gives the previous challenges that the
/// converted proof carries. Its points and scalars are handed on as they
/// stand.
pub fn convert_outer_proof(proof: &PicklesProofPayload, endo: &FieldBytes) -> (result: Result<
    Vec<RecursionInput>,
    OuterProofError,
>)
    requires
        is_canonical_vesta_base(endo@),
    ensures
        match outer_proof_error(*proof) {
            Some(error) => result == Err::<Vec<RecursionInput>, OuterProofError>(error),
            None => result matches Ok(inputs) && recursion_inputs_layout(
                inputs@,
                *proof,
                le_value(endo@),
            ),
        },
{
    let wrap = &proof.wrap_proof;
    if !outer_commitments_check(proof) {
        return Err(OuterProofError::Point);
    }
    if !decodes_vesta_base(&wrap.opening.z1) || !decodes_vesta_base(&wrap.opening.z2) {
        return Err(OuterProofError::Field);
    }
    if !pallas_point_is_valid(&wrap.opening.challenge_polynomial_commitment) {
        return Err(OuterProofError::Point);
    }
    if !outer_evaluations_check(&wrap.evaluations) || !decodes_vesta_base(&wrap.ft_eval1) {
        return Err(OuterProofError::Field);
    }
    recursion_challenges(proof, endo)
}

// ---------------------------------------------------------------------------
// Properties
// ---------------------------------------------------------------------------

/// Once a statement passes the structural checks, the later steps that read
/// its points and scalars go through: the message for the next wrap proof
/// and the accumulator have a Vesta commitment, the outer proof converts,
/// and the message for the next step proof can fail only on a public value
/// that is not a step-field element.
pub proof fn lemma_checked_statement_prepares(
    pickles: Pickles,
    proof: PicklesProofPayload,
    key: PicklesVkPayload,
    pubs: Pubs,
)
    requires
        pickles.spec_check_statement(proof, key, pubs) is Ok,
    ensures
        is_valid_vesta_point(
            proof.statement.messages_for_next_wrap_proof.challenge_polynomial_commitment,
        ),
        outer_proof_error(proof) is None,
        step_message_error(proof, key, pubs) is None <==> forall|i: int|
            0 <= i < public_fields(pubs).len() ==> is_canonical_pallas_base(
                (#[trigger] public_fields(pubs)[i])@,
            ),
        step_message_error(proof, key, pubs) is None || step_message_error(proof, key, pubs)
            == Some(PreparedError::PublicInput),
{
    assert(spec_validate_vk(key) is Ok);
    assert(spec_validate_proof(proof, key) is Ok);
    let index = key.wrap_index;
    let fixed = seq![
        index.generic_comm,
        index.psm_comm,
        index.complete_add_comm,
        index.mul_comm,
        index.emul_comm,
        index.endomul_scalar_comm,
    ];
    assert forall|i: int| 0 <= i < key_points(key).len() implies is_valid_pallas_point(
        #[trigger] key_points(key)[i],
    ) by {
        if i < 7 {
            assert(key_points(key)[i] == index.sigma_comm@[i]);
        } else if i < 22 {
            assert(key_points(key)[i] == index.coefficients_comm@[i - 7]);
        } else {
            assert(key_points(key)[i] == fixed[i - 22]);
        }
    }
    let e = proof.wrap_proof.evaluations;
    assert(outer_evaluations_canonical(e));
}

} // verus!
