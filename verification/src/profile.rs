//! Consensus bounds and structural validation for `PicklesV1`.

use vstd::prelude::*;

use crate::format::{
    FeatureFlags, FieldBytes, PicklesProofPayload, PicklesVkPayload, PointBytes,
    PointEvaluations, ProofEvaluations, ProofsVerified,
};
use crate::pasta::{
    decodes_pallas_base, decodes_vesta_base, is_canonical_pallas_base, is_canonical_vesta_base,
    is_valid_pallas_point, is_valid_vesta_point, limbs_value, pallas_point_is_valid,
    vesta_base_from_limbs, vesta_base_modulus, vesta_point_is_valid,
};

verus! {

/// Maximum accepted split-polynomial evaluation chunk count.
pub const MAX_CHUNKS: usize = 8;

/// Maximum accepted canonical proof payload size.
pub const MAX_PROOF_BYTES: usize = 65_536;

/// Maximum combined public input/output field count.
pub const MAX_PUBLIC_FIELDS: usize = 1_024;

/// Maximum accepted canonical verification-key payload size.
pub const MAX_VK_BYTES: usize = 4_096;

/// Smallest accepted step-proof domain (base-two logarithm).
pub const MIN_STEP_DOMAIN_LOG2: u8 = 3;

/// Largest accepted step-proof domain (base-two logarithm). Eight chunks over
/// the fixed 2^16 step SRS reach a 2^19 circuit domain.
pub const MAX_STEP_DOMAIN_LOG2: u8 = 19;

/// Base-two logarithm of the Pallas wrap SRS.
pub const WRAP_SRS_LOG2: u8 = 15;

/// Number of fields in the reconstructed wrap public input.
pub const WRAP_PUBLIC_INPUTS: usize = 40;

/// Number of previous challenges carried by the wrap proof.
pub const WRAP_PREV_CHALLENGES: usize = 2;

/// Zero-knowledge rows of the wrap circuit.
pub const WRAP_ZK_ROWS: u64 = 3;

/// The zero-knowledge row count of o1js's chunked step circuit.
pub open spec fn spec_step_zk_rows(chunks: nat) -> Option<nat> {
    if chunks == 0 || chunks > MAX_CHUNKS {
        None
    } else {
        Some(((16 * chunks + 5) / 7) as nat)
    }
}

/// Number of zero-knowledge rows used by o1js's chunked step circuit: the
/// integer formula `(2 * (permutations + 1) * chunks - 2 + permutations) /
/// permutations` with seven permutation columns. The wrap circuit keeps the
/// fixed [`WRAP_ZK_ROWS`].
pub fn step_zk_rows(chunks: usize) -> (rows: Option<u64>)
    ensures
        match rows {
            Some(r) => spec_step_zk_rows(chunks as nat) == Some(r as nat),
            None => spec_step_zk_rows(chunks as nat) is None,
        },
{
    if chunks == 0 || chunks > MAX_CHUNKS {
        None
    } else {
        let permutations: usize = 7;
        Some(((2 * (permutations + 1) * chunks - 2 + permutations) / permutations) as u64)
    }
}

/// Why a payload falls outside the `PicklesV1` profile.
#[derive(Clone, Copy, Debug, PartialEq, Eq, Structural)]
pub enum ProfileError {
    EvaluationChunks,
    FeatureFlags,
    FieldEncoding,
    PointEncoding,
    ProofConfiguration,
    VerificationKeyConfiguration,
}

// ---------------------------------------------------------------------------
// The evaluations carried by a step proof
// ---------------------------------------------------------------------------

/// The evaluation that an optional slot holds, as a sequence of length 0 or 1.
pub open spec fn opt_seq(slot: Option<PointEvaluations>) -> Seq<PointEvaluations> {
    match slot {
        Some(evaluation) => seq![evaluation],
        None => Seq::empty(),
    }
}

/// Every evaluation that a step proof carries, in the order in which the
/// profile checks them: the fixed columns and selectors, then each present
/// optional selector and lookup evaluation.
pub open spec fn spec_all_evaluations(e: ProofEvaluations) -> Seq<PointEvaluations> {
    e.w@ + e.coefficients@ + seq![e.z] + e.s@ + seq![
        e.generic_selector,
        e.poseidon_selector,
        e.complete_add_selector,
        e.mul_selector,
        e.emul_selector,
        e.endomul_scalar_selector,
    ] + opt_seq(e.range_check0_selector) + opt_seq(e.range_check1_selector) + opt_seq(
        e.foreign_field_add_selector,
    ) + opt_seq(e.foreign_field_mul_selector) + opt_seq(e.xor_selector) + opt_seq(
        e.rot_selector,
    ) + opt_seq(e.lookup_aggregation) + opt_seq(e.lookup_table) + opt_seq(e.lookup_sorted[0])
        + opt_seq(e.lookup_sorted[1]) + opt_seq(e.lookup_sorted[2]) + opt_seq(e.lookup_sorted[3])
        + opt_seq(e.lookup_sorted[4]) + opt_seq(e.runtime_lookup_table) + opt_seq(
        e.runtime_lookup_table_selector,
    ) + opt_seq(e.xor_lookup_selector) + opt_seq(e.lookup_gate_lookup_selector) + opt_seq(
        e.range_check_lookup_selector,
    ) + opt_seq(e.foreign_field_mul_lookup_selector)
}

/// The evaluations that a sequence of references points to.
pub open spec fn deref_all(refs: Seq<&PointEvaluations>) -> Seq<PointEvaluations> {
    refs.map_values(|r: &PointEvaluations| *r)
}

/// Appends references to each item of `items`, in order.
pub(crate) fn push_each<'a>(out: &mut Vec<&'a PointEvaluations>, items: &'a [PointEvaluations])
    ensures
        deref_all(final(out)@) == deref_all(old(out)@) + items@,
{
    let ghost start = deref_all(out@);
    let mut i: usize = 0;
    while i < items.len()
        invariant
            i <= items@.len(),
            deref_all(out@) == start + items@.take(i as int),
        decreases items@.len() - i,
    {
        let ghost before = out@;
        out.push(&items[i]);
        assert(deref_all(out@) =~= deref_all(before).push(items@[i as int]));
        assert(items@.take(i as int + 1) =~= items@.take(i as int).push(items@[i as int]));
        assert(deref_all(out@) =~= start + items@.take(i as int + 1));
        i = i + 1;
    }
    assert(items@.take(items@.len() as int) =~= items@);
}

/// Appends a reference to one evaluation.
pub(crate) fn push_one<'a>(out: &mut Vec<&'a PointEvaluations>, item: &'a PointEvaluations)
    ensures
        deref_all(final(out)@) == deref_all(old(out)@) + seq![*item],
{
    out.push(item);
    assert(deref_all(out@) =~= deref_all(old(out)@) + seq![*item]);
}

/// Appends a reference to the evaluation in an optional slot, if any.
pub(crate) fn push_opt<'a>(out: &mut Vec<&'a PointEvaluations>, slot: &'a Option<PointEvaluations>)
    ensures
        deref_all(final(out)@) == deref_all(old(out)@) + opt_seq(*slot),
{
    match slot {
        Some(evaluation) => {
            push_one(out, evaluation);
        },
        None => {
            assert(deref_all(out@) =~= deref_all(out@) + opt_seq(*slot));
        },
    }
}

/// Collects every evaluation of a step proof, in the profile's order.
pub fn all_evaluations(evals: &ProofEvaluations) -> (all: Vec<&PointEvaluations>)
    ensures
        deref_all(all@) == spec_all_evaluations(*evals),
{
    let mut all: Vec<&PointEvaluations> = Vec::new();
    assert(deref_all(all@) =~= Seq::<PointEvaluations>::empty());
    push_each(&mut all, evals.w.as_slice());
    push_each(&mut all, evals.coefficients.as_slice());
    push_one(&mut all, &evals.z);
    push_each(&mut all, evals.s.as_slice());
    let ghost fixed = deref_all(all@);
    push_one(&mut all, &evals.generic_selector);
    push_one(&mut all, &evals.poseidon_selector);
    push_one(&mut all, &evals.complete_add_selector);
    push_one(&mut all, &evals.mul_selector);
    push_one(&mut all, &evals.emul_selector);
    push_one(&mut all, &evals.endomul_scalar_selector);
    assert(deref_all(all@) =~= fixed + seq![
        evals.generic_selector,
        evals.poseidon_selector,
        evals.complete_add_selector,
        evals.mul_selector,
        evals.emul_selector,
        evals.endomul_scalar_selector,
    ]);
    push_opt(&mut all, &evals.range_check0_selector);
    push_opt(&mut all, &evals.range_check1_selector);
    push_opt(&mut all, &evals.foreign_field_add_selector);
    push_opt(&mut all, &evals.foreign_field_mul_selector);
    push_opt(&mut all, &evals.xor_selector);
    push_opt(&mut all, &evals.rot_selector);
    push_opt(&mut all, &evals.lookup_aggregation);
    push_opt(&mut all, &evals.lookup_table);
    push_opt(&mut all, &evals.lookup_sorted[0]);
    push_opt(&mut all, &evals.lookup_sorted[1]);
    push_opt(&mut all, &evals.lookup_sorted[2]);
    push_opt(&mut all, &evals.lookup_sorted[3]);
    push_opt(&mut all, &evals.lookup_sorted[4]);
    push_opt(&mut all, &evals.runtime_lookup_table);
    push_opt(&mut all, &evals.runtime_lookup_table_selector);
    push_opt(&mut all, &evals.xor_lookup_selector);
    push_opt(&mut all, &evals.lookup_gate_lookup_selector);
    push_opt(&mut all, &evals.range_check_lookup_selector);
    push_opt(&mut all, &evals.foreign_field_mul_lookup_selector);
    all
}


// ---------------------------------------------------------------------------
// Evaluation chunks
// ---------------------------------------------------------------------------

/// `evaluation` holds exactly `chunks` values at each point.
pub open spec fn has_chunks(evaluation: PointEvaluations, chunks: nat) -> bool {
    evaluation.zeta@.len() == chunks && evaluation.zeta_omega@.len() == chunks
}

/// The public input fixes a chunk count in `1..=MAX_CHUNKS` that every
/// evaluation of the step proof shares.
pub open spec fn chunks_consistent(
    public_input: PointEvaluations,
    evals: ProofEvaluations,
) -> bool {
    let chunks = public_input.zeta@.len();
    &&& 1 <= chunks <= MAX_CHUNKS
    &&& public_input.zeta_omega@.len() == chunks
    &&& forall|i: int|
        0 <= i < spec_all_evaluations(evals).len() ==> #[trigger] has_chunks(
            spec_all_evaluations(evals)[i],
            chunks,
        )
}

/// Checks that every evaluation has the public input's chunk count, which
/// must itself lie in `1..=MAX_CHUNKS`, and returns that count.
pub fn validate_evaluation_chunks(
    public_input: &PointEvaluations,
    evals: &ProofEvaluations,
) -> (result: Result<usize, ProfileError>)
    ensures
        chunks_consistent(*public_input, *evals) ==> result == Ok::<usize, ProfileError>(
            public_input.zeta@.len() as usize,
        ),
        !chunks_consistent(*public_input, *evals) ==> result == Err::<usize, ProfileError>(
            ProfileError::EvaluationChunks,
        ),
{
    let chunks = public_input.zeta.len();
    if chunks == 0 || chunks > MAX_CHUNKS || public_input.zeta_omega.len() != chunks {
        return Err(ProfileError::EvaluationChunks);
    }
    let all = all_evaluations(evals);
    let ghost spec_all = spec_all_evaluations(*evals);
    let mut i: usize = 0;
    while i < all.len()
        invariant
            deref_all(all@) == spec_all,
            spec_all == spec_all_evaluations(*evals),
            chunks == public_input.zeta@.len(),
            i <= all@.len(),
            forall|j: int| 0 <= j < i ==> #[trigger] has_chunks(spec_all[j], chunks as nat),
        decreases all@.len() - i,
    {
        let evaluation = all[i];
        assert(*evaluation == spec_all[i as int]);
        if evaluation.zeta.len() != chunks || evaluation.zeta_omega.len() != chunks {
            assert(!has_chunks(spec_all[i as int], chunks as nat));
            return Err(ProfileError::EvaluationChunks);
        }
        i = i + 1;
    }
    Ok(chunks)
}

// ---------------------------------------------------------------------------
// Feature flags
// ---------------------------------------------------------------------------

/// A range-check lookup is needed by either range check or by rotation.
pub open spec fn range_check_lookup(flags: FeatureFlags) -> bool {
    flags.range_check0 || flags.range_check1 || flags.rot
}

/// Gates that perform four lookups per row.
pub open spec fn lookups_per_row_4(flags: FeatureFlags) -> bool {
    flags.xor || range_check_lookup(flags) || flags.foreign_field_mul
}

/// Gates that perform at least three lookups per row.
pub open spec fn lookups_per_row_3(flags: FeatureFlags) -> bool {
    lookups_per_row_4(flags) || flags.lookup
}

/// The statement commits to lookups, so the proof must carry a joint combiner.
pub open spec fn uses_lookup(flags: FeatureFlags) -> bool {
    flags.range_check0 || flags.range_check1 || flags.foreign_field_mul || flags.xor
        || flags.rot || flags.lookup
}

/// Each optional evaluation is present exactly when the feature flags
/// enable a gate or lookup that needs it.
pub open spec fn feature_flags_match(flags: FeatureFlags, evals: ProofEvaluations) -> bool {
    &&& evals.range_check0_selector.is_some() == flags.range_check0
    &&& evals.range_check1_selector.is_some() == flags.range_check1
    &&& evals.foreign_field_add_selector.is_some() == flags.foreign_field_add
    &&& evals.foreign_field_mul_selector.is_some() == flags.foreign_field_mul
    &&& evals.xor_selector.is_some() == flags.xor
    &&& evals.rot_selector.is_some() == flags.rot
    &&& evals.lookup_aggregation.is_some() == lookups_per_row_3(flags)
    &&& evals.lookup_table.is_some() == lookups_per_row_3(flags)
    &&& evals.lookup_sorted[0].is_some() == lookups_per_row_3(flags)
    &&& evals.lookup_sorted[1].is_some() == lookups_per_row_3(flags)
    &&& evals.lookup_sorted[2].is_some() == lookups_per_row_3(flags)
    &&& evals.lookup_sorted[3].is_some() == lookups_per_row_3(flags)
    &&& evals.lookup_sorted[4].is_some() == lookups_per_row_4(flags)
    &&& evals.runtime_lookup_table.is_some() == flags.runtime_tables
    &&& evals.runtime_lookup_table_selector.is_some() == flags.runtime_tables
    &&& evals.xor_lookup_selector.is_some() == flags.xor
    &&& evals.lookup_gate_lookup_selector.is_some() == flags.lookup
    &&& evals.range_check_lookup_selector.is_some() == range_check_lookup(flags)
    &&& evals.foreign_field_mul_lookup_selector.is_some() == flags.foreign_field_mul
}

/// Checks that the optional evaluations are exactly those the feature flags
/// enable.
pub fn validate_feature_flags(flags: &FeatureFlags, evals: &ProofEvaluations) -> (result: Result<
    (),
    ProfileError,
>)
    ensures
        feature_flags_match(*flags, *evals) ==> result == Ok::<(), ProfileError>(()),
        !feature_flags_match(*flags, *evals) ==> result == Err::<(), ProfileError>(
            ProfileError::FeatureFlags,
        ),
        result is Ok ==> (evals.range_check_lookup_selector is Some <==> (flags.range_check0
            || flags.range_check1 || flags.rot)),
        result is Ok && (flags.range_check0 || flags.range_check1 || flags.rot) ==> {
            &&& evals.lookup_sorted[3] is Some
            &&& evals.lookup_sorted[4] is Some
        },
{
    let range_check_lookup = flags.range_check0 || flags.range_check1 || flags.rot;
    let lookups_per_row_4 = flags.xor || range_check_lookup || flags.foreign_field_mul;
    let lookups_per_row_3 = lookups_per_row_4 || flags.lookup;
    let lookups_per_row_2 = lookups_per_row_3;

    let valid = evals.range_check0_selector.is_some() == flags.range_check0
        && evals.range_check1_selector.is_some() == flags.range_check1
        && evals.foreign_field_add_selector.is_some() == flags.foreign_field_add
        && evals.foreign_field_mul_selector.is_some() == flags.foreign_field_mul
        && evals.xor_selector.is_some() == flags.xor
        && evals.rot_selector.is_some() == flags.rot
        && evals.lookup_aggregation.is_some() == lookups_per_row_2
        && evals.lookup_table.is_some() == lookups_per_row_2
        && evals.lookup_sorted[0].is_some() == lookups_per_row_2
        && evals.lookup_sorted[1].is_some() == lookups_per_row_2
        && evals.lookup_sorted[2].is_some() == lookups_per_row_2
        && evals.lookup_sorted[3].is_some() == lookups_per_row_3
        && evals.lookup_sorted[4].is_some() == lookups_per_row_4
        && evals.runtime_lookup_table.is_some() == flags.runtime_tables
        && evals.runtime_lookup_table_selector.is_some() == flags.runtime_tables
        && evals.xor_lookup_selector.is_some() == flags.xor
        && evals.lookup_gate_lookup_selector.is_some() == flags.lookup
        && evals.range_check_lookup_selector.is_some() == range_check_lookup
        && evals.foreign_field_mul_lookup_selector.is_some() == flags.foreign_field_mul;
    if valid {
        Ok(())
    } else {
        Err(ProfileError::FeatureFlags)
    }
}

/// What the flags of an admitted proof demand of its range-check lookup.
/// A range-check gate (either one) or the rotation gate looks values up in
/// the range-check table, so such a proof carries the range-check lookup
/// selector, the aggregation and table evaluations and all five sorted
/// lookup evaluations; no other proof carries that selector. The fifth
/// sorted evaluation comes exactly with a gate that does four lookups per
/// row.
pub proof fn lemma_range_gates_need_range_check_lookup(flags: FeatureFlags, evals: ProofEvaluations)
    requires
        feature_flags_match(flags, evals),
    ensures
        evals.range_check_lookup_selector is Some <==> (flags.range_check0 || flags.range_check1
            || flags.rot),
        flags.range_check0 || flags.range_check1 || flags.rot ==> {
            &&& evals.lookup_aggregation is Some
            &&& evals.lookup_table is Some
            &&& forall|i: int| 0 <= i < 5 ==> (#[trigger] evals.lookup_sorted[i]) is Some
        },
        evals.lookup_sorted[4] is Some <==> (flags.xor || flags.range_check0 || flags.range_check1
            || flags.rot || flags.foreign_field_mul),
{
}

// ---------------------------------------------------------------------------
// Field encodings
// ---------------------------------------------------------------------------

/// Every entry is a canonical Pallas base-field element (the step field).
pub open spec fn all_canonical_pallas(fields: Seq<FieldBytes>) -> bool {
    forall|i: int| 0 <= i < fields.len() ==> #[trigger] is_canonical_pallas_base(fields[i]@)
}

/// Every entry is a canonical Vesta base-field element (the wrap field).
pub open spec fn all_canonical_vesta(fields: Seq<FieldBytes>) -> bool {
    forall|i: int| 0 <= i < fields.len() ==> #[trigger] is_canonical_vesta_base(fields[i]@)
}

/// Both evaluation vectors of `evaluation` are canonical step-field values.
pub open spec fn evaluation_canonical(evaluation: PointEvaluations) -> bool {
    all_canonical_pallas(evaluation.zeta@) && all_canonical_pallas(evaluation.zeta_omega@)
}

/// Every pair entry is a canonical wrap-field value.
pub open spec fn all_pairs_canonical_vesta(pairs: Seq<[FieldBytes; 2]>) -> bool {
    forall|i: int, j: int|
        0 <= i < pairs.len() && 0 <= j < 2 ==> #[trigger] is_canonical_vesta_base(pairs[i][j]@)
}

/// Every scalar of a proof decodes canonically in its field: the step sponge
/// digest and the wrap scalars in the wrap field, the step evaluations and
/// `ft_eval1` in the step field.
pub open spec fn proof_fields_canonical(proof: PicklesProofPayload) -> bool {
    let prev = proof.prev_evals;
    let all = spec_all_evaluations(prev.evals);
    let wrap = proof.wrap_proof;
    let e = wrap.evaluations;
    &&& limbs_value(proof.statement.sponge_digest_before_evaluations@) < vesta_base_modulus()
    &&& evaluation_canonical(prev.public_input)
    &&& forall|i: int| 0 <= i < all.len() ==> #[trigger] evaluation_canonical(all[i])
    &&& is_canonical_pallas_base(prev.ft_eval1@)
    &&& all_pairs_canonical_vesta(e.w@)
    &&& all_pairs_canonical_vesta(e.coefficients@)
    &&& all_pairs_canonical_vesta(seq![e.z])
    &&& all_pairs_canonical_vesta(e.s@)
    &&& all_pairs_canonical_vesta(
        seq![
            e.generic_selector,
            e.poseidon_selector,
            e.complete_add_selector,
            e.mul_selector,
            e.emul_selector,
            e.endomul_scalar_selector,
        ],
    )
    &&& is_canonical_vesta_base(wrap.ft_eval1@)
    &&& is_canonical_vesta_base(wrap.opening.z1@)
    &&& is_canonical_vesta_base(wrap.opening.z2@)
}

/// Decodes every entry as a step-field element.
pub(crate) fn all_decode_pallas(fields: &[FieldBytes]) -> (ok: bool)
    ensures
        ok == all_canonical_pallas(fields@),
{
    let mut i: usize = 0;
    while i < fields.len()
        invariant
            i <= fields@.len(),
            forall|j: int| 0 <= j < i ==> #[trigger] is_canonical_pallas_base(fields@[j]@),
        decreases fields@.len() - i,
    {
        if !decodes_pallas_base(&fields[i]) {
            return false;
        }
        i = i + 1;
    }
    true
}

/// Decodes every entry of every pair as a wrap-field element.
pub(crate) fn all_pairs_decode_vesta(pairs: &[[FieldBytes; 2]]) -> (ok: bool)
    ensures
        ok == all_pairs_canonical_vesta(pairs@),
{
    let mut i: usize = 0;
    while i < pairs.len()
        invariant
            i <= pairs@.len(),
            forall|k: int, j: int|
                0 <= k < i && 0 <= j < 2 ==> #[trigger] is_canonical_vesta_base(pairs@[k][j]@),
        decreases pairs@.len() - i,
    {
        if !decodes_vesta_base(&pairs[i][0]) {
            return false;
        }
        if !decodes_vesta_base(&pairs[i][1]) {
            return false;
        }
        assert forall|k: int, j: int| 0 <= k < i + 1 && 0 <= j < 2 implies #[trigger] is_canonical_vesta_base(
            pairs@[k][j]@,
        ) by {
            if k == i && j == 1 {
                assert(pairs@[k][j] == pairs[i as int][1]);
            } else if k == i {
                assert(pairs@[k][j] == pairs[i as int][0]);
            }
        }
        i = i + 1;
    }
    true
}

/// Checks that every scalar of the proof is canonically encoded in its field.
pub fn validate_proof_fields(proof: &PicklesProofPayload) -> (result: Result<(), ProfileError>)
    ensures
        proof_fields_canonical(*proof) ==> result == Ok::<(), ProfileError>(()),
        !proof_fields_canonical(*proof) ==> result == Err::<(), ProfileError>(
            ProfileError::FieldEncoding,
        ),
{
    if !vesta_base_from_limbs(&proof.statement.sponge_digest_before_evaluations) {
        return Err(ProfileError::FieldEncoding);
    }
    let prev = &proof.prev_evals;
    if !all_decode_pallas(prev.public_input.zeta.as_slice()) || !all_decode_pallas(
        prev.public_input.zeta_omega.as_slice(),
    ) {
        return Err(ProfileError::FieldEncoding);
    }
    let all = all_evaluations(&prev.evals);
    let ghost spec_all = spec_all_evaluations(prev.evals);
    let mut i: usize = 0;
    while i < all.len()
        invariant
            deref_all(all@) == spec_all,
            spec_all == spec_all_evaluations(prev.evals),
            *prev == proof.prev_evals,
            i <= all@.len(),
            forall|j: int| 0 <= j < i ==> #[trigger] evaluation_canonical(spec_all[j]),
        decreases all@.len() - i,
    {
        let evaluation = all[i];
        assert(*evaluation == spec_all[i as int]);
        if !all_decode_pallas(evaluation.zeta.as_slice()) || !all_decode_pallas(
            evaluation.zeta_omega.as_slice(),
        ) {
            assert(!evaluation_canonical(spec_all[i as int]));
            return Err(ProfileError::FieldEncoding);
        }
        i = i + 1;
    }
    if !decodes_pallas_base(&prev.ft_eval1) {
        return Err(ProfileError::FieldEncoding);
    }

    let wrap = &proof.wrap_proof;
    let e = &wrap.evaluations;
    let fixed: [[FieldBytes; 2]; 6] = [
        e.generic_selector,
        e.poseidon_selector,
        e.complete_add_selector,
        e.mul_selector,
        e.emul_selector,
        e.endomul_scalar_selector,
    ];
    let z: [[FieldBytes; 2]; 1] = [e.z];
    assert(z@ =~= seq![e.z]);
    assert(fixed@ =~= seq![
        e.generic_selector,
        e.poseidon_selector,
        e.complete_add_selector,
        e.mul_selector,
        e.emul_selector,
        e.endomul_scalar_selector,
    ]);
    if !all_pairs_decode_vesta(e.w.as_slice()) || !all_pairs_decode_vesta(
        e.coefficients.as_slice(),
    ) || !all_pairs_decode_vesta(z.as_slice()) || !all_pairs_decode_vesta(e.s.as_slice())
        || !all_pairs_decode_vesta(fixed.as_slice()) || !decodes_vesta_base(&wrap.ft_eval1)
        || !decodes_vesta_base(&wrap.opening.z1) || !decodes_vesta_base(&wrap.opening.z2) {
        return Err(ProfileError::FieldEncoding);
    }
    Ok(())
}

// ---------------------------------------------------------------------------
// Point encodings
// ---------------------------------------------------------------------------

/// Every entry encodes a Pallas point.
pub open spec fn all_valid_pallas(points: Seq<PointBytes>) -> bool {
    forall|i: int| 0 <= i < points.len() ==> #[trigger] is_valid_pallas_point(points[i])
}

/// Every commitment of a verification key encodes a Pallas point.
pub open spec fn vk_points_valid(vk: PicklesVkPayload) -> bool {
    let index = vk.wrap_index;
    &&& all_valid_pallas(index.sigma_comm@)
    &&& all_valid_pallas(index.coefficients_comm@)
    &&& all_valid_pallas(
        seq![
            index.generic_comm,
            index.psm_comm,
            index.complete_add_comm,
            index.mul_comm,
            index.emul_comm,
            index.endomul_scalar_comm,
        ],
    )
}

/// Every wrap-proof commitment (and every next-step commitment) encodes a
/// Pallas point, and the next-wrap commitment encodes a Vesta point.
pub open spec fn proof_points_valid(proof: PicklesProofPayload) -> bool {
    let wrap = proof.wrap_proof;
    &&& all_valid_pallas(wrap.commitments.w_comm@)
    &&& is_valid_pallas_point(wrap.commitments.z_comm)
    &&& all_valid_pallas(wrap.commitments.t_comm@)
    &&& forall|i: int, j: int|
        0 <= i < 15 && 0 <= j < 2 ==> #[trigger] is_valid_pallas_point(wrap.opening.lr[i][j])
    &&& is_valid_pallas_point(wrap.opening.delta)
    &&& is_valid_pallas_point(wrap.opening.challenge_polynomial_commitment)
    &&& all_valid_pallas(
        proof.statement.messages_for_next_step_proof.challenge_polynomial_commitments@,
    )
    &&& is_valid_vesta_point(
        proof.statement.messages_for_next_wrap_proof.challenge_polynomial_commitment,
    )
}

/// Checks that every entry encodes a Pallas point.
pub fn validate_pallas_points(points: &[PointBytes]) -> (result: Result<(), ProfileError>)
    ensures
        all_valid_pallas(points@) ==> result == Ok::<(), ProfileError>(()),
        !all_valid_pallas(points@) ==> result == Err::<(), ProfileError>(
            ProfileError::PointEncoding,
        ),
{
    let mut i: usize = 0;
    while i < points.len()
        invariant
            i <= points@.len(),
            forall|j: int| 0 <= j < i ==> #[trigger] is_valid_pallas_point(points@[j]),
        decreases points@.len() - i,
    {
        if !pallas_point_is_valid(&points[i]) {
            return Err(ProfileError::PointEncoding);
        }
        i = i + 1;
    }
    Ok(())
}

/// Checks that every entry encodes a Vesta point.
pub fn validate_vesta_points(points: &[PointBytes]) -> (result: Result<(), ProfileError>)
    ensures
        (forall|i: int| 0 <= i < points@.len() ==> #[trigger] is_valid_vesta_point(points@[i]))
            ==> result == Ok::<(), ProfileError>(()),
        !(forall|i: int| 0 <= i < points@.len() ==> #[trigger] is_valid_vesta_point(points@[i]))
            ==> result == Err::<(), ProfileError>(ProfileError::PointEncoding),
{
    let mut i: usize = 0;
    while i < points.len()
        invariant
            i <= points@.len(),
            forall|j: int| 0 <= j < i ==> #[trigger] is_valid_vesta_point(points@[j]),
        decreases points@.len() - i,
    {
        if !vesta_point_is_valid(&points[i]) {
            return Err(ProfileError::PointEncoding);
        }
        i = i + 1;
    }
    Ok(())
}

/// Checks every point of the wrap proof and of the recursion messages.
pub fn validate_proof_points(proof: &PicklesProofPayload) -> (result: Result<(), ProfileError>)
    ensures
        proof_points_valid(*proof) ==> result == Ok::<(), ProfileError>(()),
        !proof_points_valid(*proof) ==> result == Err::<(), ProfileError>(
            ProfileError::PointEncoding,
        ),
{
    let wrap = &proof.wrap_proof;
    validate_pallas_points(wrap.commitments.w_comm.as_slice())?;
    if !pallas_point_is_valid(&wrap.commitments.z_comm) {
        return Err(ProfileError::PointEncoding);
    }
    validate_pallas_points(wrap.commitments.t_comm.as_slice())?;
    let mut i: usize = 0;
    while i < 15
        invariant
            i <= 15,
            *wrap == proof.wrap_proof,
            forall|k: int, j: int|
                0 <= k < i && 0 <= j < 2 ==> #[trigger] is_valid_pallas_point(
                    wrap.opening.lr[k][j],
                ),
        decreases 15 - i,
    {
        if !pallas_point_is_valid(&wrap.opening.lr[i][0]) || !pallas_point_is_valid(
            &wrap.opening.lr[i][1],
        ) {
            assert(!is_valid_pallas_point(wrap.opening.lr[i as int][0]) || !is_valid_pallas_point(
                wrap.opening.lr[i as int][1],
            ));
            return Err(ProfileError::PointEncoding);
        }
        assert forall|k: int, j: int| 0 <= k < i + 1 && 0 <= j < 2 implies #[trigger] is_valid_pallas_point(
            wrap.opening.lr[k][j],
        ) by {
            if k == i && j == 1 {
            } else if k == i {
            }
        }
        i = i + 1;
    }
    if !pallas_point_is_valid(&wrap.opening.delta) || !pallas_point_is_valid(
        &wrap.opening.challenge_polynomial_commitment,
    ) {
        return Err(ProfileError::PointEncoding);
    }
    validate_pallas_points(
        proof.statement.messages_for_next_step_proof.challenge_polynomial_commitments.as_slice(),
    )?;
    if !vesta_point_is_valid(
        &proof.statement.messages_for_next_wrap_proof.challenge_polynomial_commitment,
    ) {
        return Err(ProfileError::PointEncoding);
    }
    Ok(())
}

// ---------------------------------------------------------------------------
// Verification keys and proofs
// ---------------------------------------------------------------------------

/// The profile's verdict on a verification key.
pub open spec fn spec_validate_vk(vk: PicklesVkPayload) -> Result<(), ProfileError> {
    if vk.public_input_size + vk.public_output_size > MAX_PUBLIC_FIELDS || !vk_points_valid(vk) {
        Err(ProfileError::VerificationKeyConfiguration)
    } else {
        Ok(())
    }
}

/// Checks a verification key against the profile: its declared public
/// input and output arities fit [`MAX_PUBLIC_FIELDS`] together, and every
/// wrap-index commitment is a Pallas point. The recursion width and the wrap
/// domain selector are independent of each other.
pub fn validate_vk(vk: &PicklesVkPayload) -> (result: Result<(), ProfileError>)
    ensures
        result == spec_validate_vk(*vk),
{
    if (vk.public_input_size as u64) + (vk.public_output_size as u64) > MAX_PUBLIC_FIELDS as u64 {
        return Err(ProfileError::VerificationKeyConfiguration);
    }
    let index = &vk.wrap_index;
    let fixed: [PointBytes; 6] = [
        index.generic_comm,
        index.psm_comm,
        index.complete_add_comm,
        index.mul_comm,
        index.emul_comm,
        index.endomul_scalar_comm,
    ];
    assert(fixed@ =~= seq![
        index.generic_comm,
        index.psm_comm,
        index.complete_add_comm,
        index.mul_comm,
        index.emul_comm,
        index.endomul_scalar_comm,
    ]);
    if validate_pallas_points(index.sigma_comm.as_slice()).is_err() || validate_pallas_points(
        index.coefficients_comm.as_slice(),
    ).is_err() || validate_pallas_points(fixed.as_slice()).is_err() {
        return Err(ProfileError::VerificationKeyConfiguration);
    }
    Ok(())
}

/// The recursion shape of the proof matches its branch and the key, and the
/// step domain lies in the profile's range.
pub open spec fn proof_configuration_valid(
    proof: PicklesProofPayload,
    vk: PicklesVkPayload,
) -> bool {
    let branch = proof.statement.deferred_values.branch_data;
    let width = branch.proofs_verified.width();
    let next_step = proof.statement.messages_for_next_step_proof;
    &&& width <= vk.max_proofs_verified.width()
    &&& MIN_STEP_DOMAIN_LOG2 <= branch.domain_log2 <= MAX_STEP_DOMAIN_LOG2
    &&& next_step.challenge_polynomial_commitments@.len() == width
    &&& next_step.old_bulletproof_challenges@.len() == width
}

/// The profile's verdict on a proof, checked in order: recursion shape,
/// feature flags and joint combiner, evaluation chunks, field encodings,
/// point encodings. An accepted proof yields its chunk count.
pub open spec fn spec_validate_proof(proof: PicklesProofPayload, vk: PicklesVkPayload) -> Result<
    nat,
    ProfileError,
> {
    let plonk = proof.statement.deferred_values.plonk;
    if !proof_configuration_valid(proof, vk) {
        Err(ProfileError::ProofConfiguration)
    } else if !feature_flags_match(plonk.feature_flags, proof.prev_evals.evals) {
        Err(ProfileError::FeatureFlags)
    } else if plonk.joint_combiner.is_some() != uses_lookup(plonk.feature_flags) {
        Err(ProfileError::FeatureFlags)
    } else if !chunks_consistent(proof.prev_evals.public_input, proof.prev_evals.evals) {
        Err(ProfileError::EvaluationChunks)
    } else if !proof_fields_canonical(proof) {
        Err(ProfileError::FieldEncoding)
    } else if !proof_points_valid(proof) {
        Err(ProfileError::PointEncoding)
    } else {
        Ok(proof.prev_evals.public_input.zeta@.len())
    }
}

/// Checks a proof against the profile and the key, and returns the number of
/// evaluation chunks it carries.
pub fn validate_proof(proof: &PicklesProofPayload, vk: &PicklesVkPayload) -> (result: Result<
    usize,
    ProfileError,
>)
    ensures
        match spec_validate_proof(*proof, *vk) {
            Ok(chunks) => result == Ok::<usize, ProfileError>(chunks as usize),
            Err(error) => result == Err::<usize, ProfileError>(error),
        },
{
    let branch = proof.statement.deferred_values.branch_data;
    let recursion_width = branch.proofs_verified.as_usize();
    if recursion_width > vk.max_proofs_verified.as_usize() || !(MIN_STEP_DOMAIN_LOG2
        <= branch.domain_log2 && branch.domain_log2 <= MAX_STEP_DOMAIN_LOG2)
        || proof.statement.messages_for_next_step_proof.challenge_polynomial_commitments.len()
        != recursion_width
        || proof.statement.messages_for_next_step_proof.old_bulletproof_challenges.len()
        != recursion_width || proof.wrap_proof.opening.lr.len() != WRAP_SRS_LOG2 as usize {
        return Err(ProfileError::ProofConfiguration);
    }

    validate_feature_flags(
        &proof.statement.deferred_values.plonk.feature_flags,
        &proof.prev_evals.evals,
    )?;
    let flags = proof.statement.deferred_values.plonk.feature_flags;
    let uses_lookup = flags.range_check0 || flags.range_check1 || flags.foreign_field_mul
        || flags.xor || flags.rot || flags.lookup;
    if proof.statement.deferred_values.plonk.joint_combiner.is_some() != uses_lookup {
        return Err(ProfileError::FeatureFlags);
    }
    let chunks = validate_evaluation_chunks(
        &proof.prev_evals.public_input,
        &proof.prev_evals.evals,
    )?;
    validate_proof_fields(proof)?;
    validate_proof_points(proof)?;
    Ok(chunks)
}

// ---------------------------------------------------------------------------
// Properties of the profile
// ---------------------------------------------------------------------------

/// An accepted proof carries between one and [`MAX_CHUNKS`] evaluation
/// chunks, and o1js's chunked step circuit has a zero-knowledge row count
/// for that many chunks.
pub proof fn lemma_accepted_chunks_in_range(proof: PicklesProofPayload, vk: PicklesVkPayload)
    requires
        spec_validate_proof(proof, vk) is Ok,
    ensures
        match spec_validate_proof(proof, vk) {
            Ok(chunks) => 1 <= chunks <= MAX_CHUNKS && spec_step_zk_rows(chunks) is Some,
            Err(_) => false,
        },
{
}

/// The verdict on a key depends neither on its recursion width nor on its
/// wrap-domain selector: o1js lets a program choose its wrap domain
/// independently of how many proofs it verifies.
pub proof fn lemma_vk_verdict_ignores_width_and_domain(
    vk: PicklesVkPayload,
    max_proofs_verified: ProofsVerified,
    actual_wrap_domain_size: ProofsVerified,
)
    ensures
        spec_validate_vk(
            PicklesVkPayload {
                max_proofs_verified,
                actual_wrap_domain_size,
                public_input_size: vk.public_input_size,
                public_output_size: vk.public_output_size,
                wrap_index: vk.wrap_index,
            },
        ) == spec_validate_vk(vk),
{
}

} // verus!
