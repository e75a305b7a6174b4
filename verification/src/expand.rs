//! The reconstruction of the deferred values of a step proof, in the three
//! stages that Mina's Poseidon sponge and Kimchi's expressions cut it into:
//! the challenges and the step domain's checks; then everything computed
//! before the sponge runs, from the domain's generator, Kimchi's shifts and
//! permutation vanishing polynomial, the root of unity `zk_w` and the gates'
//! constant term; then, from the two challenges that the sponge squeezes, the
//! combined inner product and `b`.

use ark_poly::{EvaluationDomain, Radix2EvaluationDomain};
use ark_serialize::CanonicalSerialize;
use vstd::prelude::*;

use crate::challenge::{endo_scalar, scalar_challenge_to_step_field};
use crate::deferred::{
    all_step_fields, append_fields, b_poly_value, challenge_polynomials_at,
    combined_inner_product, deferred_b, fadd, fmul, fsub, horner, inner_product_values, square_n,
    square_power, values_of,
};
use crate::format::{FieldBytes, PicklesProofPayload, PointEvaluations, ScalarChallenge};
use crate::messages::is_step_scalar;
use crate::pasta::{
    decodes_pallas_base, is_canonical_pallas_base, le_value, pallas_base_modulus, pallas_base_mul,
};
use crate::permutation::{
    boundary_denominator, combined_at_zeta, combined_at_zeta_omega,
    combined_permutation_evaluations, chunks_canonical, ft_eval0, ft_eval0_inputs_canonical,
    ft_eval0_value, fpow, perm_value, permutation_alphas, permutation_scalar, val, FtEval0Inputs,
};
use crate::pickles::PreparedError;
use crate::profile::{
    all_decode_pallas, all_evaluations, deref_all, evaluation_canonical, spec_all_evaluations,
    spec_step_zk_rows, step_zk_rows,
};
use crate::transcript::{absorption_sequence, spec_absorption_sequence};
use crate::wrap_input::{
    deferred_canonical, lemma_limbs2_canonical, limbs2_bytes, limbs2_field, limbs4_bytes,
    limbs4_field, ExpandedDeferred,
};

verus! {

/// The two-adicity of the step field: a radix-2 evaluation domain of
/// `2^k` points exists exactly when `k` is at most this.
pub const STEP_FIELD_TWO_ADICITY: u8 = 32;

/// The step domain of `2^domain_log2` points can be built: its size fits a
/// `usize`, and the step field has a radix-2 domain of that size.
pub open spec fn step_domain_exists(domain_log2: u8) -> bool {
    domain_log2 <= STEP_FIELD_TWO_ADICITY && (domain_log2 as u32) < usize::BITS
}

/// The generator of the step field's radix-2 evaluation domain of
/// `2^domain_log2` points.
pub uninterp spec fn step_domain_generator(domain_log2: u8) -> Seq<u8>;

/// Calls `ark_poly::Radix2EvaluationDomain::<ark_pallas::Fq>::new` for
/// `2^domain_log2` points and encodes the domain's `group_gen`. Its source
/// builds a domain for every size whose base-two logarithm is at most the
/// field's two-adicity (32 for this field), and the domain depends on its
/// size alone, so the generator is named; the encoding of a field element is
/// canonical.
#[verifier::external_body]
pub(crate) fn domain_generator(domain_log2: u8) -> (generator: FieldBytes)
    requires
        step_domain_exists(domain_log2),
    ensures
        generator@ == step_domain_generator(domain_log2),
        is_canonical_pallas_base(generator@),
{
    let domain = Radix2EvaluationDomain::<ark_pallas::Fq>::new(1usize << domain_log2).unwrap();
    let mut out = [0u8; 32];
    domain.group_gen.serialize_compressed(&mut out[..]).unwrap();
    out
}

// ---------------------------------------------------------------------------
// The challenges
// ---------------------------------------------------------------------------

/// The challenges of the deferred values as step-field elements, and the
/// zero-knowledge rows of the step circuit.
#[derive(Clone, Copy, Debug, PartialEq, Eq)]
pub struct DeferredChallenges {
    pub zeta: FieldBytes,
    pub alpha: FieldBytes,
    pub beta: FieldBytes,
    pub gamma: FieldBytes,
    pub joint_combiner: Option<FieldBytes>,
    pub zk_rows: u64,
}

/// Every step evaluation that the proof carries holds step-field elements.
pub open spec fn step_evaluations_canonical(proof: PicklesProofPayload) -> bool {
    let all = spec_all_evaluations(proof.prev_evals.evals);
    forall|i: int| 0 <= i < all.len() ==> #[trigger] evaluation_canonical(all[i])
}

/// Why the challenges cannot be taken, checked in order: a step domain with
/// no radix-2 evaluation domain, a step evaluation or a public-input chunk
/// that is not a step-field element, a chunk count with no zero-knowledge
/// row count.
pub open spec fn challenges_error(proof: PicklesProofPayload) -> Option<PreparedError> {
    let public = proof.prev_evals.public_input;
    if !step_domain_exists(proof.statement.deferred_values.branch_data.domain_log2) {
        Some(PreparedError::Field)
    } else if !step_evaluations_canonical(proof) {
        Some(PreparedError::Field)
    } else if !evaluation_canonical(public) {
        Some(PreparedError::Field)
    } else if spec_step_zk_rows(public.zeta@.len()) is None {
        Some(PreparedError::Evaluation)
    } else {
        None
    }
}

/// Every challenge is a step-field element.
pub open spec fn challenges_canonical(c: DeferredChallenges) -> bool {
    &&& is_canonical_pallas_base(c.zeta@)
    &&& is_canonical_pallas_base(c.alpha@)
    &&& is_canonical_pallas_base(c.beta@)
    &&& is_canonical_pallas_base(c.gamma@)
}

/// The challenges of the proof under the step-field endomorphism
/// coefficient `endo`: `zeta`, `alpha` and the joint combiner as scalar
/// challenges, `beta` and `gamma` as the integers of their limbs, and the
/// zero-knowledge rows for the public input's chunk count.
pub open spec fn challenges_of(c: DeferredChallenges, proof: PicklesProofPayload, endo: nat) -> bool {
    let plonk = proof.statement.deferred_values.plonk;
    &&& challenges_canonical(c)
    &&& is_step_scalar(c.zeta, plonk.zeta, endo)
    &&& is_step_scalar(c.alpha, plonk.alpha, endo)
    &&& c.beta@ == limbs2_bytes(plonk.beta)
    &&& c.gamma@ == limbs2_bytes(plonk.gamma)
    &&& match plonk.joint_combiner {
        Some(j) => c.joint_combiner matches Some(f) && is_step_scalar(f, j, endo),
        None => c.joint_combiner is None,
    }
    &&& spec_step_zk_rows(proof.prev_evals.public_input.zeta@.len()) == Some(c.zk_rows as nat)
}

/// Checks that every step evaluation holds step-field elements.
fn step_evaluations_check(proof: &PicklesProofPayload) -> (ok: bool)
    ensures
        ok == step_evaluations_canonical(*proof),
{
    let all = all_evaluations(&proof.prev_evals.evals);
    let ghost spec_all = spec_all_evaluations(proof.prev_evals.evals);
    let mut i: usize = 0;
    while i < all.len()
        invariant
            deref_all(all@) == spec_all,
            spec_all == spec_all_evaluations(proof.prev_evals.evals),
            i <= all@.len(),
            forall|j: int| 0 <= j < i ==> #[trigger] evaluation_canonical(spec_all[j]),
        decreases all@.len() - i,
    {
        let evaluation = all[i];
        assert(*evaluation == spec_all[i as int]);
        if !all_decode_pallas(evaluation.zeta.as_slice()) || !all_decode_pallas(
            evaluation.zeta_omega.as_slice(),
        ) {
            assert(!evaluation_canonical(spec_all[i as int]));
            return false;
        }
        i = i + 1;
    }
    true
}

/// Takes the challenges of the deferred values under the step-field
/// endomorphism coefficient `endo`, after checking that the step domain has
/// a radix-2 evaluation domain, that every step evaluation and public-input
/// chunk is a step-field element, and that the chunk count has a
/// zero-knowledge row count.
pub fn deferred_challenges(proof: &PicklesProofPayload, endo: &FieldBytes) -> (result: Result<
    DeferredChallenges,
    PreparedError,
>)
    requires
        is_canonical_pallas_base(endo@),
    ensures
        match challenges_error(*proof) {
            Some(error) => result == Err::<DeferredChallenges, PreparedError>(error),
            None => result matches Ok(c) && challenges_of(c, *proof, le_value(endo@)),
        },
{
    let plonk = &proof.statement.deferred_values.plonk;
    let zeta = scalar_challenge_to_step_field(plonk.zeta, endo);
    let alpha = scalar_challenge_to_step_field(plonk.alpha, endo);
    let beta = limbs2_field(plonk.beta);
    let gamma = limbs2_field(plonk.gamma);
    proof {
        lemma_limbs2_canonical(plonk.beta);
        lemma_limbs2_canonical(plonk.gamma);
    }
    let joint_combiner = match plonk.joint_combiner {
        Some(j) => Some(scalar_challenge_to_step_field(j, endo)),
        None => None,
    };
    let domain_log2 = proof.statement.deferred_values.branch_data.domain_log2;
    if domain_log2 > STEP_FIELD_TWO_ADICITY || domain_log2 as u32 >= usize::BITS {
        return Err(PreparedError::Field);
    }
    if !step_evaluations_check(proof) {
        return Err(PreparedError::Field);
    }
    let public = &proof.prev_evals.public_input;
    if !all_decode_pallas(public.zeta.as_slice()) || !all_decode_pallas(
        public.zeta_omega.as_slice(),
    ) {
        return Err(PreparedError::Field);
    }
    let zk_rows = match step_zk_rows(public.zeta.len()) {
        Some(rows) => rows,
        None => {
            return Err(PreparedError::Evaluation);
        },
    };
    Ok(DeferredChallenges { zeta, alpha, beta, gamma, joint_combiner, zk_rows })
}

// ---------------------------------------------------------------------------
// Before the sponge
// ---------------------------------------------------------------------------

/// What is computed before the sponge runs: `zeta * omega`, the inputs of
/// `ft_eval0` (the combined permutation evaluations and the powers of
/// `alpha` among them), `zeta` to the domain size, `perm`, `ft_eval0`, the
/// old bulletproof challenges of the message for the next step proof as
/// step-field elements, and the sponge digest and `ft_eval1` that the sponge
/// absorbs first.
#[derive(Clone, Debug, PartialEq, Eq)]
pub struct DeferredBeforeSponge {
    pub zeta_omega: FieldBytes,
    pub ft_inputs: FtEval0Inputs,
    pub zeta_to_domain_size: FieldBytes,
    pub perm: FieldBytes,
    pub ft_eval0: FieldBytes,
    pub old_challenges: Vec<[FieldBytes; 16]>,
    pub sponge_digest: FieldBytes,
    pub ft_eval1: FieldBytes,
}

/// Why the values before the sponge cannot be computed, checked in order:
/// a zero boundary denominator `(zeta - zk_w) * (zeta - 1)`, a sponge digest
/// that is not a step-field element, an `ft_eval1` that is not one.
pub open spec fn before_sponge_error(
    proof: PicklesProofPayload,
    c: DeferredChallenges,
    zk_w: FieldBytes,
) -> Option<PreparedError> {
    if fmul(fsub(val(c.zeta), val(zk_w)), fsub(val(c.zeta), 1)) == 0 {
        Some(PreparedError::Evaluation)
    } else if !is_canonical_pallas_base(
        limbs4_bytes(proof.statement.sponge_digest_before_evaluations),
    ) {
        Some(PreparedError::Field)
    } else if !is_canonical_pallas_base(proof.prev_evals.ft_eval1@) {
        Some(PreparedError::Field)
    } else {
        None
    }
}

/// Every value of `d` is a step-field element.
pub open spec fn before_sponge_canonical(d: DeferredBeforeSponge) -> bool {
    &&& is_canonical_pallas_base(d.zeta_omega@)
    &&& ft_eval0_inputs_canonical(d.ft_inputs)
    &&& is_canonical_pallas_base(d.zeta_to_domain_size@)
    &&& is_canonical_pallas_base(d.perm@)
    &&& is_canonical_pallas_base(d.ft_eval0@)
    &&& forall|i: int| 0 <= i < d.old_challenges@.len() ==> all_step_fields(
        (#[trigger] d.old_challenges@[i])@,
    )
    &&& is_canonical_pallas_base(d.sponge_digest@)
    &&& is_canonical_pallas_base(d.ft_eval1@)
}

/// The inputs of `ft_eval0` as the proof, the challenges and Kimchi's values
/// give them.
#[verifier::opaque]
pub open spec fn ft_inputs_of(
    a: FtEval0Inputs,
    proof: PicklesProofPayload,
    c: DeferredChallenges,
    zeta_omega: FieldBytes,
    shifts: [FieldBytes; 7],
    zkp: FieldBytes,
    zk_w: FieldBytes,
    constant_term: FieldBytes,
) -> bool {
    let evals = proof.prev_evals.evals;
    let zeta = le_value(c.zeta@);
    &&& forall|i: int| 0 <= i < 7 ==> val(#[trigger] a.evals.w[i]) == combined_at_zeta(evals.w[i], zeta)
    &&& forall|i: int| 0 <= i < 6 ==> val(#[trigger] a.evals.s[i]) == combined_at_zeta(evals.s[i], zeta)
    &&& val(a.evals.z) == combined_at_zeta(evals.z, zeta)
    &&& val(a.evals.z_omega) == combined_at_zeta_omega(evals.z, le_value(zeta_omega@))
    &&& a.public_zeta@ == proof.prev_evals.public_input.zeta@
    &&& a.domain_log2 == proof.statement.deferred_values.branch_data.domain_log2
    &&& a.zeta == c.zeta
    &&& val(a.alphas[0]) == fpow(val(c.alpha), 21)
    &&& val(a.alphas[1]) == fpow(val(c.alpha), 22)
    &&& val(a.alphas[2]) == fpow(val(c.alpha), 23)
    &&& a.beta == c.beta
    &&& a.gamma == c.gamma
    &&& val(a.zeta_to_srs_length) == square_power(zeta, 16)
    &&& a.zkp == zkp
    &&& a.shifts == shifts
    &&& a.zk_w == zk_w
    &&& a.constant_term == constant_term
}

/// The values before the sponge: `zeta * omega` with the generator `omega`
/// of the step domain, the inputs of `ft_eval0`, `zeta^n` for the domain's size `n`,
/// `perm`, `ft_eval0` at the inverse of its boundary denominator, the old
/// challenges, the sponge digest's limbs as a step-field element, and
/// `ft_eval1` as the proof carries it.
#[verifier::opaque]
pub open spec fn before_sponge_of(
    d: DeferredBeforeSponge,
    proof: PicklesProofPayload,
    c: DeferredChallenges,
    endo: nat,
    shifts: [FieldBytes; 7],
    zkp: FieldBytes,
    zk_w: FieldBytes,
    constant_term: FieldBytes,
) -> bool {
    let a = d.ft_inputs;
    let old = proof.statement.messages_for_next_step_proof.old_bulletproof_challenges@;
    &&& before_sponge_canonical(d)
    &&& val(d.zeta_omega) == fmul(
        val(c.zeta),
        le_value(step_domain_generator(proof.statement.deferred_values.branch_data.domain_log2))
            as int,
    )
    &&& ft_inputs_of(a, proof, c, d.zeta_omega, shifts, zkp, zk_w, constant_term)
    &&& val(d.zeta_to_domain_size) == square_power(
        le_value(c.zeta@),
        proof.statement.deferred_values.branch_data.domain_log2 as nat,
    )
    &&& val(d.perm) == perm_value(a.evals, val(c.beta), val(c.gamma), val(a.alphas[0]), val(zkp))
    &&& exists|inverse: int|
        #![trigger ft_eval0_value(a, inverse)]
        0 <= inverse && fmul(inverse, boundary_denominator(a)) == 1 && val(d.ft_eval0)
            == ft_eval0_value(a, inverse)
    &&& d.old_challenges@.len() == old.len()
    &&& forall|i: int, j: int|
        0 <= i < old.len() && 0 <= j < 16 ==> #[trigger] is_step_scalar(
            d.old_challenges@[i][j],
            old[i][j],
            endo,
        )
    &&& d.sponge_digest@ == limbs4_bytes(proof.statement.sponge_digest_before_evaluations)
    &&& d.ft_eval1 == proof.prev_evals.ft_eval1
}

/// The old bulletproof challenges of the message for the next step proof as
/// step-field elements.
fn old_challenge_fields(proof: &PicklesProofPayload, endo: &FieldBytes) -> (fields: Vec<
    [FieldBytes; 16],
>)
    requires
        is_canonical_pallas_base(endo@),
    ensures
        ({
            let old = proof.statement.messages_for_next_step_proof.old_bulletproof_challenges@;
            &&& fields@.len() == old.len()
            &&& forall|i: int| 0 <= i < old.len() ==> all_step_fields((#[trigger] fields@[i])@)
            &&& forall|i: int, j: int|
                0 <= i < old.len() && 0 <= j < 16 ==> #[trigger] is_step_scalar(
                    fields@[i][j],
                    old[i][j],
                    le_value(endo@),
                )
        }),
{
    let old = &proof.statement.messages_for_next_step_proof.old_bulletproof_challenges;
    let mut fields: Vec<[FieldBytes; 16]> = Vec::new();
    let mut i: usize = 0;
    while i < old.len()
        invariant
            i <= old@.len(),
            is_canonical_pallas_base(endo@),
            fields@.len() == i,
            forall|t: int| 0 <= t < i ==> all_step_fields((#[trigger] fields@[t])@),
            forall|t: int, j: int|
                0 <= t < i && 0 <= j < 16 ==> #[trigger] is_step_scalar(
                    fields@[t][j],
                    old@[t][j],
                    le_value(endo@),
                ),
        decreases old@.len() - i,
    {
        let set = old[i];
        let mut row: [FieldBytes; 16] = [[0u8; 32]; 16];
        let mut j: usize = 0;
        while j < 16
            invariant
                j <= 16,
                is_canonical_pallas_base(endo@),
                forall|k: int|
                    0 <= k < j ==> #[trigger] is_step_scalar(row[k], set[k], le_value(endo@)),
            decreases 16 - j,
        {
            row.set(j, scalar_challenge_to_step_field(set[j], endo));
            j = j + 1;
        }
        assert(all_step_fields(row@)) by {
            assert forall|k: int| 0 <= k < 16 implies #[trigger] is_canonical_pallas_base(
                row@[k]@,
            ) by {
                assert(is_step_scalar(row[k], set[k], le_value(endo@)));
            }
        }
        fields.push(row);
        i = i + 1;
    }
    fields
}

/// The step evaluations that the permutation reads hold step-field elements.
proof fn lemma_permutation_chunks_canonical(proof: PicklesProofPayload)
    requires
        step_evaluations_canonical(proof),
    ensures
        forall|i: int| 0 <= i < 7 ==> #[trigger] chunks_canonical(proof.prev_evals.evals.w[i]),
        forall|i: int| 0 <= i < 6 ==> #[trigger] chunks_canonical(proof.prev_evals.evals.s[i]),
        chunks_canonical(proof.prev_evals.evals.z),
{
    let evals = proof.prev_evals.evals;
    let all = spec_all_evaluations(evals);
    assert forall|i: int| 0 <= i < 7 implies #[trigger] chunks_canonical(evals.w[i]) by {
        assert(all[i] == evals.w[i]);
        assert(evaluation_canonical(all[i]));
    }
    assert forall|i: int| 0 <= i < 6 implies #[trigger] chunks_canonical(evals.s[i]) by {
        assert(all[31 + i] == evals.s[i]);
        assert(evaluation_canonical(all[31 + i]));
    }
    assert(all[30] == evals.z);
    assert(evaluation_canonical(all[30]));
}

/// Gathers the inputs of `ft_eval0`.
fn prepare_ft_inputs(
    proof: &PicklesProofPayload,
    c: &DeferredChallenges,
    zeta_omega: &FieldBytes,
    shifts: &[FieldBytes; 7],
    zkp: &FieldBytes,
    zk_w: &FieldBytes,
    constant_term: &FieldBytes,
) -> (a: FtEval0Inputs)
    requires
        is_canonical_pallas_base(zeta_omega@),
        all_step_fields(shifts@),
        is_canonical_pallas_base(zkp@),
        is_canonical_pallas_base(zk_w@),
        is_canonical_pallas_base(constant_term@),
        challenges_canonical(*c),
        step_evaluations_canonical(*proof),
        evaluation_canonical(proof.prev_evals.public_input),
    ensures
        ft_eval0_inputs_canonical(a),
        ft_inputs_of(a, *proof, *c, *zeta_omega, *shifts, *zkp, *zk_w, *constant_term),
        a.zeta == c.zeta,
        a.zk_w == *zk_w,
{
    proof {
        lemma_permutation_chunks_canonical(*proof);
        reveal(ft_inputs_of);
    }
    let combined = combined_permutation_evaluations(&proof.prev_evals.evals, &c.zeta, zeta_omega);
    let alphas = permutation_alphas(&c.alpha);
    let zeta_to_srs_length = square_n(&c.zeta, 16);
    let mut public_zeta: Vec<FieldBytes> = Vec::new();
    append_fields(&mut public_zeta, proof.prev_evals.public_input.zeta.as_slice());
    assert(public_zeta@ =~= proof.prev_evals.public_input.zeta@);
    let a = FtEval0Inputs {
        evals: combined,
        public_zeta,
        domain_log2: proof.statement.deferred_values.branch_data.domain_log2,
        zeta: c.zeta,
        alphas,
        beta: c.beta,
        gamma: c.gamma,
        zeta_to_srs_length,
        zkp: *zkp,
        shifts: *shifts,
        zk_w: *zk_w,
        constant_term: *constant_term,
    };
    assert(a.public_zeta@ == proof.prev_evals.public_input.zeta@);
    a
}

/// Computes the values before the sponge from the challenges and from what
/// Kimchi gives for the step domain, whose generator is taken from ark-poly:
/// its seven permutation shifts, the permutation's vanishing polynomial `zkp` at `zeta`, the root
/// of unity `zk_w` that starts the zero-knowledge rows, and the gates'
/// constant term at `zeta`.
#[verifier::rlimit(40)]
#[verifier::spinoff_prover]
pub fn deferred_before_sponge(
    proof: &PicklesProofPayload,
    c: &DeferredChallenges,
    endo: &FieldBytes,
    shifts: &[FieldBytes; 7],
    zkp: &FieldBytes,
    zk_w: &FieldBytes,
    constant_term: &FieldBytes,
) -> (result: Result<DeferredBeforeSponge, PreparedError>)
    requires
        is_canonical_pallas_base(endo@),
        step_domain_exists(proof.statement.deferred_values.branch_data.domain_log2),
        all_step_fields(shifts@),
        is_canonical_pallas_base(zkp@),
        is_canonical_pallas_base(zk_w@),
        is_canonical_pallas_base(constant_term@),
        challenges_canonical(*c),
        step_evaluations_canonical(*proof),
        evaluation_canonical(proof.prev_evals.public_input),
    ensures
        match before_sponge_error(*proof, *c, *zk_w) {
            Some(error) => result == Err::<DeferredBeforeSponge, PreparedError>(error),
            None => result matches Ok(d) && before_sponge_of(
                d,
                *proof,
                *c,
                le_value(endo@),
                *shifts,
                *zkp,
                *zk_w,
                *constant_term,
            ),
        },
{
    let generator = domain_generator(proof.statement.deferred_values.branch_data.domain_log2);
    let zeta_omega = pallas_base_mul(&c.zeta, &generator);
    let ft_inputs = prepare_ft_inputs(proof, c, &zeta_omega, shifts, zkp, zk_w, constant_term);
    let zeta_to_domain_size = square_n(
        &c.zeta,
        proof.statement.deferred_values.branch_data.domain_log2 as u64,
    );
    assert(is_canonical_pallas_base(ft_inputs.alphas@[0]@));
    let perm = permutation_scalar(&ft_inputs.evals, &c.beta, &c.gamma, &ft_inputs.alphas[0], zkp);
    let value = ft_eval0(&ft_inputs)?;
    let old_challenges = old_challenge_fields(proof, endo);
    let sponge_digest = limbs4_field(proof.statement.sponge_digest_before_evaluations);
    if !decodes_pallas_base(&sponge_digest) {
        return Err(PreparedError::Field);
    }
    if !decodes_pallas_base(&proof.prev_evals.ft_eval1) {
        return Err(PreparedError::Field);
    }
    let d = DeferredBeforeSponge {
        zeta_omega,
        ft_inputs,
        zeta_to_domain_size,
        perm,
        ft_eval0: value,
        old_challenges,
        sponge_digest,
        ft_eval1: proof.prev_evals.ft_eval1,
    };
    proof {
        reveal(before_sponge_of);
    }
    Ok(d)
}

// ---------------------------------------------------------------------------
// After the sponge
// ---------------------------------------------------------------------------

/// The challenge polynomial of each set of old challenges at `point`.
pub open spec fn challenge_polys_at(old: Seq<[FieldBytes; 16]>, point: nat) -> Seq<nat> {
    Seq::new(old.len(), |i: int| b_poly_value(values_of(old[i]@), point) as nat)
}

/// The bulletproof challenges of the deferred values as step-field values.
pub open spec fn bulletproof_values(challenges: [ScalarChallenge; 16], endo: nat) -> Seq<nat> {
    Seq::new(
        16,
        |i: int| (endo_scalar(challenges[i], endo as int) % (pallas_base_modulus() as int)) as nat,
    )
}

/// The values of a concatenation concatenate, and a concatenation whose
/// first part holds step-field elements holds them exactly when its second
/// part does.
proof fn lemma_values_append(first: Seq<FieldBytes>, second: Seq<FieldBytes>)
    ensures
        values_of(first + second) == values_of(first) + values_of(second),
        all_step_fields(first) ==> (all_step_fields(first + second) <==> all_step_fields(second)),
{
    assert(values_of(first + second) =~= values_of(first) + values_of(second));
    if all_step_fields(first) {
        if all_step_fields(second) {
            assert forall|i: int| 0 <= i < (first + second).len() implies #[trigger] is_canonical_pallas_base(
                (first + second)[i]@,
            ) by {
                if i >= first.len() {
                    assert((first + second)[i] == second[i - first.len()]);
                }
            }
        }
        if all_step_fields(first + second) {
            assert forall|i: int| 0 <= i < second.len() implies #[trigger] is_canonical_pallas_base(
                second[i]@,
            ) by {
                assert((first + second)[first.len() + i] == second[i]);
            }
        }
    }
}

/// Finishes the deferred values from the two challenges that the sponge
/// squeezes, `xi` and `r`, as scalar challenges under the step-field
/// endomorphism coefficient `endo`: the combined inner product of all
/// evaluations, and `b` from the deferred bulletproof challenges. It fails
/// when an evaluation to be combined is not a step-field element.
pub fn deferred_after_sponge(
    proof: &PicklesProofPayload,
    before: &DeferredBeforeSponge,
    endo: &FieldBytes,
    xi_limbs: ScalarChallenge,
    r_limbs: ScalarChallenge,
) -> (result: Result<ExpandedDeferred, PreparedError>)
    requires
        is_canonical_pallas_base(endo@),
        before_sponge_canonical(*before),
        evaluation_canonical(proof.prev_evals.public_input),
    ensures
        ({
            let evals = proof.prev_evals.evals;
            let public = proof.prev_evals.public_input;
            let at_zeta = inner_product_values(evals, public, Seq::empty(), before.ft_eval0, true);
            let at_zeta_omega = inner_product_values(
                evals,
                public,
                Seq::empty(),
                before.ft_eval1,
                false,
            );
            let m = pallas_base_modulus() as int;
            let e = le_value(endo@);
            let xi = (endo_scalar(xi_limbs, e as int) % m) as nat;
            let r = endo_scalar(r_limbs, e as int) % m;
            let zeta = le_value(before.ft_inputs.zeta@);
            let zeta_omega = le_value(before.zeta_omega@);
            let old = before.old_challenges@;
            let chals = bulletproof_values(proof.statement.deferred_values.bulletproof_challenges, e);
            &&& result is Ok <==> all_step_fields(at_zeta) && all_step_fields(at_zeta_omega)
            &&& result matches Err(error) ==> error == PreparedError::Field
            &&& result matches Ok(d) ==> {
                &&& deferred_canonical(d)
                &&& val(d.combined_inner_product) == (horner(
                    challenge_polys_at(old, zeta) + values_of(at_zeta),
                    xi,
                ) + r * horner(challenge_polys_at(old, zeta_omega) + values_of(at_zeta_omega), xi))
                    % m
                &&& val(d.b) == fadd(b_poly_value(chals, zeta), fmul(r, b_poly_value(chals, zeta_omega)))
                &&& d.zeta_to_srs_length == before.ft_inputs.zeta_to_srs_length
                &&& d.zeta_to_domain_size == before.zeta_to_domain_size
                &&& d.perm == before.perm
                &&& d.xi == xi_limbs
            }
        }),
{
    let evals = &proof.prev_evals.evals;
    let public = &proof.prev_evals.public_input;
    let xi = scalar_challenge_to_step_field(xi_limbs, endo);
    let r = scalar_challenge_to_step_field(r_limbs, endo);
    let zeta = &before.ft_inputs.zeta;
    let polys_at_zeta = challenge_polynomials_at(&before.old_challenges, zeta);
    let polys_at_zeta_omega = challenge_polynomials_at(&before.old_challenges, &before.zeta_omega);
    let ghost rest0 = inner_product_values(*evals, *public, Seq::empty(), before.ft_eval0, true);
    let ghost rest1 = inner_product_values(*evals, *public, Seq::empty(), before.ft_eval1, false);
    let ghost old = before.old_challenges@;
    proof {
        assert(inner_product_values(*evals, *public, polys_at_zeta@, before.ft_eval0, true)
            =~= polys_at_zeta@ + rest0);
        assert(inner_product_values(*evals, *public, polys_at_zeta_omega@, before.ft_eval1, false)
            =~= polys_at_zeta_omega@ + rest1);
        lemma_values_append(polys_at_zeta@, rest0);
        lemma_values_append(polys_at_zeta_omega@, rest1);
        assert(values_of(polys_at_zeta@) =~= challenge_polys_at(old, le_value(zeta@)));
        assert(values_of(polys_at_zeta_omega@) =~= challenge_polys_at(
            old,
            le_value(before.zeta_omega@),
        ));
    }
    let combined = match combined_inner_product(
        evals,
        public,
        &polys_at_zeta,
        &polys_at_zeta_omega,
        &before.ft_eval0,
        &before.ft_eval1,
        &xi,
        &r,
    ) {
        Ok(value) => value,
        Err(_) => {
            return Err(PreparedError::Field);
        },
    };
    let challenges = &proof.statement.deferred_values.bulletproof_challenges;
    let mut effective: [FieldBytes; 16] = [[0u8; 32]; 16];
    let mut j: usize = 0;
    while j < 16
        invariant
            j <= 16,
            is_canonical_pallas_base(endo@),
            forall|k: int|
                0 <= k < j ==> #[trigger] is_step_scalar(effective[k], challenges[k], le_value(endo@)),
        decreases 16 - j,
    {
        effective.set(j, scalar_challenge_to_step_field(challenges[j], endo));
        j = j + 1;
    }
    proof {
        assert forall|k: int| 0 <= k < 16 implies #[trigger] is_canonical_pallas_base(
            effective@[k]@,
        ) by {
            assert(is_step_scalar(effective[k], challenges[k], le_value(endo@)));
        }
        assert forall|k: int| 0 <= k < 16 implies #[trigger] values_of(effective@)[k]
            == bulletproof_values(*challenges, le_value(endo@))[k] by {
            assert(is_step_scalar(effective[k], challenges[k], le_value(endo@)));
        }
        assert(values_of(effective@) =~= bulletproof_values(*challenges, le_value(endo@)));
    }
    let b = deferred_b(&effective, zeta, &before.zeta_omega, &r);
    Ok(ExpandedDeferred {
        combined_inner_product: combined,
        b,
        zeta_to_srs_length: before.ft_inputs.zeta_to_srs_length,
        zeta_to_domain_size: before.zeta_to_domain_size,
        perm: before.perm,
        xi: xi_limbs,
    })
}

// ---------------------------------------------------------------------------
// What the sponge absorbs
// ---------------------------------------------------------------------------

/// Both chunk vectors of each evaluation, at `zeta` then at `zeta * omega`,
/// in order.
pub open spec fn both_points(evaluations: Seq<PointEvaluations>) -> Seq<FieldBytes>
    decreases evaluations.len(),
{
    if evaluations.len() == 0 {
        Seq::empty()
    } else {
        both_points(evaluations.drop_last()) + evaluations.last().zeta@
            + evaluations.last().zeta_omega@
    }
}

/// The evaluations that the sponge absorbs after the sponge digest, the
/// digest of the old challenges and `ft_eval1`: the public input's chunks
/// at both points, then both chunk vectors of each step evaluation in the
/// sponge's order.
pub open spec fn sponge_evaluation_fields(proof: PicklesProofPayload) -> Seq<FieldBytes> {
    let public = proof.prev_evals.public_input;
    public.zeta@ + public.zeta_omega@ + both_points(
        spec_absorption_sequence(proof.prev_evals.evals),
    )
}

/// Lists the evaluations that the sponge absorbs after its first three
/// values.
pub fn sponge_evaluations(proof: &PicklesProofPayload) -> (fields: Vec<FieldBytes>)
    ensures
        fields@ == sponge_evaluation_fields(*proof),
{
    let public = &proof.prev_evals.public_input;
    let mut fields: Vec<FieldBytes> = Vec::new();
    append_fields(&mut fields, public.zeta.as_slice());
    append_fields(&mut fields, public.zeta_omega.as_slice());
    let ghost head = fields@;
    let sequence = absorption_sequence(&proof.prev_evals.evals);
    let ghost spec_sequence = spec_absorption_sequence(proof.prev_evals.evals);
    let mut j: usize = 0;
    while j < sequence.len()
        invariant
            j <= sequence@.len(),
            deref_all(sequence@) == spec_sequence,
            spec_sequence == spec_absorption_sequence(proof.prev_evals.evals),
            fields@ == head + both_points(spec_sequence.take(j as int)),
        decreases sequence@.len() - j,
    {
        let evaluation = sequence[j];
        assert(*evaluation == spec_sequence[j as int]);
        append_fields(&mut fields, evaluation.zeta.as_slice());
        append_fields(&mut fields, evaluation.zeta_omega.as_slice());
        assert(spec_sequence.take(j as int + 1).drop_last() =~= spec_sequence.take(j as int));
        assert(spec_sequence.take(j as int + 1).last() == spec_sequence[j as int]);
        assert(fields@ =~= head + both_points(spec_sequence.take(j as int + 1)));
        j = j + 1;
    }
    assert(spec_sequence.take(sequence@.len() as int) =~= spec_sequence);
    assert(deref_all(sequence@).len() == sequence@.len());
    assert(fields@ =~= sponge_evaluation_fields(*proof));
    fields
}

} // verus!
