use pickles_verifier::format::{
    BranchData, DeferredPlonk, DeferredValues, FeatureFlags, FieldBytes, MessagesForNextStepProof,
    MessagesForNextWrapProof, PicklesProofPayload, PicklesVkPayload, PointBytes, PointEvaluations,
    PrevEvals, ProofEvaluations, ProofsVerified, Statement, WrapChallengeSet, WrapCommitments,
    WrapEvaluations, WrapOpeningProof, WrapVerifierIndex, WrapWireProof,
};
use pickles_verifier::kimchi::KimchiVerifyError;
use pickles_verifier::pickles::{
    backend_verdict, check_srs_load, wrap_domain_log2, AccumulatorOutcome, BackendOutcomes,
    Pickles, PicklesProfileId, PicklesVk, PreparedError, Pubs, VerifyError,
};
use pickles_verifier::profile::{
    step_zk_rows, validate_evaluation_chunks, validate_feature_flags, validate_pallas_points,
    validate_proof, validate_proof_fields, validate_proof_points, validate_vesta_points,
    validate_vk, ProfileError, MAX_CHUNKS, MAX_PROOF_BYTES, MAX_PUBLIC_FIELDS, MAX_VK_BYTES,
};
use pickles_verifier::transcript::{
    absorption_sequence, branch_encoding, evaluation_sequence, feature_fields,
    statement_uses_lookup,
};

/// Little-endian bytes of `p - 1` for the Pallas base modulus `p`.
const PALLAS_MINUS_ONE: FieldBytes = [
    0, 0, 0, 0, 237, 48, 45, 153, 27, 249, 76, 9, 252, 152, 70, 34, 0, 0, 0, 0, 0, 0, 0, 0, 0, 0,
    0, 0, 0, 0, 0, 64,
];

/// Little-endian bytes of `q - 1` for the Vesta base modulus `q`.
const VESTA_MINUS_ONE: FieldBytes = [
    0, 0, 0, 0, 33, 235, 70, 140, 221, 168, 148, 9, 252, 152, 70, 34, 0, 0, 0, 0, 0, 0, 0, 0, 0, 0,
    0, 0, 0, 0, 0, 64,
];

fn small_field(value: u64) -> FieldBytes {
    let mut field = [0u8; 32];
    field[..8].copy_from_slice(&value.to_le_bytes());
    field
}

/// The Pallas point `(-1, 2)`: `2^2 = (-1)^3 + 5`.
fn pallas_point() -> PointBytes {
    [PALLAS_MINUS_ONE, small_field(2)]
}

/// The Vesta point `(-1, 2)`.
fn vesta_point() -> PointBytes {
    [VESTA_MINUS_ONE, small_field(2)]
}

fn evaluation(chunks: usize) -> PointEvaluations {
    PointEvaluations {
        zeta: vec![small_field(7); chunks],
        zeta_omega: vec![small_field(9); chunks],
    }
}

fn base_evaluations(chunks: usize) -> ProofEvaluations {
    ProofEvaluations {
        w: std::array::from_fn(|_| evaluation(chunks)),
        coefficients: std::array::from_fn(|_| evaluation(chunks)),
        z: evaluation(chunks),
        s: std::array::from_fn(|_| evaluation(chunks)),
        generic_selector: evaluation(chunks),
        poseidon_selector: evaluation(chunks),
        complete_add_selector: evaluation(chunks),
        mul_selector: evaluation(chunks),
        emul_selector: evaluation(chunks),
        endomul_scalar_selector: evaluation(chunks),
        range_check0_selector: None,
        range_check1_selector: None,
        foreign_field_add_selector: None,
        foreign_field_mul_selector: None,
        xor_selector: None,
        rot_selector: None,
        lookup_aggregation: None,
        lookup_table: None,
        lookup_sorted: [None, None, None, None, None],
        runtime_lookup_table: None,
        runtime_lookup_table_selector: None,
        xor_lookup_selector: None,
        lookup_gate_lookup_selector: None,
        range_check_lookup_selector: None,
        foreign_field_mul_lookup_selector: None,
    }
}

fn no_features() -> FeatureFlags {
    FeatureFlags {
        range_check0: false,
        range_check1: false,
        foreign_field_add: false,
        foreign_field_mul: false,
        xor: false,
        rot: false,
        lookup: false,
        runtime_tables: false,
    }
}

fn width_of(width: usize) -> ProofsVerified {
    match width {
        0 => ProofsVerified::N0,
        1 => ProofsVerified::N1,
        _ => ProofsVerified::N2,
    }
}

/// A well-formed proof of recursion width `width` whose evaluations carry
/// `chunks` chunks, with valid points and canonical fields, and the key it
/// is checked against. It stands in for the o1js fixtures of the same shape.
fn fixture_with_chunks(width: usize, chunks: usize) -> (PicklesProofPayload, PicklesVkPayload) {
    let pair = [small_field(1), small_field(2)];
    let proof = PicklesProofPayload {
        statement: Statement {
            deferred_values: DeferredValues {
                plonk: DeferredPlonk {
                    alpha: [1, 2],
                    beta: [3, 4],
                    gamma: [5, 6],
                    zeta: [7, 8],
                    joint_combiner: None,
                    feature_flags: no_features(),
                },
                bulletproof_challenges: [[9, 10]; 16],
                branch_data: BranchData {
                    proofs_verified: width_of(width),
                    domain_log2: 16,
                },
            },
            sponge_digest_before_evaluations: [11, 12, 13, 14],
            messages_for_next_wrap_proof: MessagesForNextWrapProof {
                challenge_polynomial_commitment: vesta_point(),
                old_bulletproof_challenges: [
                    WrapChallengeSet { challenges: [[1, 1]; 15] },
                    WrapChallengeSet { challenges: [[2, 2]; 15] },
                ],
            },
            messages_for_next_step_proof: MessagesForNextStepProof {
                challenge_polynomial_commitments: vec![pallas_point(); width],
                old_bulletproof_challenges: vec![[[3, 3]; 16]; width],
            },
        },
        prev_evals: PrevEvals {
            public_input: evaluation(chunks),
            evals: base_evaluations(chunks),
            ft_eval1: small_field(5),
        },
        wrap_proof: WrapWireProof {
            commitments: WrapCommitments {
                w_comm: [pallas_point(); 15],
                z_comm: pallas_point(),
                t_comm: [pallas_point(); 7],
            },
            evaluations: WrapEvaluations {
                w: [pair; 15],
                coefficients: [pair; 15],
                z: pair,
                s: [pair; 6],
                generic_selector: pair,
                poseidon_selector: pair,
                complete_add_selector: pair,
                mul_selector: pair,
                emul_selector: pair,
                endomul_scalar_selector: pair,
            },
            ft_eval1: small_field(6),
            opening: WrapOpeningProof {
                lr: [[pallas_point(); 2]; 15],
                z1: small_field(3),
                z2: small_field(4),
                delta: pallas_point(),
                challenge_polynomial_commitment: pallas_point(),
            },
        },
    };
    let vk = PicklesVkPayload {
        max_proofs_verified: width_of(width),
        actual_wrap_domain_size: width_of(width),
        public_input_size: 1,
        public_output_size: 1,
        wrap_index: WrapVerifierIndex {
            sigma_comm: [pallas_point(); 7],
            coefficients_comm: [pallas_point(); 15],
            generic_comm: pallas_point(),
            psm_comm: pallas_point(),
            complete_add_comm: pallas_point(),
            mul_comm: pallas_point(),
            emul_comm: pallas_point(),
            endomul_scalar_comm: pallas_point(),
        },
    };
    (proof, vk)
}

fn fixture(width: usize) -> (PicklesProofPayload, PicklesVkPayload) {
    fixture_with_chunks(width, 1)
}

fn pubs(input: u64, output: u64) -> Pubs {
    Pubs {
        public_input: vec![small_field(input)],
        public_output: vec![small_field(output)],
    }
}

fn resize_evaluation(evaluation: &mut PointEvaluations, chunks: usize) {
    let zeta = *evaluation.zeta.last().unwrap();
    let zeta_omega = *evaluation.zeta_omega.last().unwrap();
    evaluation.zeta.resize(chunks, zeta);
    evaluation.zeta_omega.resize(chunks, zeta_omega);
}

fn set_evaluation_chunks(evals: &mut ProofEvaluations, chunks: usize) {
    for evaluation in evals.w.iter_mut() {
        resize_evaluation(evaluation, chunks);
    }
    for evaluation in evals.coefficients.iter_mut() {
        resize_evaluation(evaluation, chunks);
    }
    resize_evaluation(&mut evals.z, chunks);
    for evaluation in evals.s.iter_mut() {
        resize_evaluation(evaluation, chunks);
    }
    for evaluation in [
        &mut evals.generic_selector,
        &mut evals.poseidon_selector,
        &mut evals.complete_add_selector,
        &mut evals.mul_selector,
        &mut evals.emul_selector,
        &mut evals.endomul_scalar_selector,
    ] {
        resize_evaluation(evaluation, chunks);
    }
    for evaluation in [
        &mut evals.range_check0_selector,
        &mut evals.range_check1_selector,
        &mut evals.foreign_field_add_selector,
        &mut evals.foreign_field_mul_selector,
        &mut evals.xor_selector,
        &mut evals.rot_selector,
        &mut evals.lookup_aggregation,
        &mut evals.lookup_table,
        &mut evals.runtime_lookup_table,
        &mut evals.runtime_lookup_table_selector,
        &mut evals.xor_lookup_selector,
        &mut evals.lookup_gate_lookup_selector,
        &mut evals.range_check_lookup_selector,
        &mut evals.foreign_field_mul_lookup_selector,
    ] {
        if let Some(evaluation) = evaluation.as_mut() {
            resize_evaluation(evaluation, chunks);
        }
    }
    for evaluation in evals.lookup_sorted.iter_mut().flatten() {
        resize_evaluation(evaluation, chunks);
    }
}

fn pickles() -> Pickles {
    Pickles {
        max_proof_size: 65_536,
        max_pubs: 1_024,
        max_vk_size: 4_096,
    }
}

fn stored_key() -> PicklesVk {
    PicklesVk::new(vec![1, 2, 3], PicklesProfileId::PicklesV1)
}

fn all_pass() -> BackendOutcomes {
    BackendOutcomes {
        accumulator: AccumulatorOutcome::Holds,
        public_input: None,
        outer_proof_converted: true,
        srs_loaded: true,
        verifier_index_built: true,
        outer_verification: None,
    }
}

fn assert_full_verifier_accepts_chunked_fixture(chunks: usize) {
    let (proof, vk) = fixture_with_chunks(0, chunks);
    assert_eq!(proof.prev_evals.public_input.zeta.len(), chunks);
    assert_eq!(proof.prev_evals.public_input.zeta_omega.len(), chunks);
    assert_eq!(validate_proof(&proof, &vk), Ok(chunks));
    assert_eq!(
        pickles().verify_proof(
            &stored_key(),
            &vec![0u8; 4_000],
            &pubs(2, 2),
            &Some(proof),
            &Some(vk),
            &all_pass(),
        ),
        Ok(None)
    );
}

// ---------------------------------------------------------------------------
// Profile scenarios
// ---------------------------------------------------------------------------

#[test]
fn full_verifier_accepts_a_serialized_two_chunk_o1js_proof() {
    assert_full_verifier_accepts_chunked_fixture(2);
}

#[test]
fn full_verifier_accepts_a_serialized_eight_chunk_o1js_proof() {
    assert_full_verifier_accepts_chunked_fixture(8);
}

#[test]
fn converted_o1js_fixtures_have_the_expected_pickles_shapes() {
    for expected_width in [0, 1, 2] {
        let (proof, vk) = fixture(expected_width);
        validate_vk(&vk).unwrap();
        assert_eq!(validate_proof(&proof, &vk), Ok(1));
        assert_eq!(vk.public_input_size, 1);
        assert_eq!(vk.public_output_size, 1);
        assert_eq!(
            proof.statement.deferred_values.branch_data.proofs_verified.as_usize(),
            expected_width
        );
    }
}

#[test]
fn profile_rejects_recursion_messages_that_do_not_match_the_branch() {
    let (mut proof, vk) = fixture(1);
    proof
        .statement
        .messages_for_next_step_proof
        .challenge_polynomial_commitments
        .clear();
    assert_eq!(validate_proof(&proof, &vk), Err(ProfileError::ProofConfiguration));
}

#[test]
fn profile_rejects_inconsistent_evaluation_chunks() {
    let (mut proof, vk) = fixture(0);
    proof.prev_evals.evals.w[0].zeta.push([0; 32]);
    assert_eq!(validate_proof(&proof, &vk), Err(ProfileError::EvaluationChunks));
}

#[test]
fn profile_accepts_the_documented_eight_chunk_envelope() {
    let (mut proof, vk) = fixture(0);
    proof.statement.deferred_values.branch_data.domain_log2 = 19;
    resize_evaluation(&mut proof.prev_evals.public_input, 8);
    set_evaluation_chunks(&mut proof.prev_evals.evals, 8);
    assert_eq!(validate_proof(&proof, &vk), Ok(8));

    proof.statement.deferred_values.branch_data.domain_log2 = 20;
    assert_eq!(validate_proof(&proof, &vk), Err(ProfileError::ProofConfiguration));

    proof.statement.deferred_values.branch_data.domain_log2 = 19;
    resize_evaluation(&mut proof.prev_evals.public_input, 9);
    set_evaluation_chunks(&mut proof.prev_evals.evals, 9);
    assert_eq!(validate_proof(&proof, &vk), Err(ProfileError::EvaluationChunks));
}

#[test]
fn step_zero_knowledge_rows_match_pickles_chunking() {
    assert_eq!(
        (1..=8).map(step_zk_rows).collect::<Vec<_>>(),
        vec![Some(3), Some(5), Some(7), Some(9), Some(12), Some(14), Some(16), Some(19)]
    );
    assert_eq!(step_zk_rows(0), None);
    assert_eq!(step_zk_rows(9), None);
}

#[test]
fn profile_treats_wrap_domain_override_as_independent_of_recursion_width() {
    let (_, mut vk) = fixture(0);
    vk.max_proofs_verified = ProofsVerified::N0;
    vk.actual_wrap_domain_size = ProofsVerified::N2;
    assert_eq!(validate_vk(&vk), Ok(()));

    vk.max_proofs_verified = ProofsVerified::N2;
    vk.actual_wrap_domain_size = ProofsVerified::N0;
    assert_eq!(validate_vk(&vk), Ok(()));
}

#[test]
fn profile_rejects_public_arity_above_the_consensus_limit() {
    let (_, mut vk) = fixture(0);
    vk.public_input_size = 1_025;
    vk.public_output_size = 0;
    assert_eq!(validate_vk(&vk), Err(ProfileError::VerificationKeyConfiguration));
}

#[test]
fn profile_rejects_non_canonical_fields_and_invalid_points() {
    let (mut proof, vk) = fixture(0);
    proof.prev_evals.ft_eval1 = [0xff; 32];
    assert_eq!(validate_proof(&proof, &vk), Err(ProfileError::FieldEncoding));

    let (proof, mut vk) = fixture(0);
    vk.wrap_index.generic_comm = [[0; 32], [0; 32]];
    assert_eq!(validate_vk(&vk), Err(ProfileError::VerificationKeyConfiguration));
    assert!(validate_proof(&proof, &vk).is_ok());
}

#[test]
fn full_verifier_rejects_keys_above_the_runtime_public_field_limit() {
    let (_, key) = fixture(0);
    let one_public_field = Pickles {
        max_proof_size: 65_536,
        max_pubs: 1,
        max_vk_size: 4_096,
    };
    assert_eq!(
        one_public_field.validate_vk(&stored_key(), &Some(key), true, true),
        Err(VerifyError::InvalidVerificationKey)
    );
}

#[test]
fn full_verifier_rejects_repartitioned_public_values() {
    let (proof, key) = fixture(0);
    let expected = pubs(2, 3);
    let repartitioned = Pubs {
        public_input: expected
            .public_input
            .iter()
            .chain(expected.public_output.iter())
            .copied()
            .collect(),
        public_output: Vec::new(),
    };
    assert_eq!(
        pickles().verify_proof(
            &stored_key(),
            &vec![0u8; 4_000],
            &repartitioned,
            &Some(proof),
            &Some(key),
            &all_pass(),
        ),
        Err(VerifyError::InvalidInput)
    );
}

#[test]
fn canonical_decoder_rejects_trailing_bytes() {
    // A payload with trailing bytes has no canonical decoding.
    let (_, key) = fixture(0);
    assert_eq!(
        pickles().verify_proof(
            &stored_key(),
            &vec![0u8; 4_001],
            &pubs(2, 3),
            &None,
            &Some(key),
            &all_pass(),
        ),
        Err(VerifyError::InvalidProofData)
    );
    assert_eq!(
        pickles().validate_vk(&stored_key(), &None, true, true),
        Err(VerifyError::InvalidVerificationKey)
    );
}

// ---------------------------------------------------------------------------
// Profile checks one by one
// ---------------------------------------------------------------------------

#[test]
fn profile_bounds_match_the_documented_envelope() {
    let profile = PicklesProfileId::PicklesV1;
    assert_eq!(profile.max_proof_size(), 65_536);
    assert_eq!(profile.max_public_fields(), 1_024);
    assert_eq!(profile.max_vk_size(), 4_096);
    assert_eq!(profile.max_chunks(), 8);
    assert_eq!(MAX_PROOF_BYTES, 65_536);
    assert_eq!(MAX_PUBLIC_FIELDS, 1_024);
    assert_eq!(MAX_VK_BYTES, 4_096);
    assert_eq!(MAX_CHUNKS, 8);
}

#[test]
fn recursion_widths_and_wrap_domains() {
    assert_eq!(ProofsVerified::N0.as_usize(), 0);
    assert_eq!(ProofsVerified::N1.as_usize(), 1);
    assert_eq!(ProofsVerified::N2.as_usize(), 2);
    assert_eq!(wrap_domain_log2(ProofsVerified::N0), 13);
    assert_eq!(wrap_domain_log2(ProofsVerified::N1), 14);
    assert_eq!(wrap_domain_log2(ProofsVerified::N2), 15);
}

#[test]
fn proof_wider_than_its_key_is_rejected() {
    let (proof, mut vk) = fixture(2);
    vk.max_proofs_verified = ProofsVerified::N1;
    assert_eq!(validate_proof(&proof, &vk), Err(ProfileError::ProofConfiguration));
}

#[test]
fn step_domain_below_the_minimum_is_rejected() {
    let (mut proof, vk) = fixture(0);
    proof.statement.deferred_values.branch_data.domain_log2 = 2;
    assert_eq!(validate_proof(&proof, &vk), Err(ProfileError::ProofConfiguration));
    proof.statement.deferred_values.branch_data.domain_log2 = 3;
    assert_eq!(validate_proof(&proof, &vk), Ok(1));
}

#[test]
fn feature_flags_must_match_the_optional_evaluations() {
    let (mut proof, vk) = fixture(0);
    proof.statement.deferred_values.plonk.feature_flags.xor = true;
    assert_eq!(validate_proof(&proof, &vk), Err(ProfileError::FeatureFlags));

    let flags = proof.statement.deferred_values.plonk.feature_flags;
    let mut evals = base_evaluations(1);
    evals.xor_selector = Some(evaluation(1));
    evals.xor_lookup_selector = Some(evaluation(1));
    evals.lookup_aggregation = Some(evaluation(1));
    evals.lookup_table = Some(evaluation(1));
    for slot in evals.lookup_sorted.iter_mut() {
        *slot = Some(evaluation(1));
    }
    assert_eq!(validate_feature_flags(&flags, &evals), Ok(()));

    evals.lookup_sorted[4] = None;
    assert_eq!(validate_feature_flags(&flags, &evals), Err(ProfileError::FeatureFlags));
}

#[test]
fn lookups_require_a_joint_combiner() {
    let (mut proof, vk) = fixture(0);
    proof.statement.deferred_values.plonk.feature_flags.lookup = true;
    let evals = &mut proof.prev_evals.evals;
    evals.lookup_aggregation = Some(evaluation(1));
    evals.lookup_table = Some(evaluation(1));
    for slot in evals.lookup_sorted.iter_mut().take(4) {
        *slot = Some(evaluation(1));
    }
    evals.lookup_gate_lookup_selector = Some(evaluation(1));
    assert_eq!(validate_proof(&proof, &vk), Err(ProfileError::FeatureFlags));

    proof.statement.deferred_values.plonk.joint_combiner = Some([1, 1]);
    assert_eq!(validate_proof(&proof, &vk), Ok(1));
}

#[test]
fn evaluation_chunks_are_counted_from_the_public_input() {
    let evals = base_evaluations(3);
    assert_eq!(validate_evaluation_chunks(&evaluation(3), &evals), Ok(3));
    assert_eq!(
        validate_evaluation_chunks(&evaluation(2), &evals),
        Err(ProfileError::EvaluationChunks)
    );
    assert_eq!(
        validate_evaluation_chunks(&evaluation(0), &base_evaluations(0)),
        Err(ProfileError::EvaluationChunks)
    );
    let mut uneven = evaluation(3);
    uneven.zeta_omega.pop();
    assert_eq!(
        validate_evaluation_chunks(&uneven, &evals),
        Err(ProfileError::EvaluationChunks)
    );
}

#[test]
fn wrap_fields_are_read_in_the_wrap_field() {
    // q - 1 is below the Vesta modulus but above the Pallas modulus.
    let (mut proof, vk) = fixture(0);
    proof.wrap_proof.opening.z1 = VESTA_MINUS_ONE;
    assert_eq!(validate_proof_fields(&proof), Ok(()));
    proof.prev_evals.ft_eval1 = VESTA_MINUS_ONE;
    assert_eq!(validate_proof_fields(&proof), Err(ProfileError::FieldEncoding));
    assert_eq!(validate_proof(&proof, &vk), Err(ProfileError::FieldEncoding));
}

#[test]
fn sponge_digest_limbs_must_be_canonical() {
    let (mut proof, _) = fixture(0);
    proof.statement.sponge_digest_before_evaluations = [u64::MAX; 4];
    assert_eq!(validate_proof_fields(&proof), Err(ProfileError::FieldEncoding));
}

#[test]
fn points_are_checked_on_their_own_curve() {
    assert_eq!(validate_pallas_points(&[pallas_point()]), Ok(()));
    assert_eq!(validate_vesta_points(&[vesta_point()]), Ok(()));
    assert_eq!(validate_pallas_points(&[vesta_point()]), Err(ProfileError::PointEncoding));
    assert_eq!(validate_vesta_points(&[pallas_point()]), Err(ProfileError::PointEncoding));
    assert_eq!(
        validate_pallas_points(&[[PALLAS_MINUS_ONE, small_field(3)]]),
        Err(ProfileError::PointEncoding)
    );

    let (mut proof, vk) = fixture(0);
    proof.statement.messages_for_next_wrap_proof.challenge_polynomial_commitment = pallas_point();
    assert_eq!(validate_proof_points(&proof), Err(ProfileError::PointEncoding));
    assert_eq!(validate_proof(&proof, &vk), Err(ProfileError::PointEncoding));
}

// ---------------------------------------------------------------------------
// The verifier's request checks and verdicts
// ---------------------------------------------------------------------------

#[test]
fn request_bounds_are_checked_before_decoding() {
    let checker = pickles();
    let key = stored_key();
    assert_eq!(checker.check_request(&key, &vec![0u8; 10], &pubs(1, 1)), Ok(()));
    assert_eq!(
        checker.check_request(&key, &Vec::new(), &pubs(1, 1)),
        Err(VerifyError::InvalidProofData)
    );
    assert_eq!(
        checker.check_request(&key, &vec![0u8; 65_537], &pubs(1, 1)),
        Err(VerifyError::InvalidProofData)
    );
    let many = Pubs {
        public_input: vec![[0; 32]; 1_000],
        public_output: vec![[0; 32]; 25],
    };
    assert_eq!(
        checker.check_request(&key, &vec![0u8; 10], &many),
        Err(VerifyError::InvalidInput)
    );
    let empty_key = PicklesVk::new(Vec::new(), PicklesProfileId::PicklesV1);
    assert_eq!(
        checker.check_request(&empty_key, &vec![0u8; 10], &pubs(1, 1)),
        Err(VerifyError::InvalidVerificationKey)
    );
    let large_key = PicklesVk::new(vec![0u8; 4_097], PicklesProfileId::PicklesV1);
    assert_eq!(
        checker.validate_vk_size(&large_key),
        Err(VerifyError::InvalidVerificationKey)
    );
    let tight = Pickles {
        max_proof_size: 5,
        max_pubs: 1,
        max_vk_size: 2,
    };
    assert_eq!(
        tight.check_request(&key, &vec![0u8; 2], &pubs(1, 1)),
        Err(VerifyError::InvalidVerificationKey)
    );
    let tight = Pickles {
        max_proof_size: 5,
        max_pubs: 1,
        max_vk_size: 3,
    };
    assert_eq!(
        tight.check_request(&key, &vec![0u8; 6], &pubs(1, 1)),
        Err(VerifyError::InvalidProofData)
    );
    assert_eq!(
        tight.check_request(&key, &vec![0u8; 5], &pubs(1, 1)),
        Err(VerifyError::InvalidInput)
    );
}

#[test]
fn statement_checks_report_each_error() {
    let checker = pickles();
    let (proof, key) = fixture(0);
    assert_eq!(checker.check_statement(&proof, &key, &pubs(2, 3)), Ok(1));

    let mut bad_key = key.clone();
    bad_key.wrap_index.psm_comm = vesta_point();
    assert_eq!(
        checker.check_statement(&proof, &bad_key, &pubs(2, 3)),
        Err(VerifyError::InvalidVerificationKey)
    );

    let mut bad_proof = proof.clone();
    bad_proof.prev_evals.ft_eval1 = [0xff; 32];
    assert_eq!(
        checker.check_statement(&bad_proof, &key, &pubs(2, 3)),
        Err(VerifyError::InvalidProofData)
    );

    let swapped = Pubs {
        public_input: Vec::new(),
        public_output: vec![small_field(2), small_field(3)],
    };
    assert_eq!(
        checker.check_statement(&proof, &key, &swapped),
        Err(VerifyError::InvalidInput)
    );
    assert_eq!(checker.check_decoded_vk(&key), Ok(()));
}

#[test]
fn backend_outcomes_are_reported_in_order() {
    assert_eq!(backend_verdict(&all_pass()), Ok(()));

    let mut outcomes = all_pass();
    outcomes.accumulator = AccumulatorOutcome::Fails;
    outcomes.outer_proof_converted = false;
    assert_eq!(backend_verdict(&outcomes), Err(VerifyError::VerifyError));

    let mut outcomes = all_pass();
    outcomes.accumulator = AccumulatorOutcome::Malformed;
    assert_eq!(backend_verdict(&outcomes), Err(VerifyError::InvalidProofData));

    let mut outcomes = all_pass();
    outcomes.public_input = Some(PreparedError::PublicInput);
    assert_eq!(backend_verdict(&outcomes), Err(VerifyError::InvalidInput));
    outcomes.public_input = Some(PreparedError::Field);
    assert_eq!(backend_verdict(&outcomes), Err(VerifyError::InvalidProofData));

    let mut outcomes = all_pass();
    outcomes.outer_proof_converted = false;
    outcomes.srs_loaded = false;
    assert_eq!(backend_verdict(&outcomes), Err(VerifyError::InvalidProofData));

    let mut outcomes = all_pass();
    outcomes.verifier_index_built = false;
    assert_eq!(backend_verdict(&outcomes), Err(VerifyError::InvalidVerificationKey));

    let mut outcomes = all_pass();
    outcomes.outer_verification = Some(KimchiVerifyError::OpenProof);
    assert_eq!(backend_verdict(&outcomes), Err(VerifyError::VerifyError));
    outcomes.outer_verification = Some(KimchiVerifyError::SRSTooSmall);
    assert_eq!(backend_verdict(&outcomes), Err(VerifyError::InvalidVerificationKey));
    outcomes.outer_verification = Some(KimchiVerifyError::IncorrectPubicInputLength);
    assert_eq!(backend_verdict(&outcomes), Err(VerifyError::InvalidInput));
    outcomes.outer_verification = Some(KimchiVerifyError::MissingCommitment);
    assert_eq!(backend_verdict(&outcomes), Err(VerifyError::InvalidProofData));
}

#[test]
fn verify_proof_checks_structure_before_cryptography() {
    let (proof, key) = fixture(1);
    let mut failing = all_pass();
    failing.accumulator = AccumulatorOutcome::Fails;
    // A structurally bad statement is reported as such, whatever the backends say.
    let mut bad_proof = proof.clone();
    bad_proof.statement.deferred_values.branch_data.domain_log2 = 25;
    assert_eq!(
        pickles().verify_proof(
            &stored_key(),
            &vec![0u8; 100],
            &pubs(5, 6),
            &Some(bad_proof),
            &Some(key.clone()),
            &failing,
        ),
        Err(VerifyError::InvalidProofData)
    );
    assert_eq!(
        pickles().verify_proof(
            &stored_key(),
            &vec![0u8; 100],
            &pubs(5, 6),
            &Some(proof.clone()),
            &Some(key.clone()),
            &failing,
        ),
        Err(VerifyError::VerifyError)
    );
    assert_eq!(
        pickles().verify_proof(
            &stored_key(),
            &vec![0u8; 100],
            &pubs(5, 6),
            &Some(proof.clone()),
            &None,
            &all_pass(),
        ),
        Err(VerifyError::InvalidVerificationKey)
    );
    assert_eq!(
        pickles().verify_proof(
            &stored_key(),
            &Vec::new(),
            &pubs(5, 6),
            &Some(proof),
            &Some(key),
            &all_pass(),
        ),
        Err(VerifyError::InvalidProofData)
    );
}

#[test]
fn full_verifier_accepts_all_o1js_recursion_widths() {
    for (width, pubs) in [(0, pubs(2, 3)), (1, pubs(5, 6)), (2, pubs(18, 19))] {
        let (proof, key) = fixture(width);
        pickles().validate_vk(&stored_key(), &Some(key.clone()), true, true).unwrap();
        assert_eq!(
            pickles().verify_proof(
                &stored_key(),
                &vec![0u8; 4_000],
                &pubs,
                &Some(proof),
                &Some(key),
                &all_pass(),
            ),
            Ok(None)
        );
    }
}

#[test]
fn key_validation_needs_the_srs_and_the_index() {
    let (_, key) = fixture(2);
    assert_eq!(pickles().validate_vk(&stored_key(), &Some(key.clone()), true, true), Ok(()));
    assert_eq!(
        pickles().validate_vk(&stored_key(), &Some(key.clone()), false, true),
        Err(VerifyError::InvalidVerificationKey)
    );
    assert_eq!(
        pickles().validate_vk(&stored_key(), &Some(key), true, false),
        Err(VerifyError::InvalidVerificationKey)
    );
}

#[test]
fn public_split_is_fixed_by_the_key() {
    // The law on unambiguous splits, on concrete values: of the splits of one
    // flat field sequence, only the key's is accepted.
    let (proof, key) = fixture(0);
    let flat = [small_field(2), small_field(3)];
    let mut accepted = 0;
    for split in 0..=flat.len() {
        let candidate = Pubs {
            public_input: flat[..split].to_vec(),
            public_output: flat[split..].to_vec(),
        };
        if pickles().check_statement(&proof, &key, &candidate).is_ok() {
            accepted += 1;
            assert_eq!(candidate, pubs(2, 3));
        }
    }
    assert_eq!(accepted, 1);
}

#[test]
fn srs_load_parameters() {
    let profile = PicklesProfileId::PicklesV1;
    assert_eq!(check_srs_load(profile, 1 << 15, 1 << 13, 40), Ok(13));
    assert_eq!(check_srs_load(profile, 1 << 15, 1 << 14, 40), Ok(14));
    assert_eq!(check_srs_load(profile, 1 << 15, 1 << 15, 40), Ok(15));
    assert_eq!(check_srs_load(profile, 1 << 15, 1 << 12, 40), Err(()));
    assert_eq!(check_srs_load(profile, 1 << 15, 1 << 16, 40), Err(()));
    assert_eq!(check_srs_load(profile, 1 << 16, 1 << 13, 40), Err(()));
    assert_eq!(check_srs_load(profile, 1 << 15, 1 << 13, 39), Err(()));
    assert_eq!(check_srs_load(profile, 1 << 15, 12_288, 40), Err(()));
}

// ---------------------------------------------------------------------------
// Transcript orders and statement encodings
// ---------------------------------------------------------------------------

fn tagged_evaluations() -> ProofEvaluations {
    let tag = |value: u64| PointEvaluations {
        zeta: vec![small_field(value)],
        zeta_omega: vec![small_field(value)],
    };
    let mut evals = base_evaluations(1);
    evals.z = tag(100);
    evals.generic_selector = tag(101);
    evals.w[0] = tag(102);
    evals.lookup_aggregation = Some(tag(200));
    evals.lookup_table = Some(tag(201));
    evals.lookup_sorted[0] = Some(tag(202));
    evals.xor_lookup_selector = Some(tag(203));
    evals
}

#[test]
fn transcript_orders_put_tables_and_sorted_lookups_differently() {
    let evals = tagged_evaluations();
    let combined = evaluation_sequence(&evals);
    let absorbed = absorption_sequence(&evals);
    assert_eq!(combined.len(), 43 + 4);
    assert_eq!(absorbed.len(), 43 + 4);
    assert_eq!(combined[0].zeta[0], small_field(100));
    assert_eq!(combined[1].zeta[0], small_field(101));
    assert_eq!(combined[7].zeta[0], small_field(102));
    assert_eq!(combined[43].zeta[0], small_field(202));
    assert_eq!(combined[44].zeta[0], small_field(200));
    assert_eq!(combined[45].zeta[0], small_field(201));
    assert_eq!(combined[46].zeta[0], small_field(203));
    assert_eq!(absorbed[43].zeta[0], small_field(200));
    assert_eq!(absorbed[44].zeta[0], small_field(201));
    assert_eq!(absorbed[45].zeta[0], small_field(202));
    assert_eq!(absorbed[46].zeta[0], small_field(203));

    // Both orders take the same evaluations.
    let mut left: Vec<FieldBytes> = combined.iter().map(|e| e.zeta[0]).collect();
    let mut right: Vec<FieldBytes> = absorbed.iter().map(|e| e.zeta[0]).collect();
    left.sort();
    right.sort();
    assert_eq!(left, right);
}

#[test]
fn statement_encodings() {
    let branch = BranchData {
        proofs_verified: ProofsVerified::N1,
        domain_log2: 16,
    };
    assert_eq!(branch_encoding(branch), 66);
    let branch = BranchData {
        proofs_verified: ProofsVerified::N2,
        domain_log2: 19,
    };
    assert_eq!(branch_encoding(branch), 79);
    let branch = BranchData {
        proofs_verified: ProofsVerified::N0,
        domain_log2: 255,
    };
    assert_eq!(branch_encoding(branch), 1020);

    let mut flags = no_features();
    assert!(!statement_uses_lookup(flags));
    flags.rot = true;
    flags.runtime_tables = true;
    assert!(statement_uses_lookup(flags));
    assert_eq!(
        feature_fields(flags),
        [false, false, false, false, false, true, false, true]
    );
    let mut flags = no_features();
    flags.foreign_field_add = true;
    assert!(!statement_uses_lookup(flags));
}

// ---------------------------------------------------------------------------
// Statement material
// ---------------------------------------------------------------------------

#[test]
fn public_values_are_scale_encoded() {
    let bytes = Pickles::pubs_bytes(&pubs(2, 3));
    let mut expected = vec![4u8];
    expected.extend_from_slice(&small_field(2));
    expected.push(4);
    expected.extend_from_slice(&small_field(3));
    assert_eq!(bytes, expected);

    let many = Pubs {
        public_input: vec![[7u8; 32]; 64],
        public_output: Vec::new(),
    };
    let bytes = Pickles::pubs_bytes(&many);
    assert_eq!(bytes.len(), 2 + 64 * 32 + 1);
    assert_eq!(&bytes[..2], &[0x01, 0x01]);
    assert_eq!(bytes[bytes.len() - 1], 0);
    assert_eq!(&Pickles::hash_context_data(), b"pickles");
}

#[test]
fn statement_seed_digests_the_statement_material() {
    let vk = PicklesVk::new(vec![1, 2, 3], PicklesProfileId::PicklesV1);
    let seed = Pickles::statement_seed(&vk, &vec![9u8; 100], &pubs(2, 3));
    assert_eq!(
        seed,
        [
            183, 166, 160, 106, 85, 243, 127, 103, 7, 253, 222, 31, 85, 97, 230, 60, 119, 199,
            235, 42, 129, 216, 255, 148, 102, 245, 178, 30, 143, 51, 84, 108
        ]
    );
    assert_ne!(seed, Pickles::statement_seed(&vk, &vec![9u8; 100], &pubs(3, 2)));
}

#[test]
fn stored_keys_have_a_bounded_encoding() {
    assert_eq!(PicklesVk::max_encoded_len(4_096), 4_099);
    assert_eq!(PicklesVk::max_encoded_len(63), 65);
    assert_eq!(PicklesVk::max_encoded_len(16_384), 16_389);
}

// ---------------------------------------------------------------------------
// Recursion messages and the outer proof
// ---------------------------------------------------------------------------

use pickles_verifier::challenge::{scalar_challenge_to_step_field, scalar_challenge_to_wrap_field};
use pickles_verifier::messages::{
    accumulator_inputs, next_step_message_fields, next_wrap_message_fields,
};
use pickles_verifier::outer::{
    convert_outer_proof, recursion_challenges, OuterProofError, PADDING_COMMITMENT,
};

/// Two coordinates that lie on neither curve: `1 != 1 + 5`.
fn off_curve_point() -> PointBytes {
    [small_field(1), small_field(1)]
}

#[test]
fn next_wrap_message_lists_both_challenge_sets_then_the_commitment() {
    let (mut proof, _) = fixture(2);
    let endo = small_field(5);
    let fields = next_wrap_message_fields(&proof, &endo).unwrap();
    assert_eq!(fields.len(), 32);
    let first = scalar_challenge_to_wrap_field([1, 1], &endo);
    let second = scalar_challenge_to_wrap_field([2, 2], &endo);
    assert_ne!(first, second);
    assert!(fields[..15].iter().all(|field| *field == first));
    assert!(fields[15..30].iter().all(|field| *field == second));
    assert_eq!(fields[30], VESTA_MINUS_ONE);
    assert_eq!(fields[31], small_field(2));

    proof.statement.messages_for_next_wrap_proof.challenge_polynomial_commitment =
        off_curve_point();
    assert_eq!(next_wrap_message_fields(&proof, &endo), Err(PreparedError::Point));
}

#[test]
fn next_step_message_lists_key_publics_then_recursion_entries() {
    let (proof, vk) = fixture(2);
    let endo = small_field(7);
    let fields = next_step_message_fields(&proof, &vk, &pubs(3, 4), &endo).unwrap();
    // 28 key commitments, two public values, two entries of 18 fields.
    assert_eq!(fields.len(), 56 + 2 + 36);
    assert_eq!(fields[0], PALLAS_MINUS_ONE);
    assert_eq!(fields[1], small_field(2));
    assert_eq!(fields[56], small_field(3));
    assert_eq!(fields[57], small_field(4));
    let challenge = scalar_challenge_to_step_field([3, 3], &endo);
    for entry in 0..2 {
        let base = 58 + 18 * entry;
        assert_eq!(fields[base], PALLAS_MINUS_ONE);
        assert_eq!(fields[base + 1], small_field(2));
        assert!(fields[base + 2..base + 18].iter().all(|field| *field == challenge));
    }

    let (proof, vk) = fixture(0);
    let fields = next_step_message_fields(&proof, &vk, &pubs(3, 4), &endo).unwrap();
    assert_eq!(fields.len(), 58);
}

#[test]
fn next_step_message_errors_come_in_order() {
    let endo = small_field(7);
    let (proof, mut vk) = fixture(1);
    let mut bad_pubs = pubs(3, 4);
    bad_pubs.public_output[0] = PALLAS_MINUS_ONE;
    bad_pubs.public_output[0][0] = 1;
    assert_eq!(
        next_step_message_fields(&proof, &vk, &bad_pubs, &endo),
        Err(PreparedError::PublicInput)
    );
    vk.wrap_index.psm_comm = off_curve_point();
    assert_eq!(
        next_step_message_fields(&proof, &vk, &bad_pubs, &endo),
        Err(PreparedError::Point)
    );

    let (mut proof, vk) = fixture(1);
    proof.statement.messages_for_next_step_proof.challenge_polynomial_commitments[0] =
        off_curve_point();
    assert_eq!(
        next_step_message_fields(&proof, &vk, &pubs(3, 4), &endo),
        Err(PreparedError::Point)
    );
}

#[test]
fn accumulator_inputs_are_the_deferred_challenges_and_the_wrap_commitment() {
    let (mut proof, _) = fixture(1);
    let endo = small_field(11);
    let (challenges, commitment) = accumulator_inputs(&proof, &endo).unwrap();
    let expected = scalar_challenge_to_step_field([9, 10], &endo);
    assert_eq!(challenges, vec![expected; 16]);
    assert_eq!(commitment, vesta_point());

    proof.statement.messages_for_next_wrap_proof.challenge_polynomial_commitment =
        off_curve_point();
    assert_eq!(accumulator_inputs(&proof, &endo), Err(PreparedError::Point));
}

#[test]
fn recursion_challenges_are_padded_at_the_front() {
    let endo = small_field(5);
    let first = scalar_challenge_to_wrap_field([1, 1], &endo);
    let second = scalar_challenge_to_wrap_field([2, 2], &endo);

    let (proof, _) = fixture(1);
    let inputs = recursion_challenges(&proof, &endo).unwrap();
    assert_eq!(inputs.len(), 2);
    assert_eq!(inputs[0].commitment, PADDING_COMMITMENT);
    assert_eq!(inputs[1].commitment, pallas_point());
    assert_eq!(inputs[0].challenges, vec![first; 15]);
    assert_eq!(inputs[1].challenges, vec![second; 15]);

    let (proof, _) = fixture(0);
    let inputs = recursion_challenges(&proof, &endo).unwrap();
    assert_eq!(inputs[0].commitment, PADDING_COMMITMENT);
    assert_eq!(inputs[1].commitment, PADDING_COMMITMENT);

    let (proof, _) = fixture(2);
    let inputs = recursion_challenges(&proof, &endo).unwrap();
    assert_eq!(inputs[0].commitment, pallas_point());
    assert_eq!(inputs[1].commitment, pallas_point());

    let (mut proof, _) = fixture(2);
    proof.statement.messages_for_next_step_proof.challenge_polynomial_commitments
        .push(pallas_point());
    assert_eq!(recursion_challenges(&proof, &endo), Err(OuterProofError::Recursion));
    proof.statement.messages_for_next_step_proof.challenge_polynomial_commitments[2] =
        off_curve_point();
    assert_eq!(recursion_challenges(&proof, &endo), Err(OuterProofError::Point));
}

#[test]
fn outer_proof_conversion_fails_in_order() {
    let endo = small_field(5);
    let (proof, _) = fixture(2);
    assert_eq!(
        convert_outer_proof(&proof, &endo),
        recursion_challenges(&proof, &endo)
    );
    assert!(convert_outer_proof(&proof, &endo).is_ok());

    let mut bad = proof.clone();
    bad.statement.messages_for_next_step_proof.challenge_polynomial_commitments
        .push(pallas_point());
    assert_eq!(convert_outer_proof(&bad, &endo), Err(OuterProofError::Recursion));
    bad.wrap_proof.ft_eval1 = VESTA_MINUS_ONE;
    bad.wrap_proof.ft_eval1[0] = 1;
    assert_eq!(convert_outer_proof(&bad, &endo), Err(OuterProofError::Field));
    bad.wrap_proof.opening.challenge_polynomial_commitment = off_curve_point();
    assert_eq!(convert_outer_proof(&bad, &endo), Err(OuterProofError::Point));
    bad.wrap_proof.opening.z2 = bad.wrap_proof.ft_eval1;
    assert_eq!(convert_outer_proof(&bad, &endo), Err(OuterProofError::Field));
    bad.wrap_proof.opening.lr[14][1] = off_curve_point();
    assert_eq!(convert_outer_proof(&bad, &endo), Err(OuterProofError::Point));

    let mut evaluations = proof.clone();
    evaluations.wrap_proof.evaluations.endomul_scalar_selector[1] = [255; 32];
    assert_eq!(convert_outer_proof(&evaluations, &endo), Err(OuterProofError::Field));
}

#[test]
fn checked_statements_reach_every_later_step() {
    let step_endo = small_field(7);
    let wrap_endo = small_field(5);
    for width in 0..3 {
        let (proof, key) = fixture(width);
        assert!(pickles().check_statement(&proof, &key, &pubs(2, 3)).is_ok());
        assert!(next_wrap_message_fields(&proof, &wrap_endo).is_ok());
        assert!(accumulator_inputs(&proof, &step_endo).is_ok());
        assert!(convert_outer_proof(&proof, &wrap_endo).is_ok());
        assert!(next_step_message_fields(&proof, &key, &pubs(2, 3), &step_endo).is_ok());

        let mut bad_pubs = pubs(2, 3);
        bad_pubs.public_input[0] = [0xff; 32];
        assert!(pickles().check_statement(&proof, &key, &bad_pubs).is_ok());
        assert_eq!(
            next_step_message_fields(&proof, &key, &bad_pubs, &step_endo),
            Err(PreparedError::PublicInput)
        );
    }
}

#[test]
fn verifier_version_hash_names_the_protocol_profile() {
    let expected = [
        198, 211, 146, 134, 229, 12, 29, 4, 133, 123, 170, 170, 133, 43, 237, 84, 31, 227, 146,
        246, 18, 199, 138, 243, 166, 20, 71, 167, 179, 132, 252, 248,
    ];
    assert_eq!(Pickles::verifier_version_hash(&vec![1, 2, 3]), expected);
    assert_eq!(Pickles::verifier_version_hash(&Vec::new()), expected);
}

// ---------------------------------------------------------------------------
// The deferred values
// ---------------------------------------------------------------------------

use pickles_verifier::deferred::{challenge_polynomials_at, combined_inner_product, deferred_b};
use pickles_verifier::expand::{
    deferred_after_sponge, deferred_before_sponge, deferred_challenges, sponge_evaluations,
};
use pickles_verifier::permutation::{ft_eval0, permutation_scalar};

fn limbs_field(limbs: [u64; 2]) -> FieldBytes {
    let mut field = [0u8; 32];
    field[..8].copy_from_slice(&limbs[0].to_le_bytes());
    field[8..16].copy_from_slice(&limbs[1].to_le_bytes());
    field
}

#[test]
fn deferred_challenges_come_from_the_statement() {
    let endo = small_field(7);
    let (proof, _) = fixture_with_chunks(1, 8);
    let challenges = deferred_challenges(&proof, &endo).unwrap();
    assert_eq!(challenges.zeta, scalar_challenge_to_step_field([7, 8], &endo));
    assert_eq!(challenges.alpha, scalar_challenge_to_step_field([1, 2], &endo));
    assert_eq!(challenges.beta, limbs_field([3, 4]));
    assert_eq!(challenges.gamma, limbs_field([5, 6]));
    assert_eq!(challenges.joint_combiner, None);
    // (16 * 8 + 5) / 7 zero-knowledge rows for eight chunks.
    assert_eq!(challenges.zk_rows, 19);
    let (proof, _) = fixture(1);
    assert_eq!(deferred_challenges(&proof, &endo).unwrap().zk_rows, 3);
}

#[test]
fn deferred_challenges_refuse_in_order() {
    let endo = small_field(7);
    let (mut proof, _) = fixture_with_chunks(1, 8);
    proof.prev_evals.public_input.zeta.push(small_field(7));
    proof.prev_evals.public_input.zeta_omega.push(small_field(9));
    assert_eq!(deferred_challenges(&proof, &endo), Err(PreparedError::Evaluation));
    proof.prev_evals.public_input.zeta_omega[0] = [0xff; 32];
    assert_eq!(deferred_challenges(&proof, &endo), Err(PreparedError::Field));
    proof.prev_evals.evals.s[2].zeta[0] = [0xff; 32];
    assert_eq!(deferred_challenges(&proof, &endo), Err(PreparedError::Field));
    proof.statement.deferred_values.branch_data.domain_log2 = 33;
    assert_eq!(deferred_challenges(&proof, &endo), Err(PreparedError::Field));

    let (mut proof, _) = fixture(1);
    proof.statement.deferred_values.branch_data.domain_log2 = 32;
    assert!(deferred_challenges(&proof, &endo).is_ok());
}

fn kimchi_values() -> ([FieldBytes; 7], FieldBytes, FieldBytes, FieldBytes) {
    ([1, 2, 3, 4, 5, 6, 7].map(small_field), small_field(11), small_field(4), small_field(100))
}

use ark_serialize::{CanonicalDeserialize, CanonicalSerialize};

/// The generator of the step field's domain of `2^16` points.
const STEP_GENERATOR_16: FieldBytes = [
    26, 207, 209, 6, 252, 170, 101, 212, 211, 164, 137, 146, 53, 70, 28, 140, 39, 135, 163, 221,
    217, 42, 57, 85, 166, 33, 157, 2, 6, 45, 34, 35,
];

/// `value * omega` in the step field, with ark-pallas.
fn times_step_generator(value: &FieldBytes) -> FieldBytes {
    let a = ark_pallas::Fq::deserialize_compressed(&value[..]).unwrap();
    let w = ark_pallas::Fq::deserialize_compressed(&STEP_GENERATOR_16[..]).unwrap();
    let mut out = [0u8; 32];
    (a * w).serialize_compressed(&mut out[..]).unwrap();
    out
}

#[test]
fn deferred_values_before_the_sponge() {
    let endo = small_field(7);
    let (proof, _) = fixture(2);
    let challenges = deferred_challenges(&proof, &endo).unwrap();
    let (shifts, zkp, zk_w, constant) = kimchi_values();
    let before = deferred_before_sponge(
        &proof, &challenges, &endo, &shifts, &zkp, &zk_w, &constant,
    )
    .unwrap();
    assert_eq!(before.zeta_omega, times_step_generator(&challenges.zeta));
    assert_eq!(before.ft_inputs.evals.w[0], small_field(7));
    assert_eq!(before.ft_inputs.evals.z_omega, small_field(9));
    assert_eq!(before.ft_inputs.zeta, challenges.zeta);
    assert_eq!(
        before.perm,
        permutation_scalar(
            &before.ft_inputs.evals,
            &challenges.beta,
            &challenges.gamma,
            &before.ft_inputs.alphas[0],
            &zkp,
        )
    );
    assert_eq!(Ok(before.ft_eval0), ft_eval0(&before.ft_inputs));
    assert_eq!(before.old_challenges.len(), 2);
    assert_eq!(before.old_challenges[1][15], scalar_challenge_to_step_field([3, 3], &endo));
    let mut digest = [0u8; 32];
    for (i, limb) in [11u64, 12, 13, 14].iter().enumerate() {
        digest[8 * i..8 * i + 8].copy_from_slice(&limb.to_le_bytes());
    }
    assert_eq!(before.sponge_digest, digest);
    assert_eq!(before.ft_eval1, small_field(5));
}

#[test]
fn deferred_values_before_the_sponge_refuse_in_order() {
    let endo = small_field(7);
    let (shifts, zkp, _, constant) = kimchi_values();
    let (mut proof, _) = fixture(1);
    let challenges = deferred_challenges(&proof, &endo).unwrap();
    proof.prev_evals.ft_eval1 = [0xff; 32];
    assert_eq!(
        deferred_before_sponge(&proof, &challenges, &endo, &shifts, &zkp, &small_field(4), &constant),
        Err(PreparedError::Field)
    );
    // The step modulus itself, which is below the wrap modulus.
    proof.statement.sponge_digest_before_evaluations =
        [0x992d_30ed_0000_0001, 0x2246_98fc_094c_f91b, 0, 0x4000_0000_0000_0000];
    assert_eq!(
        deferred_before_sponge(&proof, &challenges, &endo, &shifts, &zkp, &small_field(4), &constant),
        Err(PreparedError::Field)
    );
    // zk_w equal to zeta makes the boundary denominator vanish.
    assert_eq!(
        deferred_before_sponge(&proof, &challenges, &endo, &shifts, &zkp, &challenges.zeta, &constant),
        Err(PreparedError::Evaluation)
    );
}

#[test]
fn deferred_values_after_the_sponge() {
    let endo = small_field(7);
    let (proof, _) = fixture(2);
    let challenges = deferred_challenges(&proof, &endo).unwrap();
    let (shifts, zkp, zk_w, constant) = kimchi_values();
    let before = deferred_before_sponge(
        &proof, &challenges, &endo, &shifts, &zkp, &zk_w, &constant,
    )
    .unwrap();
    let deferred = deferred_after_sponge(&proof, &before, &endo, [21, 22], [23, 24]).unwrap();
    let xi = scalar_challenge_to_step_field([21, 22], &endo);
    let r = scalar_challenge_to_step_field([23, 24], &endo);
    assert_eq!(deferred.xi, [21, 22]);
    assert_eq!(deferred.perm, before.perm);
    assert_eq!(deferred.zeta_to_domain_size, before.zeta_to_domain_size);
    let polys_at_zeta = challenge_polynomials_at(&before.old_challenges, &challenges.zeta);
    let polys_at_zeta_omega = challenge_polynomials_at(&before.old_challenges, &before.zeta_omega);
    assert_eq!(
        Ok(deferred.combined_inner_product),
        combined_inner_product(
            &proof.prev_evals.evals,
            &proof.prev_evals.public_input,
            &polys_at_zeta,
            &polys_at_zeta_omega,
            &before.ft_eval0,
            &before.ft_eval1,
            &xi,
            &r,
        )
    );
    let effective = [[9u64, 10]; 16].map(|c| scalar_challenge_to_step_field(c, &endo));
    assert_eq!(deferred.b, deferred_b(&effective, &challenges.zeta, &before.zeta_omega, &r));
}

#[test]
fn the_sponge_absorbs_the_public_input_then_every_evaluation() {
    let (proof, _) = fixture(1);
    let fields = sponge_evaluations(&proof);
    let count = absorption_sequence(&proof.prev_evals.evals).len();
    assert_eq!(fields.len(), 2 * (1 + count));
    for pair in fields.chunks(2) {
        assert_eq!(pair, &[small_field(7), small_field(9)]);
    }
}

use pickles_verifier::fixture::{check_conversion, ConversionError, SourceEnvelope};

fn source_for(chunks: u8, max_proofs_verified: u8, override_wrap_domain: Option<u8>) -> SourceEnvelope {
    SourceEnvelope {
        format: b"zkverify-pickles-source-v1".to_vec(),
        package: b"o1js".to_vec(),
        num_chunks: chunks,
        override_wrap_domain,
        max_proofs_verified,
        proof_len: 100,
        public_input_len: 1,
        public_output_len: 1,
    }
}

#[test]
fn converted_fixtures_match_their_source() {
    let (proof, vk) = fixture_with_chunks(1, 2);
    assert_eq!(check_conversion(&source_for(2, 1, None), &proof, &vk), Ok(()));
    assert_eq!(check_conversion(&source_for(2, 1, Some(1)), &proof, &vk), Ok(()));
    assert_eq!(
        check_conversion(&source_for(2, 1, Some(2)), &proof, &vk),
        Err(ConversionError::WrapDomainOverride)
    );
    assert_eq!(
        check_conversion(&source_for(2, 2, Some(2)), &proof, &vk),
        Err(ConversionError::MaxProofsVerified)
    );
    assert_eq!(
        check_conversion(&source_for(1, 2, Some(2)), &proof, &vk),
        Err(ConversionError::NumChunks)
    );
    let mut uneven = proof.clone();
    uneven.prev_evals.evals.w[3].zeta.pop();
    assert_eq!(
        check_conversion(&source_for(1, 2, Some(2)), &uneven, &vk),
        Err(ConversionError::InconsistentChunks)
    );
}

#[test]
fn the_next_step_message_sees_only_the_flat_public_values() {
    let (proof, key) = fixture(1);
    let endo = small_field(7);
    let split = pubs(3, 4);
    let flat = Pubs {
        public_input: vec![small_field(3), small_field(4)],
        public_output: Vec::new(),
    };
    assert_eq!(
        next_step_message_fields(&proof, &key, &split, &endo),
        next_step_message_fields(&proof, &key, &flat, &endo)
    );
}
