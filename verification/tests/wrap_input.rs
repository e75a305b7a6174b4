use pickles_verifier::format::{
    BranchData, DeferredPlonk, DeferredValues, FeatureFlags, FieldBytes, MessagesForNextStepProof,
    MessagesForNextWrapProof, PicklesProofPayload, PicklesVkPayload, PointEvaluations, PrevEvals,
    ProofEvaluations, ProofsVerified, Statement, WrapChallengeSet, WrapCommitments,
    WrapEvaluations, WrapOpeningProof, WrapVerifierIndex, WrapWireProof,
};
use pickles_verifier::pasta::{is_step_field, is_wrap_field};
use pickles_verifier::pickles::{PreparedError, Pubs};
use pickles_verifier::wrap_input::{shift, wrap_public_input, ExpandedDeferred};

fn small_field(value: u64) -> FieldBytes {
    let mut field = [0u8; 32];
    field[..8].copy_from_slice(&value.to_le_bytes());
    field
}

fn limbs_field(limbs: [u64; 2]) -> FieldBytes {
    let mut field = [0u8; 32];
    field[..8].copy_from_slice(&limbs[0].to_le_bytes());
    field[8..16].copy_from_slice(&limbs[1].to_le_bytes());
    field
}

/// Little-endian bytes of `p - 1` for the Pallas base modulus `p`.
const PALLAS_MINUS_ONE: FieldBytes = [
    0, 0, 0, 0, 237, 48, 45, 153, 27, 249, 76, 9, 252, 152, 70, 34, 0, 0, 0, 0, 0, 0, 0, 0, 0, 0,
    0, 0, 0, 0, 0, 64,
];

#[test]
fn shift_subtracts_the_offset_and_halves() {
    // shift(v) = (v - (2^255 + 1)) / 2 in the Pallas base field.
    assert_eq!(
        shift(&small_field(0)),
        [
            1, 0, 0, 128, 99, 201, 195, 101, 169, 117, 243, 13, 122, 229, 105, 51, 0, 0, 0, 0, 0,
            0, 0, 0, 0, 0, 0, 0, 0, 0, 0, 32
        ]
    );
    assert_eq!(
        shift(&small_field(5)),
        [
            3, 0, 0, 0, 237, 48, 45, 153, 27, 249, 76, 9, 252, 152, 70, 34, 0, 0, 0, 0, 0, 0, 0,
            0, 0, 0, 0, 0, 0, 0, 0, 0
        ]
    );
    // 2^255 + 3, reduced modulo the Pallas base modulus.
    let offset_plus_three: FieldBytes = [
        2, 0, 0, 0, 19, 207, 210, 102, 228, 6, 179, 246, 3, 103, 185, 221, 255, 255, 255, 255,
        255, 255, 255, 255, 255, 255, 255, 255, 255, 255, 255, 63,
    ];
    assert_eq!(shift(&offset_plus_three), small_field(1));
    assert_eq!(
        shift(&PALLAS_MINUS_ONE),
        [
            0, 0, 0, 0, 237, 48, 45, 153, 27, 249, 76, 9, 252, 152, 70, 34, 0, 0, 0, 0, 0, 0, 0,
            0, 0, 0, 0, 0, 0, 0, 0, 0
        ]
    );
}

#[test]
fn field_membership() {
    assert!(is_step_field(&PALLAS_MINUS_ONE));
    assert!(is_wrap_field(&PALLAS_MINUS_ONE));
    assert!(!is_step_field(&[0xff; 32]));
    assert!(!is_wrap_field(&[0xff; 32]));
}

fn evaluation() -> PointEvaluations {
    PointEvaluations {
        zeta: vec![small_field(7)],
        zeta_omega: vec![small_field(9)],
    }
}

fn evaluations() -> ProofEvaluations {
    ProofEvaluations {
        w: std::array::from_fn(|_| evaluation()),
        coefficients: std::array::from_fn(|_| evaluation()),
        z: evaluation(),
        s: std::array::from_fn(|_| evaluation()),
        generic_selector: evaluation(),
        poseidon_selector: evaluation(),
        complete_add_selector: evaluation(),
        mul_selector: evaluation(),
        emul_selector: evaluation(),
        endomul_scalar_selector: evaluation(),
        range_check0_selector: None,
        range_check1_selector: None,
        foreign_field_add_selector: None,
        foreign_field_mul_selector: None,
        xor_selector: None,
        rot_selector: None,
        lookup_aggregation: None,
        lookup_table: None,
        lookup_sorted: [None, None, None, None, None],
        runtime_lookup_table: None,
        runtime_lookup_table_selector: None,
        xor_lookup_selector: None,
        lookup_gate_lookup_selector: None,
        range_check_lookup_selector: None,
        foreign_field_mul_lookup_selector: None,
    }
}

fn sample_proof(flags: FeatureFlags, joint_combiner: Option<[u64; 2]>) -> PicklesProofPayload {
    let point = [small_field(0), small_field(0)];
    let pair = [small_field(0), small_field(0)];
    PicklesProofPayload {
        statement: Statement {
            deferred_values: DeferredValues {
                plonk: DeferredPlonk {
                    alpha: [11, 12],
                    beta: [13, 14],
                    gamma: [15, 16],
                    zeta: [17, 18],
                    joint_combiner,
                    feature_flags: flags,
                },
                bulletproof_challenges: std::array::from_fn(|i| [i as u64, 100 + i as u64]),
                branch_data: BranchData {
                    proofs_verified: ProofsVerified::N1,
                    domain_log2: 16,
                },
            },
            sponge_digest_before_evaluations: [1, 2, 3, 4],
            messages_for_next_wrap_proof: MessagesForNextWrapProof {
                challenge_polynomial_commitment: point,
                old_bulletproof_challenges: [
                    WrapChallengeSet { challenges: [[0, 0]; 15] },
                    WrapChallengeSet { challenges: [[0, 0]; 15] },
                ],
            },
            messages_for_next_step_proof: MessagesForNextStepProof {
                challenge_polynomial_commitments: vec![point],
                old_bulletproof_challenges: vec![[[0, 0]; 16]],
            },
        },
        prev_evals: PrevEvals {
            public_input: evaluation(),
            evals: evaluations(),
            ft_eval1: small_field(0),
        },
        wrap_proof: WrapWireProof {
            commitments: WrapCommitments {
                w_comm: [point; 15],
                z_comm: point,
                t_comm: [point; 7],
            },
            evaluations: WrapEvaluations {
                w: [pair; 15],
                coefficients: [pair; 15],
                z: pair,
                s: [pair; 6],
                generic_selector: pair,
                poseidon_selector: pair,
                complete_add_selector: pair,
                mul_selector: pair,
                emul_selector: pair,
                endomul_scalar_selector: pair,
            },
            ft_eval1: small_field(0),
            opening: WrapOpeningProof {
                lr: [[point; 2]; 15],
                z1: small_field(0),
                z2: small_field(0),
                delta: point,
                challenge_polynomial_commitment: point,
            },
        },
    }
}

fn key() -> PicklesVkPayload {
    let point = [small_field(0), small_field(0)];
    PicklesVkPayload {
        max_proofs_verified: ProofsVerified::N1,
        actual_wrap_domain_size: ProofsVerified::N1,
        public_input_size: 1,
        public_output_size: 1,
        wrap_index: WrapVerifierIndex {
            sigma_comm: [point; 7],
            coefficients_comm: [point; 15],
            generic_comm: point,
            psm_comm: point,
            complete_add_comm: point,
            mul_comm: point,
            emul_comm: point,
            endomul_scalar_comm: point,
        },
    }
}

fn pubs() -> Pubs {
    Pubs {
        public_input: vec![small_field(2)],
        public_output: vec![small_field(3)],
    }
}

fn deferred() -> ExpandedDeferred {
    ExpandedDeferred {
        combined_inner_product: small_field(5),
        b: small_field(0),
        zeta_to_srs_length: PALLAS_MINUS_ONE,
        zeta_to_domain_size: small_field(5),
        perm: small_field(0),
        xi: [21, 22],
    }
}

fn no_flags() -> FeatureFlags {
    FeatureFlags {
        range_check0: false,
        range_check1: false,
        foreign_field_add: false,
        foreign_field_mul: false,
        xor: false,
        rot: false,
        lookup: false,
        runtime_tables: false,
    }
}

#[test]
fn wrap_public_input_has_the_documented_layout() {
    let wrap_digest = small_field(77);
    let step_digest = small_field(88);
    let fields = wrap_public_input(
        &sample_proof(no_flags(), None),
        &key(),
        &pubs(),
        &deferred(),
        &wrap_digest,
        &step_digest,
    )
    .unwrap();
    assert_eq!(fields.len(), 40);
    assert_eq!(fields[0], shift(&small_field(5)));
    assert_eq!(fields[1], shift(&small_field(0)));
    assert_eq!(fields[2], shift(&PALLAS_MINUS_ONE));
    assert_eq!(fields[3], fields[0]);
    assert_eq!(fields[4], fields[1]);
    assert_eq!(fields[5], limbs_field([13, 14]));
    assert_eq!(fields[6], limbs_field([15, 16]));
    assert_eq!(fields[7], limbs_field([11, 12]));
    assert_eq!(fields[8], limbs_field([17, 18]));
    assert_eq!(fields[9], limbs_field([21, 22]));
    let mut sponge = [0u8; 32];
    for (i, limb) in [1u64, 2, 3, 4].iter().enumerate() {
        sponge[8 * i..8 * i + 8].copy_from_slice(&limb.to_le_bytes());
    }
    assert_eq!(fields[10], sponge);
    assert_eq!(fields[11], wrap_digest);
    assert_eq!(fields[12], step_digest);
    for i in 0..16 {
        assert_eq!(fields[13 + i], limbs_field([i as u64, 100 + i as u64]));
    }
    // Branch: domain 16, one proof verified: 16 * 4 + 2.
    assert_eq!(fields[29], small_field(66));
    for i in 30..40 {
        assert_eq!(fields[i], small_field(0));
    }
}

#[test]
fn wrap_public_input_records_lookups_and_their_combiner() {
    let mut flags = no_flags();
    flags.xor = true;
    flags.runtime_tables = true;
    let fields = wrap_public_input(
        &sample_proof(flags, Some([5, 6])),
        &key(),
        &pubs(),
        &deferred(),
        &small_field(1),
        &small_field(2),
    )
    .unwrap();
    assert_eq!(fields[34], small_field(1));
    assert_eq!(fields[37], small_field(1));
    assert_eq!(fields[38], small_field(1));
    assert_eq!(fields[39], limbs_field([5, 6]));

    // Without lookups the combiner is not recorded.
    let mut flags = no_flags();
    flags.foreign_field_add = true;
    let fields = wrap_public_input(
        &sample_proof(flags, Some([5, 6])),
        &key(),
        &pubs(),
        &deferred(),
        &small_field(1),
        &small_field(2),
    )
    .unwrap();
    assert_eq!(fields[32], small_field(1));
    assert_eq!(fields[38], small_field(0));
    assert_eq!(fields[39], small_field(0));
}

#[test]
fn wrap_public_input_errors() {
    let repartitioned = Pubs {
        public_input: vec![small_field(2), small_field(3)],
        public_output: Vec::new(),
    };
    assert_eq!(
        wrap_public_input(
            &sample_proof(no_flags(), None),
            &key(),
            &repartitioned,
            &deferred(),
            &small_field(1),
            &small_field(2),
        ),
        Err(PreparedError::PublicInput)
    );
    let mut bad_digest = sample_proof(no_flags(), None);
    bad_digest.statement.sponge_digest_before_evaluations = [u64::MAX; 4];
    assert_eq!(
        wrap_public_input(
            &bad_digest,
            &key(),
            &pubs(),
            &deferred(),
            &small_field(1),
            &small_field(2),
        ),
        Err(PreparedError::Field)
    );
}

// ---------------------------------------------------------------------------
// Deferred arithmetic
// ---------------------------------------------------------------------------

use pickles_verifier::deferred::{combine_chunks, combined_inner_product, square_n};

fn field_u64(field: &FieldBytes) -> u64 {
    assert!(field[8..].iter().all(|&b| b == 0));
    u64::from_le_bytes(field[..8].try_into().unwrap())
}

#[test]
fn chunks_combine_by_powers_of_the_point() {
    let values = [small_field(1), small_field(2), small_field(3)];
    assert_eq!(field_u64(&combine_chunks(&values, &small_field(10))), 321);
    assert_eq!(combine_chunks(&[], &small_field(10)), small_field(0));
    assert_eq!(combine_chunks(&values[..1], &small_field(10)), small_field(1));
    // -1 squared is 1.
    assert_eq!(
        combine_chunks(&[small_field(0), small_field(1)], &PALLAS_MINUS_ONE),
        PALLAS_MINUS_ONE
    );
}

#[test]
fn repeated_squaring() {
    assert_eq!(field_u64(&square_n(&small_field(3), 2)), 81);
    assert_eq!(square_n(&small_field(3), 0), small_field(3));
    assert_eq!(square_n(&PALLAS_MINUS_ONE, 1), small_field(1));
}

#[test]
fn combined_inner_product_takes_every_evaluation_once() {
    let evals = evaluations();
    let public = evaluation();
    let sum = combined_inner_product(
        &evals,
        &public,
        &vec![small_field(1)],
        &vec![small_field(2)],
        &small_field(3),
        &small_field(4),
        &small_field(1),
        &small_field(2),
    )
    .unwrap();
    // (1 + 7 + 3 + 43 * 7) + 2 * (2 + 9 + 4 + 43 * 9)
    assert_eq!(field_u64(&sum), 1116);

    let powers = combined_inner_product(
        &evals,
        &public,
        &vec![small_field(1)],
        &vec![small_field(2)],
        &small_field(3),
        &small_field(4),
        &small_field(2),
        &small_field(2),
    )
    .unwrap();
    assert_eq!(field_u64(&powers), 1_759_218_604_441_499);

    let mut bad = evals.clone();
    bad.mul_selector.zeta_omega[0] = [0xff; 32];
    assert_eq!(
        combined_inner_product(
            &bad,
            &public,
            &Vec::new(),
            &Vec::new(),
            &small_field(3),
            &small_field(4),
            &small_field(1),
            &small_field(2),
        ),
        Err(PreparedError::Field)
    );
}

// ---------------------------------------------------------------------------
// Scalar challenges
// ---------------------------------------------------------------------------

use pickles_verifier::challenge::{scalar_challenge_to_step_field, scalar_challenge_to_wrap_field};

#[test]
fn scalar_challenges_decompose_by_bit_pairs() {
    let challenge = [0x0123_4567_89ab_cdef, 0xfedc_ba98_7654_3210];
    let small = [
        19, 114, 103, 23, 72, 157, 162, 66, 16, 0, 0, 0, 0, 0, 0, 0, 0, 0, 0, 0, 0, 0, 0, 0, 0, 0,
        0, 0, 0, 0, 0, 0,
    ];
    assert_eq!(scalar_challenge_to_step_field(challenge, &small_field(5)), small);
    assert_eq!(scalar_challenge_to_wrap_field(challenge, &small_field(5)), small);

    let zero = scalar_challenge_to_step_field([0, 0], &small_field(7));
    assert_eq!(zero, limbs_field([1, 15]));
    let ones = scalar_challenge_to_wrap_field([u64::MAX, u64::MAX], &small_field(3));
    assert_eq!(ones, limbs_field([u64::MAX - 2, 10]));

    // A large endomorphism coefficient reduces differently in the two fields.
    let mut endo = small_field(12_345);
    endo[31] = 4;
    assert_eq!(
        scalar_challenge_to_step_field(challenge, &endo),
        [
            197, 250, 135, 202, 193, 140, 206, 79, 44, 244, 250, 91, 123, 175, 248, 141, 16, 37,
            193, 40, 239, 47, 229, 249, 255, 255, 255, 255, 255, 255, 255, 27
        ]
    );
    assert_eq!(
        scalar_challenge_to_wrap_field(challenge, &endo),
        [
            197, 250, 135, 202, 249, 88, 164, 19, 121, 31, 109, 70, 178, 207, 69, 97, 127, 96, 180,
            40, 239, 47, 229, 249, 255, 255, 255, 255, 255, 255, 255, 27
        ]
    );
}

// ---------------------------------------------------------------------------
// Challenge polynomials and the permutation argument
// ---------------------------------------------------------------------------

use pickles_verifier::deferred::{b_poly, challenge_polynomials_at, deferred_b};
use pickles_verifier::permutation::{
    combined_permutation_evaluations, ft_eval0, permutation_alphas, permutation_scalar,
    FtEval0Inputs, PermutationEvaluations,
};

fn sixteen_challenges() -> [FieldBytes; 16] {
    std::array::from_fn(|i| small_field(i as u64 + 1))
}

#[test]
fn challenge_polynomials_multiply_their_factors() {
    // (1 + 2 * 5^2) * (1 + 3 * 5) = 51 * 16.
    assert_eq!(b_poly(&[small_field(2), small_field(3)], &small_field(5)), small_field(816));
    assert_eq!(b_poly(&[], &small_field(5)), small_field(1));
    let expected = [
        165, 120, 147, 165, 213, 246, 147, 128, 124, 129, 83, 120, 20, 36, 149, 197, 180, 16, 65,
        24, 209, 167, 140, 124, 90, 38, 179, 15, 108, 48, 203, 29,
    ];
    assert_eq!(b_poly(&sixteen_challenges(), &small_field(7)), expected);
    let sets = vec![sixteen_challenges(), [small_field(0); 16]];
    assert_eq!(
        challenge_polynomials_at(&sets, &small_field(7)),
        vec![expected, small_field(1)]
    );
}

#[test]
fn deferred_b_combines_both_points_with_r() {
    assert_eq!(
        deferred_b(&sixteen_challenges(), &small_field(7), &small_field(11), &small_field(13)),
        [
            28, 191, 108, 162, 255, 188, 116, 187, 208, 29, 129, 214, 90, 80, 16, 96, 112, 115,
            251, 235, 60, 132, 102, 70, 203, 187, 174, 84, 176, 205, 221, 14
        ]
    );
}

fn permutation_evaluations() -> PermutationEvaluations {
    PermutationEvaluations {
        w: [3, 5, 7, 11, 13, 17, 19].map(small_field),
        s: [23, 29, 31, 37, 41, 43].map(small_field),
        z: small_field(47),
        z_omega: small_field(53),
    }
}

#[test]
fn permutation_scalar_is_the_negated_product() {
    let perm = permutation_scalar(
        &permutation_evaluations(),
        &small_field(2),
        &small_field(3),
        &small_field(5),
        &small_field(9),
    );
    assert_eq!(
        perm,
        [
            1, 208, 90, 150, 244, 92, 41, 153, 27, 249, 76, 9, 252, 152, 70, 34, 0, 0, 0, 0, 0, 0,
            0, 0, 0, 0, 0, 0, 0, 0, 0, 64
        ]
    );
}

#[test]
fn permutation_evaluations_combine_their_chunks() {
    let mut evals = evaluations();
    evals.w[3] = PointEvaluations {
        zeta: vec![small_field(2), small_field(3)],
        zeta_omega: vec![small_field(1)],
    };
    evals.z = PointEvaluations {
        zeta: vec![small_field(6)],
        zeta_omega: vec![small_field(4), small_field(5)],
    };
    let combined = combined_permutation_evaluations(&evals, &small_field(7), &small_field(11));
    // 2 + 3 * 7^(2^16) and 4 + 5 * 11^(2^16).
    assert_eq!(
        combined.w[3],
        [
            8, 229, 80, 225, 15, 192, 149, 220, 250, 138, 173, 235, 23, 52, 182, 75, 165, 35, 187,
            19, 77, 170, 203, 76, 97, 114, 231, 231, 210, 85, 127, 42
        ]
    );
    assert_eq!(
        combined.z_omega,
        [
            248, 241, 12, 227, 59, 95, 220, 239, 162, 116, 115, 152, 10, 212, 50, 108, 189, 36,
            205, 41, 186, 144, 210, 114, 255, 139, 83, 99, 75, 250, 65, 11
        ]
    );
    assert_eq!(combined.w[0], small_field(7));
    assert_eq!(combined.s[5], small_field(7));
    assert_eq!(combined.z, small_field(6));
}

fn ft_eval0_inputs() -> FtEval0Inputs {
    FtEval0Inputs {
        evals: permutation_evaluations(),
        public_zeta: vec![small_field(2), small_field(4)],
        domain_log2: 3,
        zeta: small_field(6),
        alphas: [small_field(5), small_field(7), small_field(9)],
        beta: small_field(2),
        gamma: small_field(3),
        zeta_to_srs_length: small_field(10),
        zkp: small_field(9),
        shifts: [1, 2, 3, 4, 5, 6, 7].map(small_field),
        zk_w: small_field(4),
        constant_term: small_field(100),
    }
}

#[test]
fn ft_eval0_follows_the_permutation_and_boundary_terms() {
    assert_eq!(
        ft_eval0(&ft_eval0_inputs()),
        Ok([
            27, 1, 130, 94, 168, 245, 32, 0, 0, 0, 0, 0, 0, 0, 0, 0, 0, 0, 0, 0, 0, 0, 0, 0, 0, 0,
            0, 0, 0, 0, 0, 0
        ])
    );
}

#[test]
fn ft_eval0_fails_where_the_boundary_denominator_vanishes() {
    let mut at_one = ft_eval0_inputs();
    at_one.zeta = small_field(1);
    assert_eq!(ft_eval0(&at_one), Err(PreparedError::Evaluation));
    let mut at_root = ft_eval0_inputs();
    at_root.zk_w = at_root.zeta;
    assert_eq!(ft_eval0(&at_root), Err(PreparedError::Evaluation));
}

#[test]
fn permutation_alphas_are_the_21st_to_23rd_powers() {
    assert_eq!(
        permutation_alphas(&small_field(3)),
        [small_field(10_460_353_203), small_field(31_381_059_609), small_field(94_143_178_827)]
    );
    assert_eq!(
        permutation_alphas(&PALLAS_MINUS_ONE),
        [PALLAS_MINUS_ONE, small_field(1), PALLAS_MINUS_ONE]
    );
}
