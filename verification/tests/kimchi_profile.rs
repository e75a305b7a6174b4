use pickles_verifier::kimchi::{
    compute_feature_flags, expected_lagrange_digest, lagrange_basis_matches_expected,
    map_kimchi_error, prewarm_kimchi_builtin_srs, srs_digest, structural_lookup_patterns,
    validate_proof_shape, validate_verifier_index_shape, vesta_srs_16_matches_expected,
    ExpectedLookup, Kimchi, KimchiVerifyError, KimchiVk, LookupCommitmentsShape, LookupFeatures,
    LookupIndexShape, LookupInfo, LookupPatterns, LookupSelectors, ProofShape,
    RecursionChallengeShape, VerifierIndexShape, VestaSrsPoints, MAX_PREVIOUS_CHALLENGES,
    MAX_PUBLIC_INPUTS, MIN_DOMAIN_LOG2_SIZE, VESTA_SRS_16_LAGRANGE_DIGESTS,
};
use pickles_verifier::pickles::VerifyError;
use pickles_verifier::weights::Weight;

const SRS_SIZE: usize = 1 << 16;

/// A single-chunk index over the domain `2^log2` without lookups, like the
/// generated fixtures of the small domains.
fn plain_index(log2: u32, public: usize) -> VerifierIndexShape {
    VerifierIndexShape {
        domain_size: 1u64 << log2,
        domain_log2_size: log2,
        max_poly_size: 1usize << log2,
        zk_rows: 3,
        public,
        prev_challenges: 0,
        sigma_comm: [1; 7],
        coefficients_comm: [1; 15],
        generic_comm: 1,
        psm_comm: 1,
        complete_add_comm: 1,
        mul_comm: 1,
        emul_comm: 1,
        endomul_scalar_comm: 1,
        range_check0_comm: None,
        range_check1_comm: None,
        foreign_field_add_comm: None,
        foreign_field_mul_comm: None,
        xor_comm: None,
        rot_comm: None,
        lookup_index: None,
    }
}

fn xor_patterns() -> LookupPatterns {
    LookupPatterns {
        xor: true,
        lookup: false,
        range_check: false,
        foreign_field_mul: false,
    }
}

/// What Kimchi derives for the XOR lookup pattern.
fn xor_expected() -> ExpectedLookup {
    ExpectedLookup {
        joint_lookup_used: true,
        max_per_row: 4,
        max_joint_size: 3,
    }
}

fn no_lookup_expected() -> ExpectedLookup {
    ExpectedLookup {
        joint_lookup_used: false,
        max_per_row: 0,
        max_joint_size: 0,
    }
}

/// The largest supported index: `2^16`, 64 public inputs, three previous
/// challenges and the XOR lookup, like the maximal generated fixture.
fn max_index() -> VerifierIndexShape {
    let mut index = plain_index(16, MAX_PUBLIC_INPUTS);
    index.prev_challenges = 3;
    index.xor_comm = Some(1);
    index.lookup_index = Some(LookupIndexShape {
        lookup_info: LookupInfo {
            max_per_row: 4,
            max_joint_size: 3,
            features: LookupFeatures {
                patterns: xor_patterns(),
                joint_lookup_used: true,
                uses_runtime_tables: false,
            },
        },
        joint_lookup_used: true,
        lookup_selectors: LookupSelectors {
            xor: Some(1),
            lookup: None,
            range_check: None,
            ffmul: None,
        },
        runtime_tables_selector: None,
        lookup_table: vec![1, 1, 1],
        table_ids: Some(1),
    });
    index
}

fn proof_for(index: &VerifierIndexShape) -> ProofShape {
    let rounds = index.domain_log2_size as usize;
    ProofShape {
        lr_rounds: rounds,
        prev_challenges: vec![
            RecursionChallengeShape {
                chals: rounds,
                comm: 1,
            };
            index.prev_challenges
        ],
        w_comm: [1; 15],
        z_comm: 1,
        t_comm: 7,
        lookup: index.lookup_index.as_ref().map(|_| LookupCommitmentsShape {
            sorted: vec![1; 5],
            aggreg: 1,
            runtime: None,
        }),
        runtime_lookup_table_evals: false,
        runtime_lookup_table_selector_evals: false,
    }
}

fn expected_for(index: &VerifierIndexShape) -> ExpectedLookup {
    if index.lookup_index.is_some() {
        xor_expected()
    } else {
        no_lookup_expected()
    }
}

fn dummy_srs() -> VestaSrsPoints {
    VestaSrsPoints {
        g: vec![[0u8; 33]; 4],
        h: [0u8; 33],
    }
}

fn kimchi() -> Kimchi {
    Kimchi {
        max_proof_size: 100,
        max_pubs: 2,
        max_vk_size: 10,
        max_srs_size: 20,
        verify_proof_weight: Weight::from_parts(290_415_000_000, 0),
    }
}

fn kimchi_vk() -> KimchiVk {
    KimchiVk {
        verifier_index_bytes: vec![1; 10],
        srs_bytes: vec![2; 20],
    }
}

// ---------------------------------------------------------------------------
// Prewarming the built-in SRS
// ---------------------------------------------------------------------------

#[test]
fn prewarm_rejects_unsupported_srs() {
    assert_eq!(
        prewarm_kimchi_builtin_srs(15, &[], &dummy_srs(), &Vec::new()),
        Err(VerifyError::InvalidVerificationKey)
    );
}

#[test]
fn prewarm_rejects_domain_larger_than_srs_before_initialization() {
    assert_eq!(
        prewarm_kimchi_builtin_srs(16, &[17], &dummy_srs(), &vec![Vec::new()]),
        Err(VerifyError::InvalidVerificationKey)
    );
}

#[test]
fn prewarm_rejects_domain_below_v1_minimum() {
    assert_eq!(
        prewarm_kimchi_builtin_srs(16, &[9], &dummy_srs(), &vec![Vec::new()]),
        Err(VerifyError::InvalidVerificationKey)
    );
}

#[test]
fn prewarm_rejects_an_srs_that_is_not_the_pinned_one() {
    assert_eq!(
        prewarm_kimchi_builtin_srs(16, &[], &dummy_srs(), &Vec::new()),
        Err(VerifyError::IncompatibleParameters)
    );
    assert!(!vesta_srs_16_matches_expected(&dummy_srs()));
}

#[test]
fn lagrange_digests_are_pinned_per_domain() {
    assert_eq!(expected_lagrange_digest(9), None);
    assert_eq!(expected_lagrange_digest(17), None);
    for (k, domain) in (10u8..=16).enumerate() {
        assert_eq!(expected_lagrange_digest(domain), Some(VESTA_SRS_16_LAGRANGE_DIGESTS[k]));
    }
    // A basis of the wrong size never matches.
    assert!(!lagrange_basis_matches_expected(10, &vec![vec![[0u8; 33]]; 3]));
    assert!(!lagrange_basis_matches_expected(9, &Vec::new()));
}

#[test]
fn srs_digest_depends_on_every_point() {
    let srs = dummy_srs();
    let mut changed = srs.clone();
    changed.g[3][32] = 1;
    assert_ne!(srs_digest(&srs), srs_digest(&changed));
    let mut changed_h = srs.clone();
    changed_h.h[0] = 1;
    assert_ne!(srs_digest(&srs), srs_digest(&changed_h));
    assert_eq!(srs_digest(&srs), srs_digest(&dummy_srs()));
}

// ---------------------------------------------------------------------------
// The verifier-index shape
// ---------------------------------------------------------------------------

#[test]
fn valid_v1_boundary_proofs_verify() {
    for index in [plain_index(u32::from(MIN_DOMAIN_LOG2_SIZE), 3), max_index()] {
        let proof = proof_for(&index);
        assert_eq!(
            validate_proof_shape(&proof, &index, SRS_SIZE, &expected_for(&index)),
            Ok(())
        );
        assert_eq!(
            kimchi().verify_proof(&kimchi_vk(), &vec![0u8; 32], &vec![[0u8; 32]; 2], Ok(())),
            Ok(Some(Weight::from_parts(290_415_000_000, 0)))
        );
    }
}

#[test]
fn proof_shape_rejects_more_ipa_rounds_than_the_verifier_index() {
    let index = plain_index(12, 3);
    let mut proof = proof_for(&index);
    proof.lr_rounds += 1;
    assert_eq!(
        validate_proof_shape(&proof, &index, SRS_SIZE, &no_lookup_expected()),
        Err(VerifyError::InvalidProofData)
    );
}

#[test]
fn verifier_index_shape_rejects_unbounded_previous_challenges() {
    let mut index = plain_index(12, 3);
    index.prev_challenges = MAX_PREVIOUS_CHALLENGES + 1;
    assert_eq!(
        validate_verifier_index_shape(&index, SRS_SIZE, &no_lookup_expected()),
        Err(VerifyError::InvalidVerificationKey)
    );
}

#[test]
fn verifier_index_shape_accepts_domain_boundaries() {
    for index in [plain_index(u32::from(MIN_DOMAIN_LOG2_SIZE), 3), max_index()] {
        assert_eq!(
            validate_verifier_index_shape(&index, SRS_SIZE, &expected_for(&index)),
            Ok(())
        );
    }
}

#[test]
fn verifier_index_shape_rejects_domain_below_v1_minimum() {
    let mut index = plain_index(12, 3);
    index.domain_size = 1 << (MIN_DOMAIN_LOG2_SIZE - 1);
    index.domain_log2_size = u32::from(MIN_DOMAIN_LOG2_SIZE - 1);
    index.max_poly_size = 1 << (MIN_DOMAIN_LOG2_SIZE - 1);
    assert_eq!(
        validate_verifier_index_shape(&index, SRS_SIZE, &no_lookup_expected()),
        Err(VerifyError::InvalidVerificationKey)
    );
}

#[test]
fn verifier_index_shape_rejects_more_than_maximum_public_inputs() {
    let mut index = plain_index(12, 3);
    index.public = MAX_PUBLIC_INPUTS + 1;
    assert_eq!(
        validate_verifier_index_shape(&index, SRS_SIZE, &no_lookup_expected()),
        Err(VerifyError::InvalidVerificationKey)
    );
}

#[test]
fn verifier_index_shape_rejects_chunked_profile() {
    let mut index = plain_index(12, 3);
    index.max_poly_size *= 2;
    assert_eq!(
        validate_verifier_index_shape(&index, SRS_SIZE, &no_lookup_expected()),
        Err(VerifyError::InvalidVerificationKey)
    );
}

#[test]
fn verifier_index_shape_rejects_incoherent_lookup_metadata() {
    let mut index = max_index();
    index.lookup_index.as_mut().unwrap().lookup_info.max_per_row -= 1;
    assert_eq!(
        validate_verifier_index_shape(&index, SRS_SIZE, &xor_expected()),
        Err(VerifyError::InvalidVerificationKey)
    );
}

#[test]
fn verifier_index_shape_rejects_lookup_index_without_a_lookup_pattern() {
    let mut index = max_index();
    index.xor_comm = None;
    let lookup_index = index.lookup_index.as_mut().unwrap();
    lookup_index.lookup_selectors.xor = None;
    lookup_index.lookup_info = LookupInfo {
        max_per_row: 0,
        max_joint_size: 0,
        features: LookupFeatures {
            patterns: LookupPatterns {
                xor: false,
                lookup: false,
                range_check: false,
                foreign_field_mul: false,
            },
            joint_lookup_used: false,
            uses_runtime_tables: false,
        },
    };
    lookup_index.joint_lookup_used = false;
    assert_eq!(
        validate_verifier_index_shape(&index, SRS_SIZE, &no_lookup_expected()),
        Err(VerifyError::InvalidVerificationKey)
    );
}

#[test]
fn verifier_index_shape_rejects_too_few_lookup_table_columns() {
    let mut index = max_index();
    index.lookup_index.as_mut().unwrap().lookup_table.pop();
    assert_eq!(
        validate_verifier_index_shape(&index, SRS_SIZE, &xor_expected()),
        Err(VerifyError::InvalidVerificationKey)
    );
}

#[test]
fn verifier_index_shape_rejects_incoherent_joint_lookup_flag() {
    let mut index = max_index();
    let lookup_index = index.lookup_index.as_mut().unwrap();
    lookup_index.joint_lookup_used = !lookup_index.joint_lookup_used;
    assert_eq!(
        validate_verifier_index_shape(&index, SRS_SIZE, &xor_expected()),
        Err(VerifyError::InvalidVerificationKey)
    );
}

#[test]
fn verifier_index_shape_rejects_runtime_tables() {
    let mut index = max_index();
    index.lookup_index.as_mut().unwrap().lookup_info.features.uses_runtime_tables = true;
    assert_eq!(
        validate_verifier_index_shape(&index, SRS_SIZE, &xor_expected()),
        Err(VerifyError::InvalidVerificationKey)
    );
}

#[test]
fn verifier_index_shape_rejects_runtime_table_selector() {
    let mut index = max_index();
    let lookup_index = index.lookup_index.as_mut().unwrap();
    lookup_index.runtime_tables_selector = Some(*lookup_index.lookup_table.first().unwrap());
    assert_eq!(
        validate_verifier_index_shape(&index, SRS_SIZE, &xor_expected()),
        Err(VerifyError::InvalidVerificationKey)
    );
}

#[test]
fn proof_shape_rejects_runtime_table_commitment() {
    let index = max_index();
    let mut proof = proof_for(&index);
    let lookup = proof.lookup.as_mut().unwrap();
    lookup.runtime = Some(lookup.aggreg);
    assert_eq!(
        validate_proof_shape(&proof, &index, SRS_SIZE, &xor_expected()),
        Err(VerifyError::InvalidProofData)
    );
}

#[test]
fn proof_shape_rejects_runtime_table_evaluations() {
    let index = max_index();
    let mut proof = proof_for(&index);
    proof.runtime_lookup_table_evals = true;
    assert_eq!(
        validate_proof_shape(&proof, &index, SRS_SIZE, &xor_expected()),
        Err(VerifyError::InvalidProofData)
    );
}

#[test]
fn verifier_index_shape_rejects_an_index_larger_than_the_srs() {
    let index = plain_index(16, 3);
    assert_eq!(
        validate_verifier_index_shape(&index, 1 << 15, &no_lookup_expected()),
        Err(VerifyError::InvalidVerificationKey)
    );
    let mut index = plain_index(17, 3);
    index.max_poly_size = 1 << 17;
    assert_eq!(
        validate_verifier_index_shape(&index, 1 << 17, &no_lookup_expected()),
        Err(VerifyError::InvalidVerificationKey)
    );
}

#[test]
fn verifier_index_shape_rejects_multi_chunk_commitments() {
    let mut index = plain_index(12, 3);
    index.sigma_comm[6] = 2;
    assert_eq!(
        validate_verifier_index_shape(&index, SRS_SIZE, &no_lookup_expected()),
        Err(VerifyError::InvalidVerificationKey)
    );
    let mut index = plain_index(12, 3);
    index.rot_comm = Some(2);
    assert_eq!(
        validate_verifier_index_shape(&index, SRS_SIZE, &no_lookup_expected()),
        Err(VerifyError::InvalidVerificationKey)
    );
}

#[test]
fn proof_shape_checks_quotient_and_challenge_chunks() {
    let index = max_index();
    let mut proof = proof_for(&index);
    proof.t_comm = 8;
    assert_eq!(
        validate_proof_shape(&proof, &index, SRS_SIZE, &xor_expected()),
        Err(VerifyError::InvalidProofData)
    );
    let mut proof = proof_for(&index);
    proof.prev_challenges[2].chals = 15;
    assert_eq!(
        validate_proof_shape(&proof, &index, SRS_SIZE, &xor_expected()),
        Err(VerifyError::InvalidProofData)
    );
    let mut proof = proof_for(&index);
    proof.prev_challenges.pop();
    assert_eq!(
        validate_proof_shape(&proof, &index, SRS_SIZE, &xor_expected()),
        Err(VerifyError::InvalidProofData)
    );
    // An invalid index is reported before the proof is looked at.
    let mut bad_index = index.clone();
    bad_index.public = MAX_PUBLIC_INPUTS + 1;
    assert_eq!(
        validate_proof_shape(&proof, &bad_index, SRS_SIZE, &xor_expected()),
        Err(VerifyError::InvalidVerificationKey)
    );
}

#[test]
fn lookup_patterns_and_feature_flags_come_from_gate_commitments() {
    let index = max_index();
    assert_eq!(structural_lookup_patterns(&index), xor_patterns());
    let flags = compute_feature_flags(&index, true);
    assert!(flags.xor);
    assert!(!flags.rot);
    assert!(flags.lookup_features.joint_lookup_used);
    assert!(!flags.lookup_features.uses_runtime_tables);

    let mut index = plain_index(12, 3);
    index.rot_comm = Some(1);
    let patterns = structural_lookup_patterns(&index);
    assert!(patterns.range_check);
    assert!(!patterns.xor);
}

// ---------------------------------------------------------------------------
// Errors and the Kimchi verifier's bounds
// ---------------------------------------------------------------------------

#[test]
fn kimchi_errors_are_reported_by_kind() {
    assert_eq!(
        map_kimchi_error(KimchiVerifyError::IncorrectPubicInputLength),
        VerifyError::InvalidInput
    );
    assert_eq!(
        map_kimchi_error(KimchiVerifyError::LookupEvalsMissing),
        VerifyError::InvalidProofData
    );
    assert_eq!(
        map_kimchi_error(KimchiVerifyError::DifferentSRS),
        VerifyError::InvalidVerificationKey
    );
    assert_eq!(map_kimchi_error(KimchiVerifyError::OpenProof), VerifyError::VerifyError);
}

#[test]
fn kimchi_request_bounds() {
    let checker = kimchi();
    assert_eq!(checker.validate_size(&kimchi_vk()), Ok(()));
    let empty_index = KimchiVk {
        verifier_index_bytes: Vec::new(),
        srs_bytes: vec![2; 20],
    };
    assert_eq!(
        checker.validate_size(&empty_index),
        Err(VerifyError::InvalidVerificationKey)
    );
    let large_srs = KimchiVk {
        verifier_index_bytes: vec![1; 10],
        srs_bytes: vec![2; 21],
    };
    assert_eq!(
        checker.verify_proof(&large_srs, &Vec::new(), &Vec::new(), Ok(())),
        Err(VerifyError::InvalidVerificationKey)
    );
    assert_eq!(
        checker.verify_proof(&kimchi_vk(), &vec![0; 101], &Vec::new(), Ok(())),
        Err(VerifyError::InvalidProofData)
    );
    assert_eq!(
        checker.verify_proof(&kimchi_vk(), &vec![0; 100], &vec![[0; 32]; 3], Ok(())),
        Err(VerifyError::InvalidInput)
    );
    assert_eq!(
        checker.verify_proof(
            &kimchi_vk(),
            &vec![0; 100],
            &vec![[0; 32]; 2],
            Err(VerifyError::VerifyError)
        ),
        Err(VerifyError::VerifyError)
    );
    assert_eq!(
        checker.validate_vk(&kimchi_vk(), Err(VerifyError::InvalidVerificationKey)),
        Err(VerifyError::InvalidVerificationKey)
    );
    assert_eq!(checker.validate_vk(&kimchi_vk(), Ok(())), Ok(()));
    assert_eq!(
        checker.validate_vk(&empty_index, Ok(())),
        Err(VerifyError::InvalidVerificationKey)
    );
}

#[test]
fn kimchi_public_inputs_flatten_in_order() {
    let mut first = [0u8; 32];
    first[0] = 1;
    let mut second = [0u8; 32];
    second[31] = 2;
    let bytes = Kimchi::pubs_bytes(&vec![first, second]);
    assert_eq!(bytes.len(), 64);
    assert_eq!(bytes[0], 1);
    assert_eq!(bytes[63], 2);
    assert!(Kimchi::pubs_bytes(&Vec::new()).is_empty());
    assert_eq!(&Kimchi::hash_context_data(), b"kimchi");
}

// ---------------------------------------------------------------------------
// Verification against the built-in SRS
// ---------------------------------------------------------------------------

use pickles_verifier::kimchi::{
    builtin_srs, decode_public_input, validate_key_with_builtin_srs,
    verify_proof_with_builtin_srs, verify_proof_with_srs,
};

/// Little-endian bytes of `p - 1` for the Pallas base modulus `p`, the
/// largest public input.
const LARGEST_INPUT: [u8; 32] = [
    0, 0, 0, 0, 237, 48, 45, 153, 27, 249, 76, 9, 252, 152, 70, 34, 0, 0, 0, 0, 0, 0, 0, 0, 0, 0,
    0, 0, 0, 0, 0, 64,
];

#[test]
fn public_inputs_decode_as_32_byte_field_elements() {
    let mut bytes = vec![7u8; 32];
    bytes.extend_from_slice(&LARGEST_INPUT);
    assert_eq!(decode_public_input(&bytes), Ok(vec![[7u8; 32], LARGEST_INPUT]));
    assert_eq!(decode_public_input(&[]), Ok(Vec::new()));
    assert_eq!(decode_public_input(&bytes[..63]), Err(VerifyError::InvalidInput));
    let mut modulus = LARGEST_INPUT;
    modulus[0] = 1;
    bytes.extend_from_slice(&modulus);
    assert_eq!(decode_public_input(&bytes), Err(VerifyError::InvalidInput));
}

#[test]
fn builtin_srs_is_the_pinned_two_to_the_sixteen() {
    assert_eq!(builtin_srs(15, &dummy_srs()), Err(VerifyError::InvalidVerificationKey));
    assert_eq!(builtin_srs(16, &dummy_srs()), Err(VerifyError::IncompatibleParameters));
    let index = plain_index(12, 1);
    assert_eq!(
        verify_proof_with_builtin_srs(
            17,
            &dummy_srs(),
            &Some(proof_for(&index)),
            &[0u8; 32],
            &Some(index.clone()),
            &no_lookup_expected(),
            Ok(()),
        ),
        Err(VerifyError::InvalidVerificationKey)
    );
    assert_eq!(
        validate_key_with_builtin_srs(&Some(index), 16, &dummy_srs(), &no_lookup_expected()),
        Err(VerifyError::IncompatibleParameters)
    );
    assert_eq!(
        validate_key_with_builtin_srs(&None, 16, &dummy_srs(), &no_lookup_expected()),
        Err(VerifyError::InvalidVerificationKey)
    );
}

#[test]
fn kimchi_verification_reports_failures_in_order() {
    let index = plain_index(12, 1);
    let proof = proof_for(&index);
    let expected = no_lookup_expected();
    let good = [1u8; 32];
    assert_eq!(
        verify_proof_with_srs(&Some(proof.clone()), &good, &Some(index.clone()), SRS_SIZE, &expected, Ok(())),
        Ok(())
    );
    assert_eq!(
        verify_proof_with_srs(&None, &good[..31], &None, SRS_SIZE, &expected, Ok(())),
        Err(VerifyError::InvalidProofData)
    );
    assert_eq!(
        verify_proof_with_srs(&Some(proof.clone()), &good[..31], &None, SRS_SIZE, &expected, Ok(())),
        Err(VerifyError::InvalidInput)
    );
    assert_eq!(
        verify_proof_with_srs(&Some(proof.clone()), &good, &None, SRS_SIZE, &expected, Ok(())),
        Err(VerifyError::InvalidVerificationKey)
    );
    let mut wide = proof.clone();
    wide.lr_rounds += 1;
    assert_eq!(
        verify_proof_with_srs(
            &Some(wide),
            &good,
            &Some(index.clone()),
            SRS_SIZE,
            &expected,
            Err(KimchiVerifyError::OpenProof),
        ),
        Err(VerifyError::InvalidProofData)
    );
    assert_eq!(
        verify_proof_with_srs(
            &Some(proof),
            &good,
            &Some(index),
            SRS_SIZE,
            &expected,
            Err(KimchiVerifyError::OpenProof),
        ),
        Err(VerifyError::VerifyError)
    );
}

use pickles_verifier::kimchi::opening_srs_length;

#[test]
fn the_opening_check_needs_a_power_of_two_srs() {
    assert_eq!(opening_srs_length(SRS_SIZE), Some(SRS_SIZE));
    assert_eq!(opening_srs_length(1), Some(1));
    assert_eq!(opening_srs_length(1 << 63), Some(1 << 63));
    assert_eq!(opening_srs_length(0), None);
    assert_eq!(opening_srs_length(3), None);
    assert_eq!(opening_srs_length(SRS_SIZE + 1), None);
    assert_eq!(opening_srs_length(usize::MAX), None);
}
