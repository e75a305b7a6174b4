//! The consensus-supported Kimchi shape profile (`Vesta16`) and the pinned
//! digests of its built-in Vesta SRS.
//!
//! A verifier index or a proof is described here by the parts of it that the
//! profile reads: domain parameters, counts, and the number of chunks of each
//! commitment (`Some(chunks)` for an optional commitment that is present).

use vstd::prelude::*;

use crate::digest::{
    blake2b256, blake2b256_digest, flatten, push_bytes, push_flattened, push_u64_le, u64_le,
};
use crate::format::FieldBytes;
use crate::pasta::{decodes_pallas_base, is_canonical_pallas_base};
use crate::pickles::VerifyError;
use crate::weights::Weight;
use vstd::string::StringSliceAdditionalSpecFns;

verus! {

/// Maximum encoded Kimchi proof size.
pub const MAX_ENCODED_PROOF_BYTES: usize = 262_144;

/// Maximum encoded Kimchi verifier-index size.
pub const MAX_ENCODED_VERIFIER_INDEX_BYTES: usize = 65_536;

/// Smallest supported evaluation domain (base-two logarithm).
pub const MIN_DOMAIN_LOG2_SIZE: u8 = 10;

/// Largest supported evaluation domain (base-two logarithm).
pub const MAX_DOMAIN_LOG2_SIZE: u8 = 16;

/// Maximum number of public inputs.
pub const MAX_PUBLIC_INPUTS: usize = 64;

/// Maximum number of recursive previous challenges.
pub const MAX_PREVIOUS_CHALLENGES: usize = 3;

/// Maximum lookups per row.
pub const MAX_LOOKUPS_PER_ROW: usize = 4;

/// Maximum joint lookup size.
pub const MAX_JOINT_LOOKUP_SIZE: u32 = 3;

/// Maximum number of sorted lookup commitments.
pub const MAX_SORTED_LOOKUP_COMMITMENTS: usize = 5;

/// Which lookup gates a circuit uses.
#[derive(Clone, Copy, Debug, PartialEq, Eq, Structural)]
pub struct LookupPatterns {
    pub xor: bool,
    pub lookup: bool,
    pub range_check: bool,
    pub foreign_field_mul: bool,
}

/// The lookup features of a circuit.
#[derive(Clone, Copy, Debug, PartialEq, Eq, Structural)]
pub struct LookupFeatures {
    pub patterns: LookupPatterns,
    pub joint_lookup_used: bool,
    pub uses_runtime_tables: bool,
}

/// Lookup configuration recorded in a verifier index.
#[derive(Clone, Copy, Debug, PartialEq, Eq, Structural)]
pub struct LookupInfo {
    pub max_per_row: usize,
    pub max_joint_size: u32,
    pub features: LookupFeatures,
}

/// Lookup selector commitments (chunk counts) of a verifier index.
#[derive(Clone, Copy, Debug, PartialEq, Eq, Structural)]
pub struct LookupSelectors {
    pub xor: Option<usize>,
    pub lookup: Option<usize>,
    pub range_check: Option<usize>,
    pub ffmul: Option<usize>,
}

/// The lookup part of a verifier index.
#[derive(Clone, Debug, PartialEq, Eq)]
pub struct LookupIndexShape {
    pub lookup_info: LookupInfo,
    pub joint_lookup_used: bool,
    pub lookup_selectors: LookupSelectors,
    pub runtime_tables_selector: Option<usize>,
    /// Chunk count of each lookup-table column commitment.
    pub lookup_table: Vec<usize>,
    pub table_ids: Option<usize>,
}

/// The parts of a Kimchi verifier index that the profile reads.
#[derive(Clone, Debug, PartialEq, Eq)]
pub struct VerifierIndexShape {
    pub domain_size: u64,
    pub domain_log2_size: u32,
    pub max_poly_size: usize,
    pub zk_rows: u64,
    pub public: usize,
    pub prev_challenges: usize,
    pub sigma_comm: [usize; 7],
    pub coefficients_comm: [usize; 15],
    pub generic_comm: usize,
    pub psm_comm: usize,
    pub complete_add_comm: usize,
    pub mul_comm: usize,
    pub emul_comm: usize,
    pub endomul_scalar_comm: usize,
    pub range_check0_comm: Option<usize>,
    pub range_check1_comm: Option<usize>,
    pub foreign_field_add_comm: Option<usize>,
    pub foreign_field_mul_comm: Option<usize>,
    pub xor_comm: Option<usize>,
    pub rot_comm: Option<usize>,
    pub lookup_index: Option<LookupIndexShape>,
}

/// What Kimchi derives from a circuit's lookup patterns: whether they use
/// joint lookups, and the lookup dimensions that `LookupInfo::create`
/// assigns to the resulting features.
#[derive(Clone, Copy, Debug, PartialEq, Eq, Structural)]
pub struct ExpectedLookup {
    pub joint_lookup_used: bool,
    pub max_per_row: usize,
    pub max_joint_size: u32,
}

/// Gate flags that a verifier index implies.
#[derive(Clone, Copy, Debug, PartialEq, Eq, Structural)]
pub struct KimchiFeatureFlags {
    pub range_check0: bool,
    pub range_check1: bool,
    pub foreign_field_add: bool,
    pub foreign_field_mul: bool,
    pub xor: bool,
    pub rot: bool,
    pub lookup_features: LookupFeatures,
}

/// The recursion challenge of a proof: how many challenges it carries and the
/// chunk count of its commitment.
#[derive(Clone, Copy, Debug, PartialEq, Eq, Structural)]
pub struct RecursionChallengeShape {
    pub chals: usize,
    pub comm: usize,
}

/// Lookup commitments of a proof (chunk counts).
#[derive(Clone, Debug, PartialEq, Eq)]
pub struct LookupCommitmentsShape {
    pub sorted: Vec<usize>,
    pub aggreg: usize,
    pub runtime: Option<usize>,
}

/// The parts of a Kimchi proof that the profile reads.
#[derive(Clone, Debug, PartialEq, Eq)]
pub struct ProofShape {
    /// Number of IPA rounds in the opening proof.
    pub lr_rounds: usize,
    pub prev_challenges: Vec<RecursionChallengeShape>,
    pub w_comm: [usize; 15],
    pub z_comm: usize,
    pub t_comm: usize,
    pub lookup: Option<LookupCommitmentsShape>,
    pub runtime_lookup_table_evals: bool,
    pub runtime_lookup_table_selector_evals: bool,
}

/// `2^exponent`.
pub open spec fn pow2(exponent: nat) -> nat
    decreases exponent,
{
    if exponent == 0 {
        1
    } else {
        2 * pow2((exponent - 1) as nat)
    }
}

/// An optional commitment is absent or has exactly one chunk.
pub open spec fn optional_one_chunk(commitment: Option<usize>) -> bool {
    match commitment {
        Some(chunks) => chunks == 1,
        None => true,
    }
}

/// Every commitment of the sequence has exactly one chunk.
pub open spec fn all_one_chunk(commitments: Seq<usize>) -> bool {
    forall|i: int| 0 <= i < commitments.len() ==> #[trigger] commitments[i] == 1
}

/// The lookup patterns that the index's own gate commitments imply.
pub open spec fn spec_lookup_patterns(index: VerifierIndexShape) -> LookupPatterns {
    LookupPatterns {
        xor: index.xor_comm.is_some(),
        lookup: match index.lookup_index {
            Some(lookup_index) => lookup_index.lookup_selectors.lookup.is_some(),
            None => false,
        },
        range_check: index.range_check0_comm.is_some() || index.range_check1_comm.is_some()
            || index.rot_comm.is_some(),
        foreign_field_mul: index.foreign_field_mul_comm.is_some(),
    }
}

/// Derives the lookup patterns from the index's gate commitments rather than
/// from its self-declared lookup metadata.
pub fn structural_lookup_patterns(index: &VerifierIndexShape) -> (patterns: LookupPatterns)
    ensures
        patterns == spec_lookup_patterns(*index),
        patterns.xor == index.xor_comm is Some,
        patterns.range_check == (index.range_check0_comm is Some || index.range_check1_comm is Some
            || index.rot_comm is Some),
        patterns.foreign_field_mul == index.foreign_field_mul_comm is Some,
{
    LookupPatterns {
        xor: index.xor_comm.is_some(),
        lookup: match &index.lookup_index {
            Some(lookup_index) => lookup_index.lookup_selectors.lookup.is_some(),
            None => false,
        },
        range_check: index.range_check0_comm.is_some() || index.range_check1_comm.is_some()
            || index.rot_comm.is_some(),
        foreign_field_mul: index.foreign_field_mul_comm.is_some(),
    }
}

/// The range-check lookup pattern is on exactly when the index has a gate
/// that looks values up in the range-check table: either range-check gate
/// or the rotation gate. An index with the first range-check gate alone
/// already has it on. The same holds of the flags that the index implies:
/// the pattern is on whenever one of those three flags is set.
pub proof fn lemma_range_check_pattern_follows_range_gates(index: VerifierIndexShape)
    ensures
        spec_lookup_patterns(index).range_check <==> (index.range_check0_comm is Some
            || index.range_check1_comm is Some || index.rot_comm is Some),
        index.range_check0_comm is Some ==> spec_lookup_patterns(index).range_check,
        index.range_check0_comm is Some ==> !no_patterns(spec_lookup_patterns(index)),
        forall|joint_lookup_used: bool|
            {
                let flags = #[trigger] spec_feature_flags(index, joint_lookup_used);
                flags.lookup_features.patterns.range_check <==> (flags.range_check0
                    || flags.range_check1 || flags.rot)
            },
{
}

/// No pattern is used.
pub open spec fn no_patterns(patterns: LookupPatterns) -> bool {
    !patterns.xor && !patterns.lookup && !patterns.range_check && !patterns.foreign_field_mul
}

/// The lookup features the index must declare, given what Kimchi derives.
pub open spec fn expected_features(
    index: VerifierIndexShape,
    expected: ExpectedLookup,
) -> LookupFeatures {
    LookupFeatures {
        patterns: spec_lookup_patterns(index),
        joint_lookup_used: expected.joint_lookup_used,
        uses_runtime_tables: false,
    }
}

/// The domain and size parameters of the index fit the profile and the SRS.
pub open spec fn index_parameters_valid(index: VerifierIndexShape, srs_size: nat) -> bool {
    &&& MIN_DOMAIN_LOG2_SIZE <= index.domain_log2_size <= MAX_DOMAIN_LOG2_SIZE
    &&& index.domain_size == pow2(index.domain_log2_size as nat)
    &&& index.max_poly_size == index.domain_size
    &&& index.max_poly_size <= srs_size
    &&& index.zk_rows < index.domain_size
    &&& index.public <= index.domain_size
    &&& index.public <= MAX_PUBLIC_INPUTS
    &&& index.prev_challenges <= MAX_PREVIOUS_CHALLENGES
}

/// The lookup metadata of the index agrees with its gate commitments.
pub open spec fn lookup_index_valid(index: VerifierIndexShape, expected: ExpectedLookup) -> bool {
    let patterns = spec_lookup_patterns(index);
    let features = expected_features(index, expected);
    &&& index.lookup_index.is_some() == !no_patterns(patterns)
    &&& match index.lookup_index {
        Some(lookup_index) => {
            let info = lookup_index.lookup_info;
            let selectors = lookup_index.lookup_selectors;
            &&& info.max_per_row <= MAX_LOOKUPS_PER_ROW
            &&& info.max_joint_size <= MAX_JOINT_LOOKUP_SIZE
            &&& info.max_per_row == expected.max_per_row
            &&& info.max_joint_size == expected.max_joint_size
            &&& info.features == features
            &&& lookup_index.joint_lookup_used == features.joint_lookup_used
            &&& selectors.xor.is_some() == patterns.xor
            &&& selectors.lookup.is_some() == patterns.lookup
            &&& selectors.range_check.is_some() == patterns.range_check
            &&& selectors.ffmul.is_some() == patterns.foreign_field_mul
            &&& lookup_index.runtime_tables_selector is None
            &&& lookup_index.lookup_table@.len() >= expected.max_joint_size
            &&& lookup_index.lookup_table@.len() <= MAX_JOINT_LOOKUP_SIZE
            &&& all_one_chunk(lookup_index.lookup_table@)
            &&& optional_one_chunk(selectors.xor)
            &&& optional_one_chunk(selectors.lookup)
            &&& optional_one_chunk(selectors.range_check)
            &&& optional_one_chunk(selectors.ffmul)
            &&& optional_one_chunk(lookup_index.table_ids)
        },
        None => true,
    }
}

/// Every gate commitment of the index has exactly one chunk.
pub open spec fn index_commitments_valid(index: VerifierIndexShape) -> bool {
    &&& all_one_chunk(index.sigma_comm@)
    &&& all_one_chunk(index.coefficients_comm@)
    &&& index.generic_comm == 1
    &&& index.psm_comm == 1
    &&& index.complete_add_comm == 1
    &&& index.mul_comm == 1
    &&& index.emul_comm == 1
    &&& index.endomul_scalar_comm == 1
    &&& optional_one_chunk(index.range_check0_comm)
    &&& optional_one_chunk(index.range_check1_comm)
    &&& optional_one_chunk(index.foreign_field_add_comm)
    &&& optional_one_chunk(index.foreign_field_mul_comm)
    &&& optional_one_chunk(index.xor_comm)
    &&& optional_one_chunk(index.rot_comm)
}

/// The index fits the `Vesta16` shape profile.
pub open spec fn index_shape_valid(
    index: VerifierIndexShape,
    srs_size: nat,
    expected: ExpectedLookup,
) -> bool {
    &&& index_parameters_valid(index, srs_size)
    &&& lookup_index_valid(index, expected)
    &&& index_commitments_valid(index)
}

/// Checks that every entry is one chunk.
fn all_have_one_chunk(commitments: &[usize]) -> (ok: bool)
    ensures
        ok == all_one_chunk(commitments@),
{
    let mut i: usize = 0;
    while i < commitments.len()
        invariant
            i <= commitments@.len(),
            forall|j: int| 0 <= j < i ==> #[trigger] commitments@[j] == 1,
        decreases commitments@.len() - i,
    {
        if commitments[i] != 1 {
            return false;
        }
        i = i + 1;
    }
    true
}

/// An optional commitment is absent or has one chunk.
fn optional_commitment_has_one_chunk(commitment: Option<usize>) -> (ok: bool)
    ensures
        ok == optional_one_chunk(commitment),
{
    match commitment {
        Some(chunks) => chunks == 1,
        None => true,
    }
}

/// Checks the domain parameters of an index, returning whether they fit.
fn index_parameters_ok(index: &VerifierIndexShape, srs_size: usize) -> (ok: bool)
    ensures
        ok == index_parameters_valid(*index, srs_size as nat),
{
    if index.domain_log2_size < MIN_DOMAIN_LOG2_SIZE as u32 || index.domain_log2_size
        > MAX_DOMAIN_LOG2_SIZE as u32 {
        return false;
    }
    let log2 = index.domain_log2_size;
    let mut size: u64 = 1;
    let mut k: u32 = 0;
    while k < log2
        invariant
            k <= log2,
            log2 <= 16,
            size == pow2(k as nat),
            size <= 65536,
        decreases log2 - k,
    {
        assert(pow2(k as nat + 1) == 2 * pow2(k as nat));
        proof {
            lemma_pow2_bound(k as nat + 1, 16);
        }
        size = size * 2;
        k = k + 1;
    }
    index.domain_size == size && index.max_poly_size as u64 == index.domain_size
        && index.max_poly_size <= srs_size && index.zk_rows < index.domain_size
        && (index.public as u64) <= index.domain_size && index.public <= MAX_PUBLIC_INPUTS
        && index.prev_challenges <= MAX_PREVIOUS_CHALLENGES
}

/// `2^k <= 2^bound` for `k <= bound`, and `2^16 = 65536`.
proof fn lemma_pow2_bound(k: nat, bound: nat)
    requires
        k <= bound,
        bound == 16,
    ensures
        pow2(k) <= 65536,
    decreases bound - k,
{
    reveal_with_fuel(pow2, 17);
    if k < bound {
        lemma_pow2_bound(k + 1, bound);
        assert(pow2(k + 1) == 2 * pow2(k));
    }
}

/// Checks a verifier index against the `Vesta16` shape profile: domain
/// between 2^10 and 2^16 with `max_poly_size` equal to the domain size and
/// within the SRS, at most 64 public inputs and 3 previous challenges,
/// single-chunk commitments, and lookup metadata that agrees with its gate
/// commitments (no runtime tables). `expected` is what Kimchi derives from the
/// index's structural lookup patterns.
pub fn validate_verifier_index_shape(
    index: &VerifierIndexShape,
    srs_size: usize,
    expected: &ExpectedLookup,
) -> (result: Result<(), VerifyError>)
    ensures
        index_shape_valid(*index, srs_size as nat, *expected) ==> result == Ok::<(), VerifyError>(
            (),
        ),
        !index_shape_valid(*index, srs_size as nat, *expected) ==> result == Err::<(), VerifyError>(
            VerifyError::InvalidVerificationKey,
        ),
{
    if !index_parameters_ok(index, srs_size) {
        return Err(VerifyError::InvalidVerificationKey);
    }
    let patterns = structural_lookup_patterns(index);
    let features = LookupFeatures {
        patterns,
        joint_lookup_used: expected.joint_lookup_used,
        uses_runtime_tables: false,
    };
    let any_pattern = patterns.xor || patterns.lookup || patterns.range_check
        || patterns.foreign_field_mul;
    if index.lookup_index.is_some() != any_pattern {
        return Err(VerifyError::InvalidVerificationKey);
    }
    match &index.lookup_index {
        Some(lookup_index) => {
            let info = lookup_index.lookup_info;
            let selectors = lookup_index.lookup_selectors;
            if info.max_per_row > MAX_LOOKUPS_PER_ROW || info.max_joint_size > MAX_JOINT_LOOKUP_SIZE
                || info.max_per_row != expected.max_per_row || info.max_joint_size
                != expected.max_joint_size || info.features != features
                || lookup_index.joint_lookup_used != features.joint_lookup_used
                || selectors.xor.is_some() != patterns.xor || selectors.lookup.is_some()
                != patterns.lookup || selectors.range_check.is_some() != patterns.range_check
                || selectors.ffmul.is_some() != patterns.foreign_field_mul
                || lookup_index.runtime_tables_selector.is_some() || (lookup_index.lookup_table.len()
                as u64) < (info.max_joint_size as u64) || lookup_index.lookup_table.len()
                > MAX_JOINT_LOOKUP_SIZE as usize || !all_have_one_chunk(
                lookup_index.lookup_table.as_slice(),
            ) || !optional_commitment_has_one_chunk(selectors.xor)
                || !optional_commitment_has_one_chunk(selectors.lookup)
                || !optional_commitment_has_one_chunk(selectors.range_check)
                || !optional_commitment_has_one_chunk(selectors.ffmul)
                || !optional_commitment_has_one_chunk(lookup_index.table_ids) {
                return Err(VerifyError::InvalidVerificationKey);
            }
        },
        None => {},
    }
    if !all_have_one_chunk(index.sigma_comm.as_slice()) || !all_have_one_chunk(
        index.coefficients_comm.as_slice(),
    ) || index.generic_comm != 1 || index.psm_comm != 1 || index.complete_add_comm != 1
        || index.mul_comm != 1 || index.emul_comm != 1 || index.endomul_scalar_comm != 1
        || !optional_commitment_has_one_chunk(index.range_check0_comm)
        || !optional_commitment_has_one_chunk(index.range_check1_comm)
        || !optional_commitment_has_one_chunk(index.foreign_field_add_comm)
        || !optional_commitment_has_one_chunk(index.foreign_field_mul_comm)
        || !optional_commitment_has_one_chunk(index.xor_comm)
        || !optional_commitment_has_one_chunk(index.rot_comm) {
        return Err(VerifyError::InvalidVerificationKey);
    }
    Ok(())
}


/// A recursion challenge fits: one challenge per IPA round, one-chunk
/// commitment.
pub open spec fn challenge_valid(challenge: RecursionChallengeShape, rounds: nat) -> bool {
    challenge.chals == rounds && challenge.comm == 1
}

/// The proof's dimensions agree with a (valid) verifier index whose domain
/// is `2^rounds`, and it carries no runtime lookup tables.
pub open spec fn proof_shape_fits(proof: ProofShape, index: VerifierIndexShape) -> bool {
    let rounds = index.domain_log2_size as nat;
    &&& proof.lr_rounds == rounds
    &&& proof.prev_challenges@.len() == index.prev_challenges
    &&& proof.prev_challenges@.len() <= MAX_PREVIOUS_CHALLENGES
    &&& forall|i: int|
        0 <= i < proof.prev_challenges@.len() ==> #[trigger] challenge_valid(
            proof.prev_challenges@[i],
            rounds,
        )
    &&& all_one_chunk(proof.w_comm@)
    &&& proof.z_comm == 1
    &&& 1 <= proof.t_comm <= 7
    &&& match proof.lookup {
        Some(lookup) => {
            &&& lookup.sorted@.len() <= MAX_SORTED_LOOKUP_COMMITMENTS
            &&& all_one_chunk(lookup.sorted@)
            &&& lookup.aggreg == 1
            &&& lookup.runtime is None
        },
        None => true,
    }
    &&& !proof.runtime_lookup_table_evals
    &&& !proof.runtime_lookup_table_selector_evals
}

/// The profile's verdict on a proof and the index it is checked against.
pub open spec fn spec_validate_proof_shape(
    proof: ProofShape,
    index: VerifierIndexShape,
    srs_size: nat,
    expected: ExpectedLookup,
) -> Result<(), VerifyError> {
    if !index_shape_valid(index, srs_size, expected) {
        Err(VerifyError::InvalidVerificationKey)
    } else if !proof_shape_fits(proof, index) {
        Err(VerifyError::InvalidProofData)
    } else {
        Ok(())
    }
}

/// Checks a proof's dimensions against its verifier index (which is checked
/// first): one IPA round per domain doubling, the index's number of previous
/// challenges, single-chunk commitments, at most seven quotient chunks, and no
/// runtime lookup tables.
pub fn validate_proof_shape(
    proof: &ProofShape,
    index: &VerifierIndexShape,
    srs_size: usize,
    expected: &ExpectedLookup,
) -> (result: Result<(), VerifyError>)
    ensures
        result == spec_validate_proof_shape(*proof, *index, srs_size as nat, *expected),
{
    validate_verifier_index_shape(index, srs_size, expected)?;
    let rounds = index.domain_log2_size as usize;
    if proof.lr_rounds != rounds || proof.prev_challenges.len() != index.prev_challenges
        || proof.prev_challenges.len() > MAX_PREVIOUS_CHALLENGES {
        return Err(VerifyError::InvalidProofData);
    }
    let mut i: usize = 0;
    while i < proof.prev_challenges.len()
        invariant
            i <= proof.prev_challenges@.len(),
            rounds == index.domain_log2_size as nat,
            index_shape_valid(*index, srs_size as nat, *expected),
            forall|j: int|
                0 <= j < i ==> #[trigger] challenge_valid(proof.prev_challenges@[j], rounds as nat),
        decreases proof.prev_challenges@.len() - i,
    {
        let challenge = proof.prev_challenges[i];
        if challenge.chals != rounds || challenge.comm != 1 {
            assert(!challenge_valid(proof.prev_challenges@[i as int], rounds as nat));
            return Err(VerifyError::InvalidProofData);
        }
        i = i + 1;
    }
    if !all_have_one_chunk(proof.w_comm.as_slice()) || proof.z_comm != 1 || proof.t_comm == 0
        || proof.t_comm > 7 {
        return Err(VerifyError::InvalidProofData);
    }
    match &proof.lookup {
        Some(lookup) => {
            if lookup.sorted.len() > MAX_SORTED_LOOKUP_COMMITMENTS || !all_have_one_chunk(
                lookup.sorted.as_slice(),
            ) || lookup.aggreg != 1 || lookup.runtime.is_some() {
                return Err(VerifyError::InvalidProofData);
            }
        },
        None => {},
    }
    if proof.runtime_lookup_table_evals || proof.runtime_lookup_table_selector_evals {
        return Err(VerifyError::InvalidProofData);
    }
    Ok(())
}

/// Gate flags that an index's commitments imply.
pub open spec fn spec_feature_flags(
    index: VerifierIndexShape,
    joint_lookup_used: bool,
) -> KimchiFeatureFlags {
    KimchiFeatureFlags {
        range_check0: index.range_check0_comm.is_some(),
        range_check1: index.range_check1_comm.is_some(),
        foreign_field_add: index.foreign_field_add_comm.is_some(),
        foreign_field_mul: index.foreign_field_mul_comm.is_some(),
        xor: index.xor_comm.is_some(),
        rot: index.rot_comm.is_some(),
        lookup_features: LookupFeatures {
            patterns: spec_lookup_patterns(index),
            joint_lookup_used,
            uses_runtime_tables: false,
        },
    }
}

/// Derives gate flags used for linearization from the index's gate
/// commitments; `joint_lookup_used` is what Kimchi derives from the index's
/// structural lookup patterns.
pub fn compute_feature_flags(index: &VerifierIndexShape, joint_lookup_used: bool) -> (flags:
    KimchiFeatureFlags)
    ensures
        flags == spec_feature_flags(*index, joint_lookup_used),
{
    let patterns = structural_lookup_patterns(index);
    KimchiFeatureFlags {
        range_check0: index.range_check0_comm.is_some(),
        range_check1: index.range_check1_comm.is_some(),
        foreign_field_add: index.foreign_field_add_comm.is_some(),
        foreign_field_mul: index.foreign_field_mul_comm.is_some(),
        xor: index.xor_comm.is_some(),
        rot: index.rot_comm.is_some(),
        lookup_features: LookupFeatures { patterns, joint_lookup_used, uses_runtime_tables: false },
    }
}

/// The ways in which Kimchi's verifier rejects a proof.
#[derive(Clone, Copy, Debug, PartialEq, Eq, Structural)]
pub enum KimchiVerifyError {
    IncorrectPubicInputLength,
    IncorrectCommitmentLength,
    IncorrectPrevChallengesLength,
    IncorrectEvaluationsLength,
    LookupCommitmentMissing,
    LookupEvalsMissing,
    ProofInconsistentLookup,
    IncorrectRuntimeProof,
    MissingEvaluation,
    MissingPublicInputEvaluation,
    MissingCommitment,
    DifferentSRS,
    SRSTooSmall,
    OpenProof,
}

/// How a Kimchi rejection is reported.
pub open spec fn spec_map_kimchi_error(error: KimchiVerifyError) -> VerifyError {
    match error {
        KimchiVerifyError::IncorrectPubicInputLength => VerifyError::InvalidInput,
        KimchiVerifyError::DifferentSRS | KimchiVerifyError::SRSTooSmall => {
            VerifyError::InvalidVerificationKey
        },
        KimchiVerifyError::OpenProof => VerifyError::VerifyError,
        _ => VerifyError::InvalidProofData,
    }
}

/// Reports a Kimchi rejection: a wrong public-input length is bad input, an
/// SRS mismatch a bad key, a failed opening a failed verification, and
/// everything else malformed proof data.
pub fn map_kimchi_error(error: KimchiVerifyError) -> (mapped: VerifyError)
    ensures
        mapped == spec_map_kimchi_error(error),
{
    match error {
        KimchiVerifyError::IncorrectPubicInputLength => VerifyError::InvalidInput,
        KimchiVerifyError::IncorrectCommitmentLength
        | KimchiVerifyError::IncorrectPrevChallengesLength
        | KimchiVerifyError::IncorrectEvaluationsLength
        | KimchiVerifyError::LookupCommitmentMissing
        | KimchiVerifyError::LookupEvalsMissing
        | KimchiVerifyError::ProofInconsistentLookup
        | KimchiVerifyError::IncorrectRuntimeProof
        | KimchiVerifyError::MissingEvaluation
        | KimchiVerifyError::MissingPublicInputEvaluation
        | KimchiVerifyError::MissingCommitment => VerifyError::InvalidProofData,
        KimchiVerifyError::DifferentSRS | KimchiVerifyError::SRSTooSmall => {
            VerifyError::InvalidVerificationKey
        },
        KimchiVerifyError::OpenProof => VerifyError::VerifyError,
    }
}


// ---------------------------------------------------------------------------
// Built-in Vesta16 parameters
// ---------------------------------------------------------------------------

/// Pinned digest of the built-in Vesta SRS of size 2^16.
pub const VESTA_SRS_16_DIGEST: [u8; 32] = [
    118, 145, 96, 85, 33, 218, 182, 195, 62, 93, 252, 115, 198, 97, 194, 14, 79, 26, 208, 65, 35,
    3, 60, 185, 99, 21, 119, 27, 198, 4, 152, 179,
];

/// Pinned digests of the Lagrange bases of the domains 2^10 through 2^16, in
/// order.
pub const VESTA_SRS_16_LAGRANGE_DIGESTS: [[u8; 32]; 7] = [
    [
        62, 107, 180, 44, 172, 35, 75, 215, 130, 61, 38, 219, 105, 153, 182, 109, 87, 79, 51, 75,
        239, 152, 82, 100, 184, 102, 245, 0, 193, 5, 165, 179,
    ],
    [
        212, 133, 142, 228, 29, 175, 56, 124, 161, 194, 216, 139, 166, 187, 85, 36, 100, 242, 6,
        208, 89, 2, 218, 229, 116, 234, 162, 168, 83, 192, 204, 218,
    ],
    [
        95, 184, 34, 197, 62, 121, 185, 248, 172, 60, 7, 129, 158, 48, 206, 35, 157, 190, 131, 54,
        231, 204, 51, 154, 48, 72, 120, 152, 236, 27, 247, 165,
    ],
    [
        195, 180, 144, 87, 222, 177, 101, 16, 98, 56, 222, 246, 167, 78, 234, 237, 161, 209, 206,
        221, 242, 27, 219, 88, 82, 208, 130, 42, 203, 161, 208, 226,
    ],
    [
        66, 25, 87, 90, 108, 51, 238, 67, 107, 87, 228, 196, 42, 88, 198, 230, 176, 182, 44, 249,
        71, 115, 50, 1, 121, 248, 208, 53, 102, 148, 59, 215,
    ],
    [
        78, 31, 93, 242, 49, 120, 194, 203, 113, 106, 52, 102, 229, 192, 84, 173, 151, 152, 232,
        187, 71, 74, 186, 58, 97, 40, 139, 166, 104, 213, 174, 110,
    ],
    [
        24, 109, 49, 100, 59, 18, 111, 130, 33, 215, 232, 222, 105, 21, 21, 53, 69, 167, 93, 234,
        34, 149, 170, 1, 148, 38, 12, 195, 85, 87, 178, 80,
    ],
];

/// The pinned Lagrange digest of a domain, if the profile supports it.
pub open spec fn spec_expected_lagrange_digest(domain_log2_size: u8) -> Option<[u8; 32]> {
    if MIN_DOMAIN_LOG2_SIZE <= domain_log2_size <= MAX_DOMAIN_LOG2_SIZE {
        Some(VESTA_SRS_16_LAGRANGE_DIGESTS[domain_log2_size - MIN_DOMAIN_LOG2_SIZE])
    } else {
        None
    }
}

/// Pinned digest of the Lagrange basis of each supported domain.
pub fn expected_lagrange_digest(domain_log2_size: u8) -> (digest: Option<[u8; 32]>)
    ensures
        digest == spec_expected_lagrange_digest(domain_log2_size),
{
    if MIN_DOMAIN_LOG2_SIZE <= domain_log2_size && domain_log2_size <= MAX_DOMAIN_LOG2_SIZE {
        Some(VESTA_SRS_16_LAGRANGE_DIGESTS[(domain_log2_size - MIN_DOMAIN_LOG2_SIZE) as usize])
    } else {
        None
    }
}

/// Compressed encodings of the points of a Vesta IPA SRS.
#[derive(Clone, Debug, PartialEq, Eq)]
pub struct VestaSrsPoints {
    pub g: Vec<[u8; 33]>,
    pub h: [u8; 33],
}

/// The message whose digest pins a Vesta SRS: a label, the number of `g`
/// points, every `g` point, then `h`.
pub open spec fn srs_digest_message(srs: VestaSrsPoints) -> Seq<u8> {
    "kimchi:v1:vesta16:srs".spec_bytes() + u64_le(srs.g@.len() as u64) + flatten(srs.g@) + srs.h@
}

/// Digest of a Vesta SRS.
pub fn srs_digest(srs: &VestaSrsPoints) -> (digest: [u8; 32])
    ensures
        digest@ == blake2b256_digest(srs_digest_message(*srs)),
{
    let mut message: Vec<u8> = Vec::new();
    push_bytes(&mut message, "kimchi:v1:vesta16:srs".as_bytes());
    push_u64_le(&mut message, srs.g.len() as u64);
    push_flattened(&mut message, srs.g.as_slice());
    push_bytes(&mut message, srs.h.as_slice());
    blake2b256(message.as_slice())
}

/// Each commitment as its chunk count followed by its chunks.
pub open spec fn commitments_bytes(basis: Seq<Vec<[u8; 33]>>) -> Seq<u8>
    decreases basis.len(),
{
    if basis.len() == 0 {
        Seq::empty()
    } else {
        commitments_bytes(basis.drop_last()) + u64_le(basis.last()@.len() as u64) + flatten(
            basis.last()@,
        )
    }
}

/// The message whose digest pins a Lagrange basis.
pub open spec fn lagrange_digest_message(
    domain_log2_size: u8,
    basis: Seq<Vec<[u8; 33]>>,
) -> Seq<u8> {
    "kimchi:v1:vesta16:lagrange".spec_bytes() + seq![domain_log2_size] + u64_le(
        basis.len() as u64,
    ) + commitments_bytes(basis)
}

/// Digest of the Lagrange basis of a domain, each commitment given by the
/// compressed encodings of its chunks.
pub fn lagrange_basis_digest(domain_log2_size: u8, basis: &Vec<Vec<[u8; 33]>>) -> (digest: [u8; 32])
    ensures
        digest@ == blake2b256_digest(lagrange_digest_message(domain_log2_size, basis@)),
{
    let mut message: Vec<u8> = Vec::new();
    push_bytes(&mut message, "kimchi:v1:vesta16:lagrange".as_bytes());
    message.push(domain_log2_size);
    push_u64_le(&mut message, basis.len() as u64);
    let ghost head = message@;
    let mut i: usize = 0;
    while i < basis.len()
        invariant
            i <= basis@.len(),
            message@ == head + commitments_bytes(basis@.take(i as int)),
        decreases basis@.len() - i,
    {
        push_u64_le(&mut message, basis[i].len() as u64);
        push_flattened(&mut message, basis[i].as_slice());
        assert(basis@.take(i as int + 1).drop_last() =~= basis@.take(i as int));
        assert(message@ =~= head + commitments_bytes(basis@.take(i as int + 1)));
        i = i + 1;
    }
    assert(basis@.take(basis@.len() as int) =~= basis@);
    assert(message@ =~= lagrange_digest_message(domain_log2_size, basis@));
    blake2b256(message.as_slice())
}

/// The built-in SRS has 2^16 `g` points and its pinned digest.
pub open spec fn vesta_srs_16_matches(srs: VestaSrsPoints) -> bool {
    srs.g@.len() == 65536 && blake2b256_digest(srs_digest_message(srs)) == VESTA_SRS_16_DIGEST@
}

/// Checks the built-in SRS against its pinned size and digest.
pub fn vesta_srs_16_matches_expected(srs: &VestaSrsPoints) -> (matches: bool)
    ensures
        matches == vesta_srs_16_matches(*srs),
{
    if srs.g.len() != 65536 {
        return false;
    }
    let digest = srs_digest(srs);
    bytes_equal(&digest, &VESTA_SRS_16_DIGEST)
}

/// A Lagrange basis matches the pinned basis of its domain: one commitment
/// per domain element and the pinned digest.
pub open spec fn lagrange_basis_matches(
    domain_log2_size: u8,
    basis: Seq<Vec<[u8; 33]>>,
    expected: Option<[u8; 32]>,
) -> bool {
    match expected {
        Some(digest) => basis.len() == pow2(domain_log2_size as nat) && blake2b256_digest(
            lagrange_digest_message(domain_log2_size, basis),
        ) == digest@,
        None => false,
    }
}

/// Checks a Lagrange basis against the pinned basis of its domain.
pub fn lagrange_basis_matches_expected(
    domain_log2_size: u8,
    basis: &Vec<Vec<[u8; 33]>>,
) -> (matches: bool)
    ensures
        matches == lagrange_basis_matches(
            domain_log2_size,
            basis@,
            spec_expected_lagrange_digest(domain_log2_size),
        ),
{
    let expected = expected_lagrange_digest(domain_log2_size);
    let matches = match expected {
        Some(digest) => {
            if domain_log2_size > 16 {
                false
            } else {
                let size = pow2_exec(domain_log2_size);
                if basis.len() as u64 != size {
                    false
                } else {
                    let actual = lagrange_basis_digest(domain_log2_size, basis);
                    bytes_equal(&actual, &digest)
                }
            }
        },
        None => false,
    };
    matches
}

/// `2^exponent` for the supported domain sizes.
fn pow2_exec(exponent: u8) -> (power: u64)
    requires
        exponent <= 16,
    ensures
        power == pow2(exponent as nat),
{
    let mut power: u64 = 1;
    let mut k: u8 = 0;
    while k < exponent
        invariant
            k <= exponent,
            exponent <= 16,
            power == pow2(k as nat),
            power <= 65536,
        decreases exponent - k,
    {
        proof {
            lemma_pow2_bound(k as nat + 1, 16);
        }
        power = power * 2;
        k = k + 1;
    }
    power
}

/// Every requested domain is supported and no larger than the SRS.
pub open spec fn domains_supported(srs_log2_size: u8, domain_log2_sizes: Seq<u8>) -> bool {
    forall|i: int|
        0 <= i < domain_log2_sizes.len() ==> MIN_DOMAIN_LOG2_SIZE <= #[trigger] domain_log2_sizes[i]
            <= MAX_DOMAIN_LOG2_SIZE && domain_log2_sizes[i] <= srs_log2_size
}

/// Every requested domain's basis matches its pinned digest.
pub open spec fn bases_match(domain_log2_sizes: Seq<u8>, bases: Seq<Vec<Vec<[u8; 33]>>>) -> bool {
    forall|i: int|
        0 <= i < domain_log2_sizes.len() ==> #[trigger] lagrange_basis_matches(
            domain_log2_sizes[i],
            bases[i]@,
            spec_expected_lagrange_digest(domain_log2_sizes[i]),
        )
}

/// The verdict on preparing the built-in SRS, in order: the requested
/// domains, the SRS size, the SRS digest, the Lagrange digests.
pub open spec fn spec_prewarm_kimchi_builtin_srs(
    srs_log2_size: u8,
    domain_log2_sizes: Seq<u8>,
    srs: VestaSrsPoints,
    bases: Seq<Vec<Vec<[u8; 33]>>>,
) -> Result<(), VerifyError> {
    if !domains_supported(srs_log2_size, domain_log2_sizes) {
        Err(VerifyError::InvalidVerificationKey)
    } else if srs_log2_size != 16 {
        Err(VerifyError::InvalidVerificationKey)
    } else if !vesta_srs_16_matches(srs) {
        Err(VerifyError::IncompatibleParameters)
    } else if !bases_match(domain_log2_sizes, bases) {
        Err(VerifyError::IncompatibleParameters)
    } else {
        Ok(())
    }
}

/// Checks a request to prepare the built-in SRS before anything is
/// computed: every requested domain is supported and no larger than the SRS,
/// and the SRS is the built-in 2^16 one.
pub fn check_prewarm_request(srs_log2_size: u8, domain_log2_sizes: &[u8]) -> (result: Result<
    (),
    VerifyError,
>)
    ensures
        domains_supported(srs_log2_size, domain_log2_sizes@) && srs_log2_size == 16 ==> result
            == Ok::<(), VerifyError>(()),
        !(domains_supported(srs_log2_size, domain_log2_sizes@) && srs_log2_size == 16) ==> result
            == Err::<(), VerifyError>(VerifyError::InvalidVerificationKey),
{
    let mut i: usize = 0;
    while i < domain_log2_sizes.len()
        invariant
            i <= domain_log2_sizes@.len(),
            forall|j: int|
                0 <= j < i ==> MIN_DOMAIN_LOG2_SIZE <= #[trigger] domain_log2_sizes@[j]
                    <= MAX_DOMAIN_LOG2_SIZE && domain_log2_sizes@[j] <= srs_log2_size,
        decreases domain_log2_sizes@.len() - i,
    {
        let domain = domain_log2_sizes[i];
        if domain < MIN_DOMAIN_LOG2_SIZE || domain > MAX_DOMAIN_LOG2_SIZE
            || domain > srs_log2_size {
            return Err(VerifyError::InvalidVerificationKey);
        }
        i = i + 1;
    }
    if srs_log2_size != 16 {
        return Err(VerifyError::InvalidVerificationKey);
    }
    Ok(())
}

/// Authenticates every consensus-supported Kimchi SRS representation before
/// block execution. `srs` is the built-in SRS and `lagrange_bases[i]` the
/// Lagrange basis it yields for `domain_log2_sizes[i]`; the requested domains
/// are checked before either is looked at.
pub fn prewarm_kimchi_builtin_srs(
    srs_log2_size: u8,
    domain_log2_sizes: &[u8],
    srs: &VestaSrsPoints,
    lagrange_bases: &Vec<Vec<Vec<[u8; 33]>>>,
) -> (result: Result<(), VerifyError>)
    requires
        lagrange_bases@.len() == domain_log2_sizes@.len(),
    ensures
        result == spec_prewarm_kimchi_builtin_srs(
            srs_log2_size,
            domain_log2_sizes@,
            *srs,
            lagrange_bases@,
        ),
{
    check_prewarm_request(srs_log2_size, domain_log2_sizes)?;
    if !vesta_srs_16_matches_expected(srs) {
        return Err(VerifyError::IncompatibleParameters);
    }
    let mut i: usize = 0;
    while i < domain_log2_sizes.len()
        invariant
            i <= domain_log2_sizes@.len(),
            lagrange_bases@.len() == domain_log2_sizes@.len(),
            domains_supported(srs_log2_size, domain_log2_sizes@),
            srs_log2_size == 16,
            vesta_srs_16_matches(*srs),
            forall|j: int|
                0 <= j < i ==> #[trigger] lagrange_basis_matches(
                    domain_log2_sizes@[j],
                    lagrange_bases@[j]@,
                    spec_expected_lagrange_digest(domain_log2_sizes@[j]),
                ),
        decreases domain_log2_sizes@.len() - i,
    {
        if !lagrange_basis_matches_expected(domain_log2_sizes[i], &lagrange_bases[i]) {
            return Err(VerifyError::IncompatibleParameters);
        }
        i = i + 1;
    }
    Ok(())
}

/// Compares two digests byte by byte.
pub fn bytes_equal(a: &[u8; 32], b: &[u8; 32]) -> (equal: bool)
    ensures
        equal == (a@ == b@),
{
    let mut i: usize = 0;
    while i < 32
        invariant
            i <= 32,
            forall|j: int| 0 <= j < i ==> a@[j] == b@[j],
        decreases 32 - i,
    {
        if a[i] != b[i] {
            return false;
        }
        i = i + 1;
    }
    assert(a@ =~= b@);
    true
}

/// Requested domains are checked before the SRS or any basis is looked at:
/// a request with an unsupported domain is refused the same way whatever
/// SRS and bases it comes with.
pub proof fn lemma_prewarm_checks_domains_first(
    srs_log2_size: u8,
    domain_log2_sizes: Seq<u8>,
    srs: VestaSrsPoints,
    bases: Seq<Vec<Vec<[u8; 33]>>>,
    other_srs: VestaSrsPoints,
    other_bases: Seq<Vec<Vec<[u8; 33]>>>,
)
    requires
        !domains_supported(srs_log2_size, domain_log2_sizes),
    ensures
        spec_prewarm_kimchi_builtin_srs(srs_log2_size, domain_log2_sizes, srs, bases) == Err::<
            (),
            VerifyError,
        >(VerifyError::InvalidVerificationKey),
        spec_prewarm_kimchi_builtin_srs(srs_log2_size, domain_log2_sizes, srs, bases)
            == spec_prewarm_kimchi_builtin_srs(
            srs_log2_size,
            domain_log2_sizes,
            other_srs,
            other_bases,
        ),
{
}

// ---------------------------------------------------------------------------
// The opening check's SRS length
// ---------------------------------------------------------------------------

/// `n` is a power of two.
pub open spec fn is_power_of_two(n: nat) -> bool {
    exists|k: nat| pow2(k) == n
}

/// Every power of two is at least one.
proof fn lemma_pow2_positive(k: nat)
    ensures
        pow2(k) >= 1,
    decreases k,
{
    if k > 0 {
        lemma_pow2_positive((k - 1) as nat);
    }
}

/// Powers of two grow with their exponent.
proof fn lemma_pow2_increasing(a: nat, b: nat)
    requires
        a < b,
    ensures
        pow2(a) < pow2(b),
    decreases b - a,
{
    lemma_pow2_positive(a);
    if a + 1 < b {
        lemma_pow2_increasing(a + 1, b);
    }
    assert(pow2(a + 1) == 2 * pow2(a));
}

/// The number of generator scalars of the accelerated opening check over an
/// SRS of `max_poly_size` points: that size, which must be a non-zero power
/// of two; `None` when it is not, and the check then fails before any
/// randomness is drawn.
pub fn opening_srs_length(max_poly_size: usize) -> (length: Option<usize>)
    ensures
        length is Some <==> is_power_of_two(max_poly_size as nat),
        length matches Some(n) ==> n == max_poly_size,
{
    let n = max_poly_size;
    let mut p: usize = 1;
    let ghost mut k: nat = 0;
    while p < n
        invariant
            n == max_poly_size,
            p == pow2(k),
            p >= 1,
            forall|j: nat| j < k ==> #[trigger] pow2(j) < n,
        decreases usize::MAX - p,
    {
        if p > usize::MAX / 2 {
            proof {
                assert(2 * p > usize::MAX);
                assert forall|j: nat| pow2(j) != n by {
                    if j < k {
                    } else if j == k {
                    } else if j == k + 1 {
                        assert(pow2(k + 1) == 2 * pow2(k));
                    } else {
                        lemma_pow2_increasing(k + 1, j);
                        assert(pow2(k + 1) == 2 * pow2(k));
                    }
                }
                assert(!is_power_of_two(n as nat));
            }
            return None;
        }
        proof {
            assert(pow2(k + 1) == 2 * pow2(k));
        }
        p = p * 2;
        proof {
            k = k + 1;
        }
    }
    if p == n {
        assert(pow2(k) == n);
        Some(n)
    } else {
        proof {
            assert forall|j: nat| pow2(j) != n by {
                if j > k {
                    lemma_pow2_increasing(k, j);
                }
            }
            assert(!is_power_of_two(n as nat));
        }
        None
    }
}

// ---------------------------------------------------------------------------
// Kimchi verification against the built-in SRS
// ---------------------------------------------------------------------------

/// The `i`-th 32-byte chunk of `bytes`.
pub open spec fn chunk_at(bytes: Seq<u8>, i: int) -> Seq<u8> {
    bytes.subrange(32 * i, 32 * i + 32)
}

/// `bytes` splits into 32-byte chunks with nothing left over, each a
/// canonical element of Kimchi's scalar field over Vesta (the Pallas base
/// field).
pub open spec fn public_input_decodes(bytes: Seq<u8>) -> bool {
    &&& bytes.len() % 32 == 0
    &&& forall|i: int|
        0 <= i < bytes.len() / 32 ==> #[trigger] is_canonical_pallas_base(chunk_at(bytes, i))
}

/// Decodes the public inputs of a Kimchi statement, the flat concatenation
/// of 32-byte compressed field elements.
pub fn decode_public_input(bytes: &[u8]) -> (result: Result<Vec<FieldBytes>, VerifyError>)
    ensures
        public_input_decodes(bytes@) ==> (result matches Ok(fields) && flatten(fields@) == bytes@),
        !public_input_decodes(bytes@) ==> result == Err::<Vec<FieldBytes>, VerifyError>(
            VerifyError::InvalidInput,
        ),
{
    let len = bytes.len();
    if len % 32 != 0 {
        return Err(VerifyError::InvalidInput);
    }
    let count = len / 32;
    let mut fields: Vec<FieldBytes> = Vec::new();
    let mut i: usize = 0;
    assert(bytes@.subrange(0, 0) =~= Seq::<u8>::empty());
    while i < count
        invariant
            i <= count,
            len == bytes@.len(),
            32 * count == len,
            fields@.len() == i,
            flatten(fields@) == bytes@.subrange(0, 32 * i),
            forall|j: int| 0 <= j < i ==> #[trigger] is_canonical_pallas_base(chunk_at(bytes@, j)),
        decreases count - i,
    {
        assert(32 * i + 32 <= 32 * count) by (nonlinear_arith)
            requires
                i < count,
        ;
        assert(32 * i + 32 <= len);
        let base = 32 * i;
        let mut chunk = [0u8; 32];
        let mut k: usize = 0;
        while k < 32
            invariant
                k <= 32,
                base == 32 * i,
                i < count,
                32 * count == bytes@.len(),
                forall|t: int| 0 <= t < k ==> chunk[t] == bytes@[base + t],
            decreases 32 - k,
        {
            chunk.set(k, bytes[base + k]);
            k = k + 1;
        }
        assert(chunk@ =~= chunk_at(bytes@, i as int));
        if !decodes_pallas_base(&chunk) {
            return Err(VerifyError::InvalidInput);
        }
        let ghost before = fields@;
        fields.push(chunk);
        assert(fields@.drop_last() =~= before);
        assert(bytes@.subrange(0, 32 * (i + 1)) =~= bytes@.subrange(0, 32 * i) + chunk@);
        i = i + 1;
    }
    assert(bytes@.subrange(0, 32 * count) =~= bytes@);
    Ok(fields)
}

/// The built-in SRS for `srs_log2_size`: only `2^16` is built in, and it
/// must carry its pinned parameters.
pub open spec fn spec_builtin_srs(srs_log2_size: u8, srs: VestaSrsPoints) -> Result<(), VerifyError> {
    if srs_log2_size != 16 {
        Err(VerifyError::InvalidVerificationKey)
    } else if !vesta_srs_16_matches(srs) {
        Err(VerifyError::IncompatibleParameters)
    } else {
        Ok(())
    }
}

/// Selects the built-in SRS for `srs_log2_size`; `srs` is the `2^16` SRS
/// that a node builds.
pub fn builtin_srs(srs_log2_size: u8, srs: &VestaSrsPoints) -> (result: Result<(), VerifyError>)
    ensures
        result == spec_builtin_srs(srs_log2_size, *srs),
{
    if srs_log2_size != 16 {
        return Err(VerifyError::InvalidVerificationKey);
    }
    if !vesta_srs_16_matches_expected(srs) {
        return Err(VerifyError::IncompatibleParameters);
    }
    Ok(())
}

/// The verdict on a Kimchi proof against an SRS of `srs_size` points, in
/// order: the proof's decoding (`None` when it does not decode), the public
/// inputs, the verifier index's decoding, the proof's shape against the
/// index, then Kimchi's verification, whose outcome is `verification`.
pub open spec fn spec_verify_proof_with_srs(
    proof: Option<ProofShape>,
    pubs_bytes: Seq<u8>,
    index: Option<VerifierIndexShape>,
    srs_size: nat,
    expected: ExpectedLookup,
    verification: Result<(), KimchiVerifyError>,
) -> Result<(), VerifyError> {
    if proof is None {
        Err(VerifyError::InvalidProofData)
    } else if !public_input_decodes(pubs_bytes) {
        Err(VerifyError::InvalidInput)
    } else if index is None {
        Err(VerifyError::InvalidVerificationKey)
    } else if spec_validate_proof_shape(proof->0, index->0, srs_size, expected) is Err {
        spec_validate_proof_shape(proof->0, index->0, srs_size, expected)
    } else {
        match verification {
            Ok(()) => Ok(()),
            Err(error) => Err(spec_map_kimchi_error(error)),
        }
    }
}

/// Verifies a Kimchi proof against an SRS of `srs_size` points:
/// `decoded_proof` and `index` are the decoded proof and verifier index,
/// `expected` what Kimchi derives from the index's lookup patterns, and
/// `verification` the outcome of Kimchi's verification on them and on the
/// decoded public inputs.
pub fn verify_proof_with_srs(
    decoded_proof: &Option<ProofShape>,
    pubs_bytes: &[u8],
    index: &Option<VerifierIndexShape>,
    srs_size: usize,
    expected: &ExpectedLookup,
    verification: Result<(), KimchiVerifyError>,
) -> (result: Result<(), VerifyError>)
    ensures
        result == spec_verify_proof_with_srs(
            *decoded_proof,
            pubs_bytes@,
            *index,
            srs_size as nat,
            *expected,
            verification,
        ),
{
    let shape = match decoded_proof {
        Some(shape) => shape,
        None => {
            return Err(VerifyError::InvalidProofData);
        },
    };
    decode_public_input(pubs_bytes)?;
    let index = match index {
        Some(index) => index,
        None => {
            return Err(VerifyError::InvalidVerificationKey);
        },
    };
    validate_proof_shape(shape, index, srs_size, expected)?;
    match verification {
        Ok(()) => Ok(()),
        Err(error) => Err(map_kimchi_error(error)),
    }
}

/// The verdict on a Kimchi proof against the built-in SRS: the SRS, then
/// the verdict against its `2^16` points.
pub open spec fn spec_verify_proof_with_builtin_srs(
    srs_log2_size: u8,
    srs: VestaSrsPoints,
    proof: Option<ProofShape>,
    pubs_bytes: Seq<u8>,
    index: Option<VerifierIndexShape>,
    expected: ExpectedLookup,
    verification: Result<(), KimchiVerifyError>,
) -> Result<(), VerifyError> {
    if spec_builtin_srs(srs_log2_size, srs) is Err {
        spec_builtin_srs(srs_log2_size, srs)
    } else {
        spec_verify_proof_with_srs(proof, pubs_bytes, index, 65536, expected, verification)
    }
}

/// Verifies a Kimchi proof against the built-in SRS; the arguments are as
/// for [`verify_proof_with_srs`].
pub fn verify_proof_with_builtin_srs(
    srs_log2_size: u8,
    srs: &VestaSrsPoints,
    decoded_proof: &Option<ProofShape>,
    pubs_bytes: &[u8],
    index: &Option<VerifierIndexShape>,
    expected: &ExpectedLookup,
    verification: Result<(), KimchiVerifyError>,
) -> (result: Result<(), VerifyError>)
    ensures
        result == spec_verify_proof_with_builtin_srs(
            srs_log2_size,
            *srs,
            *decoded_proof,
            pubs_bytes@,
            *index,
            *expected,
            verification,
        ),
{
    builtin_srs(srs_log2_size, srs)?;
    verify_proof_with_srs(decoded_proof, pubs_bytes, index, 65536, expected, verification)
}

/// The verdict on a Kimchi verification key against the built-in SRS, in
/// order: the verifier index's decoding, the SRS, the index's shape.
pub open spec fn spec_validate_key_with_builtin_srs(
    index: Option<VerifierIndexShape>,
    srs_log2_size: u8,
    srs: VestaSrsPoints,
    expected: ExpectedLookup,
) -> Result<(), VerifyError> {
    if index is None {
        Err(VerifyError::InvalidVerificationKey)
    } else if spec_builtin_srs(srs_log2_size, srs) is Err {
        spec_builtin_srs(srs_log2_size, srs)
    } else if !index_shape_valid(index->0, 65536, expected) {
        Err(VerifyError::InvalidVerificationKey)
    } else {
        Ok(())
    }
}

/// Validates a Kimchi verification key against the built-in SRS: `index` is
/// the decoded verifier index and `expected` what Kimchi derives from its
/// lookup patterns.
pub fn validate_key_with_builtin_srs(
    index: &Option<VerifierIndexShape>,
    srs_log2_size: u8,
    srs: &VestaSrsPoints,
    expected: &ExpectedLookup,
) -> (result: Result<(), VerifyError>)
    ensures
        result == spec_validate_key_with_builtin_srs(*index, srs_log2_size, *srs, *expected),
{
    let index = match index {
        Some(index) => index,
        None => {
            return Err(VerifyError::InvalidVerificationKey);
        },
    };
    builtin_srs(srs_log2_size, srs)?;
    validate_verifier_index_shape(index, 65536, expected)
}

// ---------------------------------------------------------------------------
// The Kimchi verifier under a runtime's bounds
// ---------------------------------------------------------------------------

/// Size of a Kimchi public-input field element.
pub const PUB_SIZE: usize = 32;

/// A stored Kimchi verification key: the serialized verifier index and the
/// serialized SRS it is checked against.
#[derive(Clone, Debug, PartialEq, Eq)]
pub struct KimchiVk {
    pub verifier_index_bytes: Vec<u8>,
    pub srs_bytes: Vec<u8>,
}

/// The Kimchi verifier, under the bounds that a runtime configures.
#[derive(Clone, Copy, Debug)]
pub struct Kimchi {
    /// Maximum number of bytes contained in the proof.
    pub max_proof_size: u32,
    /// Maximum number of public inputs.
    pub max_pubs: u32,
    /// Maximum number of bytes contained in the verifier index payload.
    pub max_vk_size: u32,
    /// Maximum number of bytes contained in the serialized SRS payload.
    pub max_srs_size: u32,
    /// The weight charged for a verified proof.
    pub verify_proof_weight: Weight,
}

impl Kimchi {
    /// The domain-separation tag of Kimchi statements: `kimchi`.
    pub fn hash_context_data() -> (tag: [u8; 6])
        ensures
            tag@ == seq![107u8, 105u8, 109u8, 99u8, 104u8, 105u8],
    {
        let tag: [u8; 6] = [107, 105, 109, 99, 104, 105];
        assert(tag@ =~= seq![107u8, 105u8, 109u8, 99u8, 104u8, 105u8]);
        tag
    }

    /// A stored key fits the configured bounds: neither part is empty and
    /// each is within its size bound.
    pub open spec fn vk_size_acceptable(self, vk: KimchiVk) -> bool {
        &&& 0 < vk.verifier_index_bytes@.len() <= self.max_vk_size
        &&& 0 < vk.srs_bytes@.len() <= self.max_srs_size
    }

    /// Checks the stored key's sizes.
    pub fn validate_size(&self, vk: &KimchiVk) -> (result: Result<(), VerifyError>)
        ensures
            self.vk_size_acceptable(*vk) ==> result == Ok::<(), VerifyError>(()),
            !self.vk_size_acceptable(*vk) ==> result == Err::<(), VerifyError>(
                VerifyError::InvalidVerificationKey,
            ),
    {
        if vk.verifier_index_bytes.len() == 0 || vk.verifier_index_bytes.len() as u64
            > self.max_vk_size as u64 {
            return Err(VerifyError::InvalidVerificationKey);
        }
        if vk.srs_bytes.len() == 0 || vk.srs_bytes.len() as u64 > self.max_srs_size as u64 {
            return Err(VerifyError::InvalidVerificationKey);
        }
        Ok(())
    }

    /// The verdict on a proof request, in order: the key's sizes, the
    /// proof's size, the number of public inputs, then the Kimchi
    /// verification, whose outcome is `verification`. A verified proof is
    /// charged the configured weight.
    pub open spec fn spec_verify_proof(
        self,
        vk: KimchiVk,
        raw_proof: Seq<u8>,
        raw_pubs: Seq<[u8; PUB_SIZE]>,
        verification: Result<(), VerifyError>,
    ) -> Result<Option<Weight>, VerifyError> {
        if !self.vk_size_acceptable(vk) {
            Err(VerifyError::InvalidVerificationKey)
        } else if raw_proof.len() > self.max_proof_size {
            Err(VerifyError::InvalidProofData)
        } else if raw_pubs.len() > self.max_pubs {
            Err(VerifyError::InvalidInput)
        } else {
            match verification {
                Err(error) => Err(error),
                Ok(_) => Ok(Some(self.verify_proof_weight)),
            }
        }
    }

    /// Verifies a proof request against the configured bounds; the Kimchi
    /// verification itself, over the key, the proof and the flattened public
    /// inputs, reports `verification`.
    pub fn verify_proof(
        &self,
        vk: &KimchiVk,
        raw_proof: &Vec<u8>,
        raw_pubs: &Vec<[u8; PUB_SIZE]>,
        verification: Result<(), VerifyError>,
    ) -> (result: Result<Option<Weight>, VerifyError>)
        ensures
            result == self.spec_verify_proof(*vk, raw_proof@, raw_pubs@, verification),
    {
        self.validate_size(vk)?;
        if raw_proof.len() as u64 > self.max_proof_size as u64 {
            return Err(VerifyError::InvalidProofData);
        }
        if raw_pubs.len() as u64 > self.max_pubs as u64 {
            return Err(VerifyError::InvalidInput);
        }
        verification?;
        Ok(Some(self.verify_proof_weight))
    }

    /// Validates a stored key: its sizes, then the key check, whose outcome
    /// is `validation`.
    pub fn validate_vk(&self, vk: &KimchiVk, validation: Result<(), VerifyError>) -> (result:
        Result<(), VerifyError>)
        ensures
            !self.vk_size_acceptable(*vk) ==> result == Err::<(), VerifyError>(
                VerifyError::InvalidVerificationKey,
            ),
            self.vk_size_acceptable(*vk) ==> result == validation,
    {
        self.validate_size(vk)?;
        validation
    }

    /// The public inputs as the flat concatenation of their encodings.
    pub fn pubs_bytes(pubs: &Vec<[u8; PUB_SIZE]>) -> (bytes: Vec<u8>)
        ensures
            bytes@ == flatten(pubs@),
    {
        let mut bytes: Vec<u8> = Vec::new();
        push_flattened(&mut bytes, pubs.as_slice());
        assert(bytes@ =~= flatten(pubs@));
        bytes
    }
}

} // verus!
