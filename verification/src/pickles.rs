//! Admission of Pickles verification keys, proofs and public values under a
//! runtime's configured bounds and the `PicklesV1` profile.

use vstd::prelude::*;

use crate::format::{PicklesProofPayload, PicklesVkPayload, ProofsVerified};
use crate::digest::{blake2b256, blake2b256_digest, flatten, push_bytes, sha256, sha256_digest};
use crate::kimchi::{map_kimchi_error, spec_map_kimchi_error, KimchiVerifyError};
use crate::weights::Weight;
use crate::scale::{
    compact_u32, compact_u32_len, scale_compact_len, scale_encode_bytes, scale_encode_fields,
};
use vstd::string::StringSliceAdditionalSpecFns;
use crate::profile::{
    spec_validate_proof, spec_validate_vk, validate_proof, validate_vk, MAX_CHUNKS,
    MAX_PROOF_BYTES, MAX_PUBLIC_FIELDS, MAX_VK_BYTES, WRAP_PUBLIC_INPUTS, WRAP_SRS_LOG2,
};

verus! {

/// Size of a canonical Pasta field element.
pub const FIELD_SIZE: usize = 32;

/// Why a verifier rejects a key, a proof or its public values.
#[derive(Clone, Copy, Debug, PartialEq, Eq, Structural)]
pub enum VerifyError {
    /// The public values do not fit the key or the configured bounds.
    InvalidInput,
    /// The proof bytes or the proof's structure are not acceptable.
    InvalidProofData,
    /// The proof is well formed but does not verify.
    VerifyError,
    /// The verification key is not acceptable.
    InvalidVerificationKey,
    /// Built-in verifier parameters do not match their pinned digests.
    IncompatibleParameters,
}

/// Public values proved by an o1js `ZkProgram`.
#[derive(Clone, Debug, PartialEq, Eq)]
pub struct Pubs {
    /// Flattened o1js public-input fields, in declaration order.
    pub public_input: Vec<[u8; FIELD_SIZE]>,
    /// Flattened o1js public-output fields, in declaration order.
    pub public_output: Vec<[u8; FIELD_SIZE]>,
}

/// Consensus profile for accepted Pickles encodings and parameters.
#[derive(Clone, Copy, Debug, PartialEq, Eq, Structural)]
pub enum PicklesProfileId {
    /// o1js-compatible Pickles proofs, canonical bincode-v2 encoding, widths
    /// zero through two, wrap domains 2^13 through 2^15, and chunks 1..=8.
    PicklesV1,
}

impl PicklesProfileId {
    /// Maximum accepted canonical proof payload size.
    pub fn max_proof_size(self) -> (size: usize)
        ensures
            size == MAX_PROOF_BYTES,
    {
        match self {
            PicklesProfileId::PicklesV1 => MAX_PROOF_BYTES,
        }
    }

    /// Maximum combined public input/output field count.
    pub fn max_public_fields(self) -> (count: usize)
        ensures
            count == MAX_PUBLIC_FIELDS,
    {
        match self {
            PicklesProfileId::PicklesV1 => MAX_PUBLIC_FIELDS,
        }
    }

    /// Maximum accepted canonical verification-key payload size.
    pub fn max_vk_size(self) -> (size: usize)
        ensures
            size == MAX_VK_BYTES,
    {
        match self {
            PicklesProfileId::PicklesV1 => MAX_VK_BYTES,
        }
    }

    /// Maximum accepted split-polynomial evaluation chunk count.
    pub fn max_chunks(self) -> (chunks: usize)
        ensures
            chunks == MAX_CHUNKS,
    {
        match self {
            PicklesProfileId::PicklesV1 => MAX_CHUNKS,
        }
    }
}

/// Stored Pickles verification key.
#[derive(Clone, Debug, PartialEq, Eq)]
pub struct PicklesVk {
    /// Canonical bincode-v2 [`PicklesVkPayload`].
    pub verifier_index_bytes: Vec<u8>,
    /// Consensus parameter profile used to interpret the payload.
    pub profile: PicklesProfileId,
}

impl PicklesVk {
    /// Construct a verification key from a converted payload.
    pub fn new(verifier_index_bytes: Vec<u8>, profile: PicklesProfileId) -> (vk: Self)
        ensures
            vk.verifier_index_bytes@ == verifier_index_bytes@,
            vk.profile == profile,
    {
        PicklesVk { verifier_index_bytes, profile }
    }
}

impl PicklesVk {
    /// The largest SCALE encoding of a stored key whose payload holds at
    /// most `max_vk_size` bytes: the payload's compact length, the payload,
    /// and the one-byte profile.
    pub fn max_encoded_len(max_vk_size: u32) -> (len: usize)
        requires
            max_vk_size + 6 <= usize::MAX,
        ensures
            len == compact_u32_len(max_vk_size as nat) + max_vk_size + 1,
    {
        scale_compact_len(max_vk_size) + max_vk_size as usize + 1
    }
}

/// The SCALE encoding of public values: the input fields, then the output
/// fields, each vector after its compact length.
pub open spec fn spec_pubs_bytes(pubs: Pubs) -> Seq<u8> {
    compact_u32(pubs.public_input@.len()) + flatten(pubs.public_input@) + compact_u32(
        pubs.public_output@.len(),
    ) + flatten(pubs.public_output@)
}

/// The message whose digest seeds the outer verifier's randomness: a
/// domain tag, then the SCALE encodings of the stored key (payload and
/// profile), of the proof bytes and of the public values.
pub open spec fn seed_message(vk: PicklesVk, raw_proof: Seq<u8>, pubs: Pubs) -> Seq<u8> {
    "pickles:v1:pallas15-vesta16:verify-rng".spec_bytes() + compact_u32(
        vk.verifier_index_bytes@.len(),
    ) + vk.verifier_index_bytes@ + seq![0u8] + compact_u32(raw_proof.len()) + raw_proof
        + spec_pubs_bytes(pubs)
}

/// The tag naming the protocol profile that this verifier implements.
pub open spec fn version_tag() -> Seq<u8> {
    "pickles:v1:o1js:pallas15-vesta16:bincode2-canonical:widths0-2:chunks1-8:chunked-public-evals:pub-io-arity-vk".spec_bytes()
}

impl Pickles {
    /// The hash that identifies this verifier's version: the SHA-256 digest
    /// of the tag naming its protocol profile, whatever the proof.
    pub fn verifier_version_hash(raw_proof: &Vec<u8>) -> (hash: [u8; 32])
        ensures
            hash@ == sha256_digest(version_tag()),
    {
        sha256(
            "pickles:v1:o1js:pallas15-vesta16:bincode2-canonical:widths0-2:chunks1-8:chunked-public-evals:pub-io-arity-vk".as_bytes(),
        )
    }

    /// The domain-separation tag of Pickles statements: `pickles`.
    pub fn hash_context_data() -> (tag: [u8; 7])
        ensures
            tag@ == seq![112u8, 105u8, 99u8, 107u8, 108u8, 101u8, 115u8],
    {
        let tag: [u8; 7] = [112, 105, 99, 107, 108, 101, 115];
        assert(tag@ =~= seq![112u8, 105u8, 99u8, 107u8, 108u8, 101u8, 115u8]);
        tag
    }

    /// The bytes of the public values that a statement commits to: their
    /// SCALE encoding.
    pub fn pubs_bytes(pubs: &Pubs) -> (bytes: Vec<u8>)
        requires
            pubs.public_input@.len() <= u32::MAX,
            pubs.public_output@.len() <= u32::MAX,
        ensures
            bytes@ == spec_pubs_bytes(*pubs),
    {
        let mut bytes = scale_encode_fields(&pubs.public_input);
        let output = scale_encode_fields(&pubs.public_output);
        push_bytes(&mut bytes, output.as_slice());
        bytes
    }

    /// The seed of the outer verifier's randomness: the BLAKE2b-256 digest of
    /// the statement material, so that the verifier's batching scalars are
    /// determined by the key, the proof and the public values.
    pub fn statement_seed(vk: &PicklesVk, raw_proof: &Vec<u8>, pubs: &Pubs) -> (seed: [u8; 32])
        requires
            vk.verifier_index_bytes@.len() <= u32::MAX,
            raw_proof@.len() <= u32::MAX,
            pubs.public_input@.len() <= u32::MAX,
            pubs.public_output@.len() <= u32::MAX,
        ensures
            seed@ == blake2b256_digest(seed_message(*vk, raw_proof@, *pubs)),
    {
        let mut message: Vec<u8> = Vec::new();
        push_bytes(&mut message, "pickles:v1:pallas15-vesta16:verify-rng".as_bytes());
        let key = scale_encode_bytes(&vk.verifier_index_bytes);
        push_bytes(&mut message, key.as_slice());
        let profile: u8 = match vk.profile {
            PicklesProfileId::PicklesV1 => 0,
        };
        message.push(profile);
        let proof = scale_encode_bytes(raw_proof);
        push_bytes(&mut message, proof.as_slice());
        let public = Self::pubs_bytes(pubs);
        push_bytes(&mut message, public.as_slice());
        assert(message@ =~= seed_message(*vk, raw_proof@, *pubs));
        blake2b256(message.as_slice())
    }
}

/// Base-two logarithm of the wrap domain that a key's domain selector picks.
pub open spec fn spec_wrap_domain_log2(size: ProofsVerified) -> nat {
    size.width() + 13
}

/// Base-two logarithm of the wrap domain: 2^13, 2^14 or 2^15.
pub fn wrap_domain_log2(size: ProofsVerified) -> (log2: u8)
    ensures
        log2 == spec_wrap_domain_log2(size),
{
    match size {
        ProofsVerified::N0 => 13,
        ProofsVerified::N1 => 14,
        ProofsVerified::N2 => 15,
    }
}

/// The Pickles verifier, under the bounds that a runtime configures.
#[derive(Clone, Copy, Debug)]
pub struct Pickles {
    /// Maximum canonical proof byte length.
    pub max_proof_size: u32,
    /// Maximum combined public input and output field count.
    pub max_pubs: u32,
    /// Maximum canonical verification-key payload byte length.
    pub max_vk_size: u32,
}

impl Pickles {
    /// A stored key is acceptable before decoding: `PicklesV1`, not empty,
    /// and within both the configured and the profile's size bound.
    pub open spec fn vk_size_acceptable(self, vk: PicklesVk) -> bool {
        &&& vk.profile == PicklesProfileId::PicklesV1
        &&& vk.verifier_index_bytes@.len() > 0
        &&& vk.verifier_index_bytes@.len() <= self.max_vk_size
        &&& vk.verifier_index_bytes@.len() <= MAX_VK_BYTES
    }

    /// Checks the stored key's profile and size before it is decoded.
    pub fn validate_vk_size(&self, vk: &PicklesVk) -> (result: Result<(), VerifyError>)
        ensures
            self.vk_size_acceptable(*vk) ==> result == Ok::<(), VerifyError>(()),
            !self.vk_size_acceptable(*vk) ==> result == Err::<(), VerifyError>(
                VerifyError::InvalidVerificationKey,
            ),
    {
        if vk.profile == PicklesProfileId::PicklesV1 && vk.verifier_index_bytes.len() != 0
            && vk.verifier_index_bytes.len() as u64 <= self.max_vk_size as u64
            && vk.verifier_index_bytes.len() <= MAX_VK_BYTES {
            Ok(())
        } else {
            Err(VerifyError::InvalidVerificationKey)
        }
    }

    /// The checks a proof request passes before anything is decoded, in
    /// order: the key's size, the proof's size, the number of public values.
    pub open spec fn spec_check_request(
        self,
        vk: PicklesVk,
        raw_proof: Seq<u8>,
        pubs: Pubs,
    ) -> Result<(), VerifyError> {
        let public_fields = pubs.public_input@.len() + pubs.public_output@.len();
        if !self.vk_size_acceptable(vk) {
            Err(VerifyError::InvalidVerificationKey)
        } else if raw_proof.len() == 0 || raw_proof.len() > self.max_proof_size || raw_proof.len()
            > MAX_PROOF_BYTES {
            Err(VerifyError::InvalidProofData)
        } else if public_fields > usize::MAX || public_fields > self.max_pubs || public_fields
            > MAX_PUBLIC_FIELDS {
            Err(VerifyError::InvalidInput)
        } else {
            Ok(())
        }
    }

    /// Checks a proof request against the configured and profile bounds
    /// before the proof and the key are decoded.
    pub fn check_request(
        &self,
        vk: &PicklesVk,
        raw_proof: &Vec<u8>,
        pubs: &Pubs,
    ) -> (result: Result<(), VerifyError>)
        ensures
            result == self.spec_check_request(*vk, raw_proof@, *pubs),
    {
        self.validate_vk_size(vk)?;
        if raw_proof.len() == 0 || raw_proof.len() as u64 > self.max_proof_size as u64
            || raw_proof.len() > MAX_PROOF_BYTES {
            return Err(VerifyError::InvalidProofData);
        }
        let public_fields = match pubs.public_input.len().checked_add(pubs.public_output.len()) {
            Some(count) => count,
            None => {
                return Err(VerifyError::InvalidInput);
            },
        };
        if public_fields as u64 > self.max_pubs as u64 || public_fields > MAX_PUBLIC_FIELDS {
            return Err(VerifyError::InvalidInput);
        }
        Ok(())
    }

    /// The verdict on a decoded key: the profile accepts it and its declared
    /// public arity fits the configured bound.
    pub open spec fn spec_check_decoded_vk(self, key: PicklesVkPayload) -> Result<(), VerifyError> {
        if spec_validate_vk(key) is Err {
            Err(VerifyError::InvalidVerificationKey)
        } else if key.public_input_size + key.public_output_size > self.max_pubs {
            Err(VerifyError::InvalidVerificationKey)
        } else {
            Ok(())
        }
    }

    /// Checks a decoded key against the profile and the configured public
    /// field bound.
    pub fn check_decoded_vk(&self, key: &PicklesVkPayload) -> (result: Result<(), VerifyError>)
        ensures
            result == self.spec_check_decoded_vk(*key),
    {
        if validate_vk(key).is_err() {
            return Err(VerifyError::InvalidVerificationKey);
        }
        if (key.public_input_size as u64) + (key.public_output_size as u64) > self.max_pubs as u64 {
            return Err(VerifyError::InvalidVerificationKey);
        }
        Ok(())
    }

    /// The verdict on a decoded proof statement, in order: the key, the
    /// partition of the public values into input and output, the proof.
    /// An accepted statement yields the proof's evaluation chunk count.
    pub open spec fn spec_check_statement(
        self,
        proof: PicklesProofPayload,
        key: PicklesVkPayload,
        pubs: Pubs,
    ) -> Result<nat, VerifyError> {
        if self.spec_check_decoded_vk(key) is Err {
            Err(VerifyError::InvalidVerificationKey)
        } else if pubs.public_input@.len() != key.public_input_size
            || pubs.public_output@.len() != key.public_output_size {
            Err(VerifyError::InvalidInput)
        } else {
            match spec_validate_proof(proof, key) {
                Ok(chunks) => Ok(chunks),
                Err(_) => Err(VerifyError::InvalidProofData),
            }
        }
    }

    /// Checks a decoded proof against a decoded key and the public values:
    /// the key must be acceptable, the public values must be split into
    /// input and output exactly as the key declares, and the proof must fit
    /// the profile.
    pub fn check_statement(
        &self,
        proof: &PicklesProofPayload,
        key: &PicklesVkPayload,
        pubs: &Pubs,
    ) -> (result: Result<usize, VerifyError>)
        ensures
            match self.spec_check_statement(*proof, *key, *pubs) {
                Ok(chunks) => result == Ok::<usize, VerifyError>(chunks as usize),
                Err(error) => result == Err::<usize, VerifyError>(error),
            },
    {
        self.check_decoded_vk(key)?;
        if pubs.public_input.len() as u64 != key.public_input_size as u64
            || pubs.public_output.len() as u64 != key.public_output_size as u64 {
            return Err(VerifyError::InvalidInput);
        }
        match validate_proof(proof, key) {
            Ok(chunks) => Ok(chunks),
            Err(_) => Err(VerifyError::InvalidProofData),
        }
    }
}

/// Why the wrap public input of a statement could not be prepared.
#[derive(Clone, Copy, Debug, PartialEq, Eq, Structural)]
pub enum PreparedError {
    /// A deferred evaluation could not be reconstructed.
    Evaluation,
    /// A field element is not canonical in the field it must be read in.
    Field,
    /// A point is not a valid curve point.
    Point,
    /// The public values do not fit the key's declared arities.
    PublicInput,
}

/// How the Vesta accumulator check of a proof came out.
#[derive(Clone, Copy, Debug, PartialEq, Eq, Structural)]
pub enum AccumulatorOutcome {
    /// The accumulated challenge polynomial commitment is correct.
    Holds,
    /// The check ran and the commitment is wrong.
    Fails,
    /// The check could not run on the proof's values.
    Malformed,
}

/// What the cryptographic steps of a proof verification report, in the
/// order in which the verifier runs them. The Pasta and Kimchi backends
/// compute each of them from the decoded proof, key and public values.
#[derive(Clone, Copy, Debug)]
pub struct BackendOutcomes {
    /// The Vesta accumulator check.
    pub accumulator: AccumulatorOutcome,
    /// Preparing the wrap public input; `None` when it was prepared.
    pub public_input: Option<PreparedError>,
    /// Whether the wrap proof converted to the outer verifier's type.
    pub outer_proof_converted: bool,
    /// Whether the built-in wrap SRS loaded for the key's wrap domain.
    pub srs_loaded: bool,
    /// Whether the outer verifier index was built from the key.
    pub verifier_index_built: bool,
    /// The outer Kimchi verification; `None` when the proof verified.
    pub outer_verification: Option<KimchiVerifyError>,
}

/// The verdict of the cryptographic steps, which run only once a statement
/// has passed every structural check.
pub open spec fn spec_backend_verdict(outcomes: BackendOutcomes) -> Result<(), VerifyError> {
    match outcomes.accumulator {
        AccumulatorOutcome::Malformed => Err(VerifyError::InvalidProofData),
        AccumulatorOutcome::Fails => Err(VerifyError::VerifyError),
        AccumulatorOutcome::Holds => {
            match outcomes.public_input {
                Some(PreparedError::PublicInput) => Err(VerifyError::InvalidInput),
                Some(_) => Err(VerifyError::InvalidProofData),
                None => {
                    if !outcomes.outer_proof_converted {
                        Err(VerifyError::InvalidProofData)
                    } else if !outcomes.srs_loaded || !outcomes.verifier_index_built {
                        Err(VerifyError::InvalidVerificationKey)
                    } else {
                        match outcomes.outer_verification {
                            Some(error) => Err(spec_map_kimchi_error(error)),
                            None => Ok(()),
                        }
                    }
                },
            }
        },
    }
}

/// Reports the cryptographic steps: a malformed accumulator is bad proof
/// data and a failing one a failed verification; a public input that cannot
/// be prepared is bad input or bad proof data; a wrap proof that does not
/// convert is bad proof data; an SRS or index that cannot be built is a bad
/// key; and an outer Kimchi rejection is reported as Kimchi reports it.
pub fn backend_verdict(outcomes: &BackendOutcomes) -> (result: Result<(), VerifyError>)
    ensures
        result == spec_backend_verdict(*outcomes),
{
    match outcomes.accumulator {
        AccumulatorOutcome::Malformed => {
            return Err(VerifyError::InvalidProofData);
        },
        AccumulatorOutcome::Fails => {
            return Err(VerifyError::VerifyError);
        },
        AccumulatorOutcome::Holds => {},
    }
    match outcomes.public_input {
        Some(PreparedError::PublicInput) => {
            return Err(VerifyError::InvalidInput);
        },
        Some(_) => {
            return Err(VerifyError::InvalidProofData);
        },
        None => {},
    }
    if !outcomes.outer_proof_converted {
        return Err(VerifyError::InvalidProofData);
    }
    if !outcomes.srs_loaded || !outcomes.verifier_index_built {
        return Err(VerifyError::InvalidVerificationKey);
    }
    match outcomes.outer_verification {
        Some(error) => Err(map_kimchi_error(error)),
        None => Ok(()),
    }
}

impl Pickles {
    /// The verdict on a proof request. `proof` and `key` are the canonical
    /// decodings of the raw proof and of the stored key's payload, `None`
    /// where the bytes are not a canonical encoding. The request's bounds are
    /// checked first, then the decodings, then the statement, and only then
    /// the cryptographic steps.
    pub open spec fn spec_verify_proof(
        self,
        vk: PicklesVk,
        raw_proof: Seq<u8>,
        pubs: Pubs,
        decoded_proof: Option<PicklesProofPayload>,
        decoded_key: Option<PicklesVkPayload>,
        outcomes: BackendOutcomes,
    ) -> Result<(), VerifyError> {
        match self.spec_check_request(vk, raw_proof, pubs) {
            Err(error) => Err(error),
            Ok(_) => match decoded_proof {
                None => Err(VerifyError::InvalidProofData),
                Some(proof) => match decoded_key {
                    None => Err(VerifyError::InvalidVerificationKey),
                    Some(key) => match self.spec_check_statement(proof, key, pubs) {
                        Err(error) => Err(error),
                        Ok(_) => spec_backend_verdict(outcomes),
                    },
                },
            },
        }
    }

    /// Verifies a proof request: the bounds on the stored key, the proof
    /// bytes and the public values; the canonical decodings of proof and key;
    /// the statement against the `PicklesV1` profile; and finally the
    /// cryptographic steps whose outcomes are given. A verified proof is
    /// charged no weight of its own: the weight of verification is fixed.
    pub fn verify_proof(
        &self,
        vk: &PicklesVk,
        raw_proof: &Vec<u8>,
        pubs: &Pubs,
        decoded_proof: &Option<PicklesProofPayload>,
        decoded_key: &Option<PicklesVkPayload>,
        outcomes: &BackendOutcomes,
    ) -> (result: Result<Option<Weight>, VerifyError>)
        ensures
            match self.spec_verify_proof(
                *vk,
                raw_proof@,
                *pubs,
                *decoded_proof,
                *decoded_key,
                *outcomes,
            ) {
                Ok(()) => result == Ok::<Option<Weight>, VerifyError>(None),
                Err(error) => result == Err::<Option<Weight>, VerifyError>(error),
            },
    {
        if let Err(error) = self.check_request(vk, raw_proof, pubs) {
            return Err(error);
        }
        match (decoded_proof, decoded_key) {
            (None, _) => Err(VerifyError::InvalidProofData),
            (Some(_), None) => Err(VerifyError::InvalidVerificationKey),
            (Some(proof), Some(key)) => {
                if let Err(error) = self.check_statement(proof, key, pubs) {
                    return Err(error);
                }
                match backend_verdict(outcomes) {
                    Ok(()) => Ok(None),
                    Err(error) => Err(error),
                }
            },
        }
    }

    /// The verdict on a stored key: its size, its canonical decoding, the
    /// profile and the configured public bound, then the built-in SRS and
    /// the outer verifier index built from it.
    pub open spec fn spec_validate_vk(
        self,
        vk: PicklesVk,
        decoded_key: Option<PicklesVkPayload>,
        srs_loaded: bool,
        verifier_index_built: bool,
    ) -> Result<(), VerifyError> {
        if !self.vk_size_acceptable(vk) {
            Err(VerifyError::InvalidVerificationKey)
        } else {
            match decoded_key {
                None => Err(VerifyError::InvalidVerificationKey),
                Some(key) => {
                    if (self.spec_check_decoded_vk(key) is Err) || !srs_loaded
                        || !verifier_index_built {
                        Err(VerifyError::InvalidVerificationKey)
                    } else {
                        Ok(())
                    }
                },
            }
        }
    }

    /// Validates a stored key before it is registered. Every rejection is
    /// reported as an invalid verification key.
    pub fn validate_vk(
        &self,
        vk: &PicklesVk,
        decoded_key: &Option<PicklesVkPayload>,
        srs_loaded: bool,
        verifier_index_built: bool,
    ) -> (result: Result<(), VerifyError>)
        ensures
            result == self.spec_validate_vk(*vk, *decoded_key, srs_loaded, verifier_index_built),
    {
        self.validate_vk_size(vk)?;
        match decoded_key {
            None => Err(VerifyError::InvalidVerificationKey),
            Some(key) => {
                self.check_decoded_vk(key)?;
                if !srs_loaded || !verifier_index_built {
                    Err(VerifyError::InvalidVerificationKey)
                } else {
                    Ok(())
                }
            },
        }
    }
}

/// The parameters with which the built-in Pallas wrap SRS may be loaded:
/// `PicklesV1`, the 2^15 SRS, a wrap domain of 2^13, 2^14 or 2^15, and the
/// fixed 40 public inputs.
pub open spec fn srs_load_parameters_valid(
    profile: PicklesProfileId,
    max_poly_size: nat,
    domain_size: nat,
    public_inputs: nat,
) -> bool {
    &&& profile == PicklesProfileId::PicklesV1
    &&& max_poly_size == 32768
    &&& (domain_size == 8192 || domain_size == 16384 || domain_size == 32768)
    &&& public_inputs == WRAP_PUBLIC_INPUTS
}

/// Checks the parameters of a built-in SRS load and returns the wrap
/// domain's base-two logarithm.
pub fn check_srs_load(
    profile: PicklesProfileId,
    max_poly_size: usize,
    domain_size: usize,
    public_inputs: usize,
) -> (result: Result<u8, ()>)
    ensures
        srs_load_parameters_valid(
            profile,
            max_poly_size as nat,
            domain_size as nat,
            public_inputs as nat,
        ) ==> result == Ok::<u8, ()>(
            if domain_size == 8192 {
                13u8
            } else if domain_size == 16384 {
                14u8
            } else {
                15u8
            },
        ),
        !srs_load_parameters_valid(
            profile,
            max_poly_size as nat,
            domain_size as nat,
            public_inputs as nat,
        ) ==> result == Err::<u8, ()>(()),
{
    assert((1usize << 15u8) == 32768usize) by (bit_vector);
    if profile != PicklesProfileId::PicklesV1 || max_poly_size != (1usize << WRAP_SRS_LOG2)
        || public_inputs != WRAP_PUBLIC_INPUTS {
        return Err(());
    }
    if domain_size == 8192 {
        Ok(13)
    } else if domain_size == 16384 {
        Ok(14)
    } else if domain_size == 32768 {
        Ok(15)
    } else {
        Err(())
    }
}

// ---------------------------------------------------------------------------
// Properties of the verifier
// ---------------------------------------------------------------------------

/// The key's declared arities make the split of the public values into
/// input and output unambiguous: two accepted statements about one proof and
/// one key whose public values flatten to the same field sequence carry the
/// same public input and the same public output.
pub proof fn lemma_public_split_is_unambiguous(
    pickles: Pickles,
    proof: PicklesProofPayload,
    key: PicklesVkPayload,
    first: Pubs,
    second: Pubs,
)
    requires
        pickles.spec_check_statement(proof, key, first) is Ok,
        pickles.spec_check_statement(proof, key, second) is Ok,
        first.public_input@ + first.public_output@ == second.public_input@
            + second.public_output@,
    ensures
        first.public_input@ == second.public_input@,
        first.public_output@ == second.public_output@,
{
    let flat = first.public_input@ + first.public_output@;
    let split = first.public_input@.len() as int;
    assert(first.public_input@ =~= flat.subrange(0, split));
    assert(second.public_input@ =~= flat.subrange(0, split));
    assert(first.public_output@ =~= flat.subrange(split, flat.len() as int));
    assert(second.public_output@ =~= flat.subrange(split, flat.len() as int));
}

/// An accepted proof request respects every bound: the stored key is a
/// `PicklesV1` key within the size bounds, the proof is non-empty and within
/// the size bounds, the public values fit both field bounds and split
/// exactly as the decoded key declares, and the proof carries one to eight
/// evaluation chunks.
pub proof fn lemma_accepted_request_is_admissible(
    pickles: Pickles,
    vk: PicklesVk,
    raw_proof: Seq<u8>,
    pubs: Pubs,
    decoded_proof: Option<PicklesProofPayload>,
    decoded_key: Option<PicklesVkPayload>,
    outcomes: BackendOutcomes,
)
    requires
        pickles.spec_verify_proof(vk, raw_proof, pubs, decoded_proof, decoded_key, outcomes)
            is Ok,
    ensures
        pickles.vk_size_acceptable(vk),
        0 < raw_proof.len() <= MAX_PROOF_BYTES,
        raw_proof.len() <= pickles.max_proof_size,
        pubs.public_input@.len() + pubs.public_output@.len() <= MAX_PUBLIC_FIELDS,
        pubs.public_input@.len() + pubs.public_output@.len() <= pickles.max_pubs,
        decoded_proof is Some,
        decoded_key is Some,
        pubs.public_input@.len() == decoded_key->Some_0.public_input_size,
        pubs.public_output@.len() == decoded_key->Some_0.public_output_size,
        match spec_validate_proof(decoded_proof->Some_0, decoded_key->Some_0) {
            Ok(chunks) => 1 <= chunks <= MAX_CHUNKS,
            Err(_) => false,
        },
        outcomes.accumulator == AccumulatorOutcome::Holds,
        outcomes.outer_verification is None,
{
    crate::profile::lemma_accepted_chunks_in_range(decoded_proof->Some_0, decoded_key->Some_0);
}

/// A key with which a proof verifies is a key that registration accepts,
/// given the same decoding and the same built-in SRS and verifier index.
pub proof fn lemma_accepted_proof_has_registrable_key(
    pickles: Pickles,
    vk: PicklesVk,
    raw_proof: Seq<u8>,
    pubs: Pubs,
    decoded_proof: Option<PicklesProofPayload>,
    decoded_key: Option<PicklesVkPayload>,
    outcomes: BackendOutcomes,
)
    requires
        pickles.spec_verify_proof(vk, raw_proof, pubs, decoded_proof, decoded_key, outcomes)
            is Ok,
    ensures
        pickles.spec_validate_vk(
            vk,
            decoded_key,
            outcomes.srs_loaded,
            outcomes.verifier_index_built,
        ) is Ok,
{
}

/// The verdict is a function of the request: the same stored key, proof
/// bytes and public values seed the outer verifier's randomness the same
/// way, and with the same decodings and the same outcomes of the
/// cryptographic steps (which are run from that seed) they get the same
/// verdict.
pub proof fn lemma_verdict_is_a_function_of_the_request(
    pickles: Pickles,
    vk: PicklesVk,
    raw_proof: Seq<u8>,
    pubs: Pubs,
    other_vk: PicklesVk,
    other_raw_proof: Seq<u8>,
    other_pubs: Pubs,
    decoded_proof: Option<PicklesProofPayload>,
    decoded_key: Option<PicklesVkPayload>,
    outcomes: BackendOutcomes,
)
    requires
        vk == other_vk,
        raw_proof == other_raw_proof,
        pubs == other_pubs,
    ensures
        blake2b256_digest(seed_message(vk, raw_proof, pubs)) == blake2b256_digest(
            seed_message(other_vk, other_raw_proof, other_pubs),
        ),
        pickles.spec_verify_proof(vk, raw_proof, pubs, decoded_proof, decoded_key, outcomes)
            == pickles.spec_verify_proof(
            other_vk,
            other_raw_proof,
            other_pubs,
            decoded_proof,
            decoded_key,
            outcomes,
        ),
{
}

} // verus!
