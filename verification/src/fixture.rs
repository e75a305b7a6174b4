//! The envelope of an o1js source fixture, as the fixture converter reads
//! it before it converts anything.

use vstd::prelude::*;

use crate::format::{PicklesProofPayload, PicklesVkPayload};
use crate::profile::{chunks_consistent, validate_evaluation_chunks, MAX_CHUNKS, MAX_PUBLIC_FIELDS};
use vstd::string::StringSliceAdditionalSpecFns;

verus! {

/// The fields of a source fixture that decide whether it can be converted.
#[derive(Clone, Debug, PartialEq, Eq)]
pub struct SourceEnvelope {
    /// The fixture's `format` tag, as bytes.
    pub format: Vec<u8>,
    /// The package that produced the proof, as bytes.
    pub package: Vec<u8>,
    /// The compile configuration's `numChunks`.
    pub num_chunks: u8,
    /// The compile configuration's `overrideWrapDomain`, where given.
    pub override_wrap_domain: Option<u8>,
    /// The proof's `maxProofsVerified`.
    pub max_proofs_verified: u8,
    /// Length of the generic o1js proof string.
    pub proof_len: usize,
    /// Number of public-input fields.
    pub public_input_len: usize,
    /// Number of public-output fields.
    pub public_output_len: usize,
}

/// Why a source fixture cannot be converted.
#[derive(Clone, Copy, Debug, PartialEq, Eq, Structural)]
pub enum EnvelopeError {
    /// The fixture is not a `zkverify-pickles-source-v1` fixture.
    UnsupportedFormat,
    /// The proof was not produced by o1js.
    NotO1js,
    /// `numChunks` is outside `1..=8`.
    ChunkCount,
    /// `overrideWrapDomain` is outside `0..=2`.
    WrapDomainOverride,
    /// `maxProofsVerified` is outside `0..=2`.
    MaxProofsVerified,
    /// The generic o1js proof is empty.
    EmptyProof,
    /// The combined public length does not fit in a `usize`.
    PublicLengthOverflow,
    /// More than 1024 combined public fields.
    TooManyPublicFields,
}

/// The format tag of supported source fixtures.
pub open spec fn source_format() -> Seq<u8> {
    "zkverify-pickles-source-v1".spec_bytes()
}

/// The package that `PicklesV1` source fixtures must name.
pub open spec fn source_package() -> Seq<u8> {
    "o1js".spec_bytes()
}

/// The verdict on a source envelope, checked in order.
pub open spec fn spec_validate_source_envelope(source: SourceEnvelope) -> Result<
    (),
    EnvelopeError,
> {
    let public_fields = source.public_input_len + source.public_output_len;
    if source.format@ != source_format() {
        Err(EnvelopeError::UnsupportedFormat)
    } else if source.package@ != source_package() {
        Err(EnvelopeError::NotO1js)
    } else if !(1 <= source.num_chunks <= MAX_CHUNKS) {
        Err(EnvelopeError::ChunkCount)
    } else if source.override_wrap_domain matches Some(domain) && domain > 2 {
        Err(EnvelopeError::WrapDomainOverride)
    } else if source.max_proofs_verified > 2 {
        Err(EnvelopeError::MaxProofsVerified)
    } else if source.proof_len == 0 {
        Err(EnvelopeError::EmptyProof)
    } else if public_fields > usize::MAX {
        Err(EnvelopeError::PublicLengthOverflow)
    } else if public_fields > MAX_PUBLIC_FIELDS {
        Err(EnvelopeError::TooManyPublicFields)
    } else {
        Ok(())
    }
}

/// Compares two byte strings.
fn same_bytes(a: &[u8], b: &[u8]) -> (same: bool)
    ensures
        same == (a@ == b@),
{
    if a.len() != b.len() {
        return false;
    }
    let mut i: usize = 0;
    while i < a.len()
        invariant
            a@.len() == b@.len(),
            i <= a@.len(),
            forall|j: int| 0 <= j < i ==> a@[j] == b@[j],
        decreases a@.len() - i,
    {
        if a[i] != b[i] {
            return false;
        }
        i = i + 1;
    }
    assert(a@ =~= b@);
    true
}

/// Checks a source fixture's envelope before conversion: the format tag, the
/// producing package, the chunk count, the wrap-domain override, the
/// recursion width, a non-empty proof and the combined public length.
pub fn validate_source_envelope(source: &SourceEnvelope) -> (result: Result<(), EnvelopeError>)
    ensures
        result == spec_validate_source_envelope(*source),
{
    if !same_bytes(source.format.as_slice(), "zkverify-pickles-source-v1".as_bytes()) {
        return Err(EnvelopeError::UnsupportedFormat);
    }
    if !same_bytes(source.package.as_slice(), "o1js".as_bytes()) {
        return Err(EnvelopeError::NotO1js);
    }
    if source.num_chunks < 1 || source.num_chunks as usize > MAX_CHUNKS {
        return Err(EnvelopeError::ChunkCount);
    }
    if let Some(domain) = source.override_wrap_domain {
        if domain > 2 {
            return Err(EnvelopeError::WrapDomainOverride);
        }
    }
    if source.max_proofs_verified > 2 {
        return Err(EnvelopeError::MaxProofsVerified);
    }
    if source.proof_len == 0 {
        return Err(EnvelopeError::EmptyProof);
    }
    let public_fields = match source.public_input_len.checked_add(source.public_output_len) {
        Some(count) => count,
        None => {
            return Err(EnvelopeError::PublicLengthOverflow);
        },
    };
    if public_fields > MAX_PUBLIC_FIELDS {
        return Err(EnvelopeError::TooManyPublicFields);
    }
    Ok(())
}

/// Why a converted proof and key do not match their source fixture.
#[derive(Clone, Copy, Debug, PartialEq, Eq, Structural)]
pub enum ConversionError {
    /// The proof's evaluations do not share one chunk count in `1..=8`.
    InconsistentChunks,
    /// The chunk count is not the compile configuration's `numChunks`.
    NumChunks,
    /// The key's recursion width is not the proof JSON's `maxProofsVerified`.
    MaxProofsVerified,
    /// The key's wrap domain is not the configuration's `overrideWrapDomain`.
    WrapDomainOverride,
}

/// The verdict on a converted proof and key against their source fixture,
/// in order: one chunk count in `1..=8` for every evaluation, equal to
/// `numChunks`; the key's recursion width equal to `maxProofsVerified`; the
/// key's wrap-domain selector equal to `overrideWrapDomain` where given.
pub open spec fn spec_check_conversion(
    source: SourceEnvelope,
    proof: PicklesProofPayload,
    vk: PicklesVkPayload,
) -> Result<(), ConversionError> {
    let public = proof.prev_evals.public_input;
    if !chunks_consistent(public, proof.prev_evals.evals) {
        Err(ConversionError::InconsistentChunks)
    } else if public.zeta@.len() != source.num_chunks {
        Err(ConversionError::NumChunks)
    } else if vk.max_proofs_verified.width() != source.max_proofs_verified {
        Err(ConversionError::MaxProofsVerified)
    } else if source.override_wrap_domain matches Some(domain) && domain
        != vk.actual_wrap_domain_size.width() {
        Err(ConversionError::WrapDomainOverride)
    } else {
        Ok(())
    }
}

/// Checks a converted proof and key against the source fixture they were
/// converted from.
pub fn check_conversion(
    source: &SourceEnvelope,
    proof: &PicklesProofPayload,
    vk: &PicklesVkPayload,
) -> (result: Result<(), ConversionError>)
    ensures
        result == spec_check_conversion(*source, *proof, *vk),
{
    let chunks = match validate_evaluation_chunks(
        &proof.prev_evals.public_input,
        &proof.prev_evals.evals,
    ) {
        Ok(chunks) => chunks,
        Err(_) => {
            return Err(ConversionError::InconsistentChunks);
        },
    };
    if chunks != source.num_chunks as usize {
        return Err(ConversionError::NumChunks);
    }
    if vk.max_proofs_verified.as_usize() != source.max_proofs_verified as usize {
        return Err(ConversionError::MaxProofsVerified);
    }
    if let Some(domain) = source.override_wrap_domain {
        if domain as usize != vk.actual_wrap_domain_size.as_usize() {
            return Err(ConversionError::WrapDomainOverride);
        }
    }
    Ok(())
}

} // verus!
