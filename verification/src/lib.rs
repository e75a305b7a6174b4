//! Structural validation of canonical o1js Pickles payloads and of the
//! fixed verifier parameters that the Kimchi and Pickles verifiers rely on.

pub mod fixture;
pub mod format;
pub mod pasta;
pub mod profile;
pub mod scale;
pub mod pickles;
pub mod challenge;
pub mod deferred;
pub mod expand;
pub mod digest;
pub mod kimchi;
pub mod messages;
pub mod outer;
pub mod pallas15;
pub mod permutation;
pub mod transcript;
pub mod weights;
pub mod wrap_input;
