# pickles_verifier

Verified logic of the zkVerify Pickles and Kimchi verifiers: what a proof
request, a verification key or a cached parameter set must satisfy, the
values that Pickles reconstructs from a step proof and hands to the outer
verifier, and how the outcomes of the cryptographic steps are reported. The
Poseidon sponge, Kimchi's domain values and gate expressions, the IPA and
accumulator checks and the Kimchi verifier itself are supplied by the
runtime through the traits in `app/`.
Every function in `src/` is proved with Verus against its contract; the
Pasta field and curve operations, the step domain's generator, BLAKE2b,
SHA-256 and SCALE come from `ark-pallas`, `ark-vesta`, `ark-serialize`,
`ark-poly`, `blake2`, `sha2` and `parity-scale-codec` through small wrappers
whose contracts state what those crates do.

## Layout

- `src/format.rs`: the canonical `PicklesV1` payload types.
- `src/pasta.rs`: field and point encodings, modular arithmetic in both Pasta
  base fields.
- `src/profile.rs`: the `PicklesV1` profile on keys and proofs.
- `src/pickles.rs`: the Pickles verifier: request bounds, statement checks,
  the statement seed, and the verdict on the cryptographic outcomes.
- `src/transcript.rs`, `src/challenge.rs`, `src/deferred.rs`,
  `src/permutation.rs`, `src/expand.rs`, `src/wrap_input.rs`: the transcript
  orders, scalar challenges, the deferred step-field values and their
  reconstruction around the sponge, and the 40-field wrap public input.
- `src/messages.rs`, `src/outer.rs`: the recursion messages, the accumulator
  inputs and the conversion checks of the outer wrap proof.
- `src/kimchi.rs`: the `Vesta16` Kimchi shape profile, pinned parameter
  digests and the Kimchi verifier's bounds.
- `src/pallas15.rs`: the authenticated Pallas Lagrange-prefix cache.
- `src/weights.rs`, `src/fixture.rs` (fixture envelopes and conversion checks), `src/scale.rs`, `src/digest.rs`:
  weights, fixture envelopes, SCALE encodings and BLAKE2b messages.
- `app/`: the runtime glue: bincode and serde decoding, file I/O for the
  cache, and the cryptographic back ends behind traits.
- `tests/`: tests of the library on concrete values.
