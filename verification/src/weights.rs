//! Conservative dispatch weights of the Pickles and Kimchi verifiers.
//!
//! A weight has a reference-time part and a proof-size part; both add up
//! saturating at `u64::MAX`, and database accesses are charged per read and
//! per write.

use vstd::prelude::*;

verus! {

/// `a + b`, saturating at `u64::MAX`.
pub open spec fn sat_add(a: u64, b: u64) -> u64 {
    if a + b > u64::MAX {
        u64::MAX
    } else {
        (a + b) as u64
    }
}

/// `a * b`, saturating at `u64::MAX`.
pub open spec fn sat_mul(a: u64, b: u64) -> u64 {
    if a * b > u64::MAX {
        u64::MAX
    } else {
        (a * b) as u64
    }
}

/// `a * b`, saturating at `u64::MAX`.
fn saturating_mul(a: u64, b: u64) -> (product: u64)
    ensures
        product == sat_mul(a, b),
{
    match a.checked_mul(b) {
        Some(product) => product,
        None => u64::MAX,
    }
}

/// Reference time and proof size charged for an operation.
#[derive(Clone, Copy, Debug, PartialEq, Eq, Structural)]
pub struct Weight {
    pub ref_time: u64,
    pub proof_size: u64,
}

impl Weight {
    /// A weight of the given parts.
    pub fn from_parts(ref_time: u64, proof_size: u64) -> (weight: Weight)
        ensures
            weight == (Weight { ref_time, proof_size }),
    {
        Weight { ref_time, proof_size }
    }

    /// The sum of two weights, each part saturating.
    pub fn saturating_add(self, other: Weight) -> (sum: Weight)
        ensures
            sum == (Weight {
                ref_time: sat_add(self.ref_time, other.ref_time),
                proof_size: sat_add(self.proof_size, other.proof_size),
            }),
    {
        Weight {
            ref_time: self.ref_time.saturating_add(other.ref_time),
            proof_size: self.proof_size.saturating_add(other.proof_size),
        }
    }
}

/// The weight of one database read and of one database write.
#[derive(Clone, Copy, Debug, PartialEq, Eq, Structural)]
pub struct RuntimeDbWeight {
    pub read: u64,
    pub write: u64,
}

impl RuntimeDbWeight {
    /// The weight of `count` reads.
    pub fn reads(self, count: u64) -> (weight: Weight)
        ensures
            weight == (Weight { ref_time: sat_mul(self.read, count), proof_size: 0 }),
    {
        Weight::from_parts(saturating_mul(self.read, count), 0)
    }

    /// The weight of `count` writes.
    pub fn writes(self, count: u64) -> (weight: Weight)
        ensures
            weight == (Weight { ref_time: sat_mul(self.write, count), proof_size: 0 }),
    {
        Weight::from_parts(saturating_mul(self.write, count), 0)
    }
}

/// The Pickles verifier's deployment weights under a runtime's database
/// weights. `PicklesV1` has one fixed outer verifier and one fixed
/// accumulator check, so a single upper bound is charged.
#[derive(Clone, Copy, Debug, PartialEq, Eq, Structural)]
pub struct ZKVWeight {
    pub db: RuntimeDbWeight,
}

impl ZKVWeight {
    /// Verifying a proof.
    pub fn verify_proof(&self) -> (weight: Weight)
        ensures
            weight == (Weight { ref_time: 500_000_000_000, proof_size: 0 }),
    {
        Weight::from_parts(500_000_000_000, 0)
    }

    /// Reading a stored key: one database read.
    pub fn get_vk(&self) -> (weight: Weight)
        ensures
            weight == (Weight { ref_time: 5_000_000, proof_size: 7_120 }).spec_add(
                self.db.spec_reads(1),
            ),
    {
        Weight::from_parts(5_000_000, 7_120).saturating_add(self.db.reads(1))
    }

    /// Validating a key.
    pub fn validate_vk(&self) -> (weight: Weight)
        ensures
            weight == (Weight { ref_time: 100_000_000_000, proof_size: 0 }),
    {
        Weight::from_parts(100_000_000_000, 0)
    }

    /// Hashing a statement.
    pub fn compute_statement_hash(&self) -> (weight: Weight)
        ensures
            weight == (Weight { ref_time: 50_000_000, proof_size: 0 }),
    {
        Weight::from_parts(50_000_000, 0)
    }

    /// Registering a key: four reads and three writes.
    pub fn register_vk(&self) -> (weight: Weight)
        ensures
            weight == (Weight { ref_time: 100_100_000_000, proof_size: 7_120 }).spec_add(
                self.db.spec_reads(4),
            ).spec_add(self.db.spec_writes(3)),
    {
        Weight::from_parts(100_100_000_000, 7_120).saturating_add(self.db.reads(4)).saturating_add(
            self.db.writes(3),
        )
    }

    /// Unregistering a key: three reads and three writes.
    pub fn unregister_vk(&self) -> (weight: Weight)
        ensures
            weight == (Weight { ref_time: 35_000_000, proof_size: 7_120 }).spec_add(
                self.db.spec_reads(3),
            ).spec_add(self.db.spec_writes(3)),
    {
        Weight::from_parts(35_000_000, 7_120).saturating_add(self.db.reads(3)).saturating_add(
            self.db.writes(3),
        )
    }
}

impl Weight {
    /// The saturating sum of two weights.
    pub open spec fn spec_add(self, other: Weight) -> Weight {
        Weight {
            ref_time: sat_add(self.ref_time, other.ref_time),
            proof_size: sat_add(self.proof_size, other.proof_size),
        }
    }
}

impl RuntimeDbWeight {
    /// The weight of `count` reads.
    pub open spec fn spec_reads(self, count: u64) -> Weight {
        Weight { ref_time: sat_mul(self.read, count), proof_size: 0 }
    }

    /// The weight of `count` writes.
    pub open spec fn spec_writes(self, count: u64) -> Weight {
        Weight { ref_time: sat_mul(self.write, count), proof_size: 0 }
    }
}

/// Headroom, in percent, kept above the heaviest measured Kimchi shape for
/// accepted combinations of the remaining optional custom gates.
pub const CUSTOM_GATE_WEIGHT_MARGIN_PERCENT: u64 = 25;

/// The reference-time or the proof-size part of a weight.
pub open spec fn part(weight: Weight, ref_time: bool) -> u64 {
    if ref_time {
        weight.ref_time
    } else {
        weight.proof_size
    }
}

/// The largest of the parts of the measured weights.
pub open spec fn max_part(weights: Seq<Weight>, ref_time: bool) -> u64
    decreases weights.len(),
{
    if weights.len() == 0 {
        0
    } else {
        let rest = max_part(weights.drop_last(), ref_time);
        let last = part(weights.last(), ref_time);
        if last > rest {
            last
        } else {
            rest
        }
    }
}

/// The Kimchi weight charged for any supported proof: the componentwise
/// maximum of the measured shapes (domains 2^10, 2^11, 2^12 and 2^12 with 64
/// public inputs, then 2^16 with 64 public inputs, with three recursive
/// challenges, with lookups, and with XOR lookups), with the reference time
/// raised by the custom-gate margin.
pub fn verify_proof_max_supported(measured: &[Weight; 8]) -> (weight: Weight)
    ensures
        weight == (Weight {
            ref_time: sat_mul(
                max_part(measured@, true),
                (100 + CUSTOM_GATE_WEIGHT_MARGIN_PERCENT) as u64,
            ) / 100,
            proof_size: max_part(measured@, false),
        }),
{
    let mut max_ref: u64 = 0;
    let mut max_proof: u64 = 0;
    let mut i: usize = 0;
    while i < 8
        invariant
            i <= 8,
            max_ref == max_part(measured@.take(i as int), true),
            max_proof == max_part(measured@.take(i as int), false),
        decreases 8 - i,
    {
        assert(measured@.take(i as int + 1).drop_last() =~= measured@.take(i as int));
        let weight = measured[i];
        if weight.ref_time > max_ref {
            max_ref = weight.ref_time;
        }
        if weight.proof_size > max_proof {
            max_proof = weight.proof_size;
        }
        i = i + 1;
    }
    assert(measured@.take(8) =~= measured@);
    Weight::from_parts(
        saturating_mul(max_ref, 100 + CUSTOM_GATE_WEIGHT_MARGIN_PERCENT) / 100,
        max_proof,
    )
}

/// The largest part is one of the parts, and at least each of them.
proof fn lemma_max_part(measured: Seq<Weight>, ref_time: bool, i: int)
    requires
        0 <= i < measured.len(),
    ensures
        max_part(measured, ref_time) >= part(measured[i], ref_time),
        exists|j: int|
            0 <= j < measured.len() && max_part(measured, ref_time) == #[trigger] part(
                measured[j],
                ref_time,
            ),
    decreases measured.len(),
{
    let rest = measured.drop_last();
    let last = measured.len() - 1;
    if measured.len() > 1 {
        if i < last {
            lemma_max_part(rest, ref_time, i);
        } else {
            lemma_max_part(rest, ref_time, 0);
        }
        let j = choose|j: int|
            0 <= j < rest.len() && max_part(rest, ref_time) == #[trigger] part(rest[j], ref_time);
        assert(rest[j] == measured[j]);
        if max_part(measured, ref_time) == part(measured[last], ref_time) {
        } else {
            assert(max_part(measured, ref_time) == part(measured[j], ref_time));
        }
    } else {
        assert(rest.len() == 0);
        assert(max_part(rest, ref_time) == 0);
        assert(measured.last() == measured[0]);
        assert(max_part(measured, ref_time) == part(measured[0], ref_time));
    }
}

/// The charged Kimchi weight covers every measured shape: each part of the
/// result is at least the same part of each measured weight, the reference
/// time with its margin included, provided the margin does not saturate.
pub proof fn lemma_max_supported_covers_measured(measured: Seq<Weight>, i: int)
    requires
        0 <= i < measured.len(),
        forall|j: int|
            0 <= j < measured.len() ==> #[trigger] measured[j].ref_time * (100
                + CUSTOM_GATE_WEIGHT_MARGIN_PERCENT) <= u64::MAX,
    ensures
        max_part(measured, true) >= measured[i].ref_time,
        max_part(measured, false) >= measured[i].proof_size,
        sat_mul(max_part(measured, true), (100 + CUSTOM_GATE_WEIGHT_MARGIN_PERCENT) as u64) / 100
            >= measured[i].ref_time,
{
    lemma_max_part(measured, true, i);
    lemma_max_part(measured, false, i);
    let top = max_part(measured, true);
    let j = choose|j: int| 0 <= j < measured.len() && top == #[trigger] part(measured[j], true);
    assert(measured[j].ref_time * 125 <= u64::MAX);
    assert(sat_mul(top, 125) == (top * 125) as u64);
    assert((top * 125) / 100 >= top) by (nonlinear_arith);
}

} // verus!
