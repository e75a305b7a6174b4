//! The orders in which the wrap public input combines and absorbs the step
//! evaluations, and the statement values it encodes directly.

use vstd::prelude::*;

use crate::format::{BranchData, FeatureFlags, PointEvaluations, ProofEvaluations, ProofsVerified};
use crate::profile::{
    deref_all, opt_seq, push_each, push_one, push_opt, spec_all_evaluations, uses_lookup,
};

verus! {

/// The fixed evaluations, in transcript order: the permutation polynomial,
/// the six fixed selectors, then the witness columns, the coefficients and
/// the permutation shifts.
pub open spec fn fixed_sequence(e: ProofEvaluations) -> Seq<PointEvaluations> {
    seq![
        e.z,
        e.generic_selector,
        e.poseidon_selector,
        e.complete_add_selector,
        e.mul_selector,
        e.emul_selector,
        e.endomul_scalar_selector,
    ] + e.w@ + e.coefficients@ + e.s@
}

/// The optional gate selectors that are present.
pub open spec fn gate_selectors(e: ProofEvaluations) -> Seq<PointEvaluations> {
    opt_seq(e.range_check0_selector) + opt_seq(e.range_check1_selector) + opt_seq(
        e.foreign_field_add_selector,
    ) + opt_seq(e.foreign_field_mul_selector) + opt_seq(e.xor_selector) + opt_seq(e.rot_selector)
}

/// The sorted lookup evaluations that are present.
pub open spec fn sorted_lookups(e: ProofEvaluations) -> Seq<PointEvaluations> {
    opt_seq(e.lookup_sorted[0]) + opt_seq(e.lookup_sorted[1]) + opt_seq(e.lookup_sorted[2])
        + opt_seq(e.lookup_sorted[3]) + opt_seq(e.lookup_sorted[4])
}

/// The aggregation and table evaluations that are present.
pub open spec fn lookup_tables(e: ProofEvaluations) -> Seq<PointEvaluations> {
    opt_seq(e.lookup_aggregation) + opt_seq(e.lookup_table)
}

/// The runtime-table and lookup-selector evaluations that are present.
pub open spec fn lookup_selectors(e: ProofEvaluations) -> Seq<PointEvaluations> {
    opt_seq(e.runtime_lookup_table) + opt_seq(e.runtime_lookup_table_selector) + opt_seq(
        e.xor_lookup_selector,
    ) + opt_seq(e.lookup_gate_lookup_selector) + opt_seq(e.range_check_lookup_selector) + opt_seq(
        e.foreign_field_mul_lookup_selector,
    )
}

/// The order in which the combined inner product takes the evaluations.
pub open spec fn spec_evaluation_sequence(e: ProofEvaluations) -> Seq<PointEvaluations> {
    fixed_sequence(e) + gate_selectors(e) + sorted_lookups(e) + lookup_tables(e)
        + lookup_selectors(e)
}

/// The order in which the Fiat-Shamir sponge absorbs the evaluations: like
/// the combined inner product, except that the aggregation and table
/// evaluations come before the sorted ones.
pub open spec fn spec_absorption_sequence(e: ProofEvaluations) -> Seq<PointEvaluations> {
    fixed_sequence(e) + gate_selectors(e) + lookup_tables(e) + sorted_lookups(e)
        + lookup_selectors(e)
}

/// Appends the fixed evaluations in transcript order.
fn push_fixed<'a>(out: &mut Vec<&'a PointEvaluations>, e: &'a ProofEvaluations)
    ensures
        deref_all(final(out)@) == deref_all(old(out)@) + fixed_sequence(*e),
{
    let ghost start = deref_all(out@);
    push_one(out, &e.z);
    push_one(out, &e.generic_selector);
    push_one(out, &e.poseidon_selector);
    push_one(out, &e.complete_add_selector);
    push_one(out, &e.mul_selector);
    push_one(out, &e.emul_selector);
    push_one(out, &e.endomul_scalar_selector);
    let ghost selectors = deref_all(out@);
    assert(selectors =~= start + seq![
        e.z,
        e.generic_selector,
        e.poseidon_selector,
        e.complete_add_selector,
        e.mul_selector,
        e.emul_selector,
        e.endomul_scalar_selector,
    ]);
    push_each(out, e.w.as_slice());
    push_each(out, e.coefficients.as_slice());
    push_each(out, e.s.as_slice());
    assert(deref_all(out@) =~= start + fixed_sequence(*e));
}

/// Appends the present gate selectors.
fn push_gate_selectors<'a>(out: &mut Vec<&'a PointEvaluations>, e: &'a ProofEvaluations)
    ensures
        deref_all(final(out)@) == deref_all(old(out)@) + gate_selectors(*e),
{
    let ghost start = deref_all(out@);
    push_opt(out, &e.range_check0_selector);
    push_opt(out, &e.range_check1_selector);
    push_opt(out, &e.foreign_field_add_selector);
    push_opt(out, &e.foreign_field_mul_selector);
    push_opt(out, &e.xor_selector);
    push_opt(out, &e.rot_selector);
    assert(deref_all(out@) =~= start + gate_selectors(*e));
}

/// Appends the present sorted lookup evaluations.
fn push_sorted<'a>(out: &mut Vec<&'a PointEvaluations>, e: &'a ProofEvaluations)
    ensures
        deref_all(final(out)@) == deref_all(old(out)@) + sorted_lookups(*e),
{
    let ghost start = deref_all(out@);
    push_opt(out, &e.lookup_sorted[0]);
    push_opt(out, &e.lookup_sorted[1]);
    push_opt(out, &e.lookup_sorted[2]);
    push_opt(out, &e.lookup_sorted[3]);
    push_opt(out, &e.lookup_sorted[4]);
    assert(deref_all(out@) =~= start + sorted_lookups(*e));
}

/// Appends the present aggregation and table evaluations.
fn push_tables<'a>(out: &mut Vec<&'a PointEvaluations>, e: &'a ProofEvaluations)
    ensures
        deref_all(final(out)@) == deref_all(old(out)@) + lookup_tables(*e),
{
    let ghost start = deref_all(out@);
    push_opt(out, &e.lookup_aggregation);
    push_opt(out, &e.lookup_table);
    assert(deref_all(out@) =~= start + lookup_tables(*e));
}

/// Appends the present runtime-table and lookup-selector evaluations.
fn push_lookup_selectors<'a>(out: &mut Vec<&'a PointEvaluations>, e: &'a ProofEvaluations)
    ensures
        deref_all(final(out)@) == deref_all(old(out)@) + lookup_selectors(*e),
{
    let ghost start = deref_all(out@);
    push_opt(out, &e.runtime_lookup_table);
    push_opt(out, &e.runtime_lookup_table_selector);
    push_opt(out, &e.xor_lookup_selector);
    push_opt(out, &e.lookup_gate_lookup_selector);
    push_opt(out, &e.range_check_lookup_selector);
    push_opt(out, &e.foreign_field_mul_lookup_selector);
    assert(deref_all(out@) =~= start + lookup_selectors(*e));
}

/// The evaluations in the order in which the combined inner product takes
/// them.
pub fn evaluation_sequence(evals: &ProofEvaluations) -> (sequence: Vec<&PointEvaluations>)
    ensures
        deref_all(sequence@) == spec_evaluation_sequence(*evals),
{
    let mut sequence: Vec<&PointEvaluations> = Vec::new();
    assert(deref_all(sequence@) =~= Seq::<PointEvaluations>::empty());
    push_fixed(&mut sequence, evals);
    push_gate_selectors(&mut sequence, evals);
    push_sorted(&mut sequence, evals);
    push_tables(&mut sequence, evals);
    push_lookup_selectors(&mut sequence, evals);
    assert(deref_all(sequence@) =~= spec_evaluation_sequence(*evals));
    sequence
}

/// The evaluations in the order in which the sponge absorbs them.
pub fn absorption_sequence(evals: &ProofEvaluations) -> (sequence: Vec<&PointEvaluations>)
    ensures
        deref_all(sequence@) == spec_absorption_sequence(*evals),
{
    let mut sequence: Vec<&PointEvaluations> = Vec::new();
    assert(deref_all(sequence@) =~= Seq::<PointEvaluations>::empty());
    push_fixed(&mut sequence, evals);
    push_gate_selectors(&mut sequence, evals);
    push_tables(&mut sequence, evals);
    push_sorted(&mut sequence, evals);
    push_lookup_selectors(&mut sequence, evals);
    assert(deref_all(sequence@) =~= spec_absorption_sequence(*evals));
    sequence
}

/// The combined inner product and the sponge both take every evaluation that
/// the profile checks, each exactly once: the three orders are permutations
/// of one another.
pub proof fn lemma_sequences_are_permutations(evals: ProofEvaluations)
    ensures
        spec_evaluation_sequence(evals).to_multiset() == spec_all_evaluations(evals).to_multiset(),
        spec_absorption_sequence(evals).to_multiset() == spec_all_evaluations(evals).to_multiset(),
{
    let e = evals;
    let z = seq![e.z];
    let six = seq![
        e.generic_selector,
        e.poseidon_selector,
        e.complete_add_selector,
        e.mul_selector,
        e.emul_selector,
        e.endomul_scalar_selector,
    ];
    lemma_all_order(e);
    lemma_transcript_orders(e);
    lemma_reordered_parts(
        e.w@,
        e.coefficients@,
        z,
        e.s@,
        six,
        gate_selectors(e),
        lookup_tables(e),
        sorted_lookups(e),
        lookup_selectors(e),
    );
}

/// How many of the first `i` optional slots hold an evaluation: the place of
/// slot `i` among the present ones.
pub open spec fn present_before(slots: Seq<Option<PointEvaluations>>, i: int) -> int
    decreases i,
{
    if i <= 0 {
        0
    } else {
        present_before(slots, i - 1) + if slots[i - 1] is Some {
            1int
        } else {
            0int
        }
    }
}

/// Five optional slots, laid out one after another between `before` and
/// `after`: each present slot stands at its place among the present ones.
proof fn lemma_slot_block_positions(
    slots: Seq<Option<PointEvaluations>>,
    before: Seq<PointEvaluations>,
    after: Seq<PointEvaluations>,
)
    requires
        slots.len() == 5,
    ensures
        forall|i: int|
            0 <= i < 5 && (#[trigger] slots[i]) is Some ==> (before + (opt_seq(slots[0]) + opt_seq(
                slots[1],
            ) + opt_seq(slots[2]) + opt_seq(slots[3]) + opt_seq(slots[4])) + after)[before.len()
                + present_before(slots, i)] == slots[i].unwrap(),
{
    reveal_with_fuel(present_before, 6);
    let o0 = opt_seq(slots[0]);
    let o1 = opt_seq(slots[1]);
    let o2 = opt_seq(slots[2]);
    let o3 = opt_seq(slots[3]);
    let o4 = opt_seq(slots[4]);
    let whole = before + (o0 + o1 + o2 + o3 + o4) + after;
    let b = before.len() as int;
    assert(whole =~= before + o0 + o1 + o2 + o3 + o4 + after);
    assert forall|i: int| 0 <= i < 5 && (#[trigger] slots[i]) is Some implies whole[b
        + present_before(slots, i)] == slots[i].unwrap() by {
        if i == 0 {
            assert(whole[b] == o0[0]);
        } else if i == 1 {
            assert(whole[b + o0.len()] == o1[0]);
        } else if i == 2 {
            assert(whole[b + o0.len() + o1.len()] == o2[0]);
        } else if i == 3 {
            assert(whole[b + o0.len() + o1.len() + o2.len()] == o3[0]);
        } else {
            assert(whole[b + o0.len() + o1.len() + o2.len() + o3.len()] == o4[0]);
        }
    }
}

/// Both transcript orders, and the profile's order, take the sorted lookup
/// evaluations in index order as one block: each present sorted evaluation
/// stands as many places into the block as there are present sorted
/// evaluations before it, so a lower index always comes first. In the
/// combined inner product the block follows the optional gate selectors;
/// in the sponge and in the profile it follows the aggregation and table
/// evaluations.
pub proof fn lemma_sorted_lookups_in_index_order(evals: ProofEvaluations)
    ensures
        forall|i: int, j: int|
            0 <= i < j <= 5 && evals.lookup_sorted@[i] is Some ==> #[trigger] present_before(
                evals.lookup_sorted@,
                i,
            ) < #[trigger] present_before(evals.lookup_sorted@, j),
        forall|i: int|
            0 <= i < 5 && (#[trigger] evals.lookup_sorted@[i]) is Some ==> {
                let place = present_before(evals.lookup_sorted@, i);
                let opened = fixed_sequence(evals).len() + gate_selectors(evals).len();
                let profiled = evals.w@.len() + evals.coefficients@.len() + 1 + evals.s@.len() + 6
                    + gate_selectors(evals).len() + lookup_tables(evals).len();
                &&& spec_evaluation_sequence(evals)[opened + place]
                    == evals.lookup_sorted@[i].unwrap()
                &&& spec_absorption_sequence(evals)[opened + lookup_tables(evals).len() + place]
                    == evals.lookup_sorted@[i].unwrap()
                &&& spec_all_evaluations(evals)[profiled + place]
                    == evals.lookup_sorted@[i].unwrap()
            },
{
    let slots = evals.lookup_sorted@;
    assert forall|i: int, j: int|
        0 <= i < j <= 5 && slots[i] is Some implies #[trigger] present_before(slots, i)
        < #[trigger] present_before(slots, j) by {
        lemma_present_before_grows(slots, i + 1, j);
    }
    let block = opt_seq(slots[0]) + opt_seq(slots[1]) + opt_seq(slots[2]) + opt_seq(slots[3])
        + opt_seq(slots[4]);
    assert(sorted_lookups(evals) =~= block);
    let fixed = fixed_sequence(evals) + gate_selectors(evals);
    assert(spec_evaluation_sequence(evals) =~= fixed + block + (lookup_tables(evals)
        + lookup_selectors(evals)));
    lemma_slot_block_positions(slots, fixed, lookup_tables(evals) + lookup_selectors(evals));
    let sponge_before = fixed + lookup_tables(evals);
    assert(spec_absorption_sequence(evals) =~= sponge_before + block + lookup_selectors(evals));
    lemma_slot_block_positions(slots, sponge_before, lookup_selectors(evals));
    lemma_all_order(evals);
    let profile_before = evals.w@ + evals.coefficients@ + seq![evals.z] + evals.s@ + seq![
        evals.generic_selector,
        evals.poseidon_selector,
        evals.complete_add_selector,
        evals.mul_selector,
        evals.emul_selector,
        evals.endomul_scalar_selector,
    ] + gate_selectors(evals) + lookup_tables(evals);
    assert(spec_all_evaluations(evals) =~= profile_before + block + lookup_selectors(evals));
    lemma_slot_block_positions(slots, profile_before, lookup_selectors(evals));
}

/// The count of present slots never falls.
proof fn lemma_present_before_grows(slots: Seq<Option<PointEvaluations>>, i: int, j: int)
    requires
        0 <= i <= j,
    ensures
        present_before(slots, i) <= present_before(slots, j),
    decreases j - i,
{
    if i < j {
        lemma_present_before_grows(slots, i, j - 1);
    }
}

/// The profile's order, regrouped by part.
proof fn lemma_all_order(e: ProofEvaluations)
    ensures
        spec_all_evaluations(e) == e.w@ + e.coefficients@ + seq![e.z] + e.s@ + seq![
            e.generic_selector,
            e.poseidon_selector,
            e.complete_add_selector,
            e.mul_selector,
            e.emul_selector,
            e.endomul_scalar_selector,
        ] + gate_selectors(e) + lookup_tables(e) + sorted_lookups(e) + lookup_selectors(e),
{
    let base = e.w@ + e.coefficients@ + seq![e.z] + e.s@ + seq![
        e.generic_selector,
        e.poseidon_selector,
        e.complete_add_selector,
        e.mul_selector,
        e.emul_selector,
        e.endomul_scalar_selector,
    ];
    lemma_chain6(
        base,
        opt_seq(e.range_check0_selector),
        opt_seq(e.range_check1_selector),
        opt_seq(e.foreign_field_add_selector),
        opt_seq(e.foreign_field_mul_selector),
        opt_seq(e.xor_selector),
        opt_seq(e.rot_selector),
    );
    let with_gates = base + gate_selectors(e);
    lemma_chain2(with_gates, opt_seq(e.lookup_aggregation), opt_seq(e.lookup_table));
    let with_tables = with_gates + lookup_tables(e);
    lemma_chain5(
        with_tables,
        opt_seq(e.lookup_sorted[0]),
        opt_seq(e.lookup_sorted[1]),
        opt_seq(e.lookup_sorted[2]),
        opt_seq(e.lookup_sorted[3]),
        opt_seq(e.lookup_sorted[4]),
    );
    let with_sorted = with_tables + sorted_lookups(e);
    lemma_chain6(
        with_sorted,
        opt_seq(e.runtime_lookup_table),
        opt_seq(e.runtime_lookup_table_selector),
        opt_seq(e.xor_lookup_selector),
        opt_seq(e.lookup_gate_lookup_selector),
        opt_seq(e.range_check_lookup_selector),
        opt_seq(e.foreign_field_mul_lookup_selector),
    );
}

/// Appending a two-part concatenation appends its parts.
proof fn lemma_chain2<A>(x: Seq<A>, a: Seq<A>, b: Seq<A>)
    ensures
        x + (a + b) == x + a + b,
{
    assert(x + (a + b) =~= x + a + b);
}

/// Appending a five-part concatenation appends its parts.
proof fn lemma_chain5<A>(x: Seq<A>, a: Seq<A>, b: Seq<A>, c: Seq<A>, d: Seq<A>, f: Seq<A>)
    ensures
        x + (a + b + c + d + f) == x + a + b + c + d + f,
{
    assert(x + (a + b + c + d + f) =~= x + a + b + c + d + f);
}

/// Appending a six-part concatenation appends its parts.
proof fn lemma_chain6<A>(
    x: Seq<A>,
    a: Seq<A>,
    b: Seq<A>,
    c: Seq<A>,
    d: Seq<A>,
    f: Seq<A>,
    g: Seq<A>,
)
    ensures
        x + (a + b + c + d + f + g) == x + a + b + c + d + f + g,
{
    assert(x + (a + b + c + d + f + g) =~= x + a + b + c + d + f + g);
}

/// The two transcript orders, regrouped by part.
proof fn lemma_transcript_orders(e: ProofEvaluations)
    ensures
        ({
            let z = seq![e.z];
            let six = seq![
                e.generic_selector,
                e.poseidon_selector,
                e.complete_add_selector,
                e.mul_selector,
                e.emul_selector,
                e.endomul_scalar_selector,
            ];
            &&& spec_absorption_sequence(e) == z + six + e.w@ + e.coefficients@ + e.s@
                + gate_selectors(e) + lookup_tables(e) + sorted_lookups(e) + lookup_selectors(e)
            &&& spec_evaluation_sequence(e) == z + six + e.w@ + e.coefficients@ + e.s@
                + gate_selectors(e) + sorted_lookups(e) + lookup_tables(e) + lookup_selectors(e)
        }),
{
    let z = seq![e.z];
    let six = seq![
        e.generic_selector,
        e.poseidon_selector,
        e.complete_add_selector,
        e.mul_selector,
        e.emul_selector,
        e.endomul_scalar_selector,
    ];
    assert(seq![
        e.z,
        e.generic_selector,
        e.poseidon_selector,
        e.complete_add_selector,
        e.mul_selector,
        e.emul_selector,
        e.endomul_scalar_selector,
    ] =~= z + six);
    assert(spec_absorption_sequence(e) =~= z + six + e.w@ + e.coefficients@ + e.s@
        + gate_selectors(e) + lookup_tables(e) + sorted_lookups(e) + lookup_selectors(e));
    assert(spec_evaluation_sequence(e) =~= z + six + e.w@ + e.coefficients@ + e.s@
        + gate_selectors(e) + sorted_lookups(e) + lookup_tables(e) + lookup_selectors(e));
}

/// Reordering the parts of a concatenation keeps its multiset.
proof fn lemma_reordered_parts<A>(
    w: Seq<A>,
    c: Seq<A>,
    z: Seq<A>,
    sh: Seq<A>,
    six: Seq<A>,
    g: Seq<A>,
    t: Seq<A>,
    l: Seq<A>,
    r: Seq<A>,
)
    ensures
        (z + six + w + c + sh + g + t + l + r).to_multiset() == (w + c + z + sh + six + g + t + l
            + r).to_multiset(),
        (z + six + w + c + sh + g + l + t + r).to_multiset() == (w + c + z + sh + six + g + t + l
            + r).to_multiset(),
{
    lemma_ms9(w, c, z, sh, six, g, t, l, r);
    lemma_ms9(z, six, w, c, sh, g, t, l, r);
    lemma_ms9(z, six, w, c, sh, g, l, t, r);
    broadcast use vstd::multiset::group_multiset_axioms;

    assert((z + six + w + c + sh + g + t + l + r).to_multiset() =~= (w + c + z + sh + six + g + t
        + l + r).to_multiset());
    assert((z + six + w + c + sh + g + l + t + r).to_multiset() =~= (w + c + z + sh + six + g + t
        + l + r).to_multiset());
}

/// The multiset of a nine-part concatenation is the sum of the parts'.
proof fn lemma_ms9<A>(
    a: Seq<A>,
    b: Seq<A>,
    c: Seq<A>,
    d: Seq<A>,
    e: Seq<A>,
    f: Seq<A>,
    g: Seq<A>,
    h: Seq<A>,
    i: Seq<A>,
)
    ensures
        (a + b + c + d + e + f + g + h + i).to_multiset() == a.to_multiset().add(b.to_multiset()).add(
            c.to_multiset(),
        ).add(d.to_multiset()).add(e.to_multiset()).add(f.to_multiset()).add(g.to_multiset()).add(
            h.to_multiset(),
        ).add(i.to_multiset()),
{
    vstd::seq_lib::lemma_multiset_commutative(a, b);
    vstd::seq_lib::lemma_multiset_commutative(a + b, c);
    vstd::seq_lib::lemma_multiset_commutative(a + b + c, d);
    vstd::seq_lib::lemma_multiset_commutative(a + b + c + d, e);
    vstd::seq_lib::lemma_multiset_commutative(a + b + c + d + e, f);
    vstd::seq_lib::lemma_multiset_commutative(a + b + c + d + e + f, g);
    vstd::seq_lib::lemma_multiset_commutative(a + b + c + d + e + f + g, h);
    vstd::seq_lib::lemma_multiset_commutative(a + b + c + d + e + f + g + h, i);
}

/// The wrap public input's encoding of the branch: the step domain shifted
/// past two bits that record the recursion width (`00`, `10`, `11`).
pub open spec fn spec_branch_encoding(branch: BranchData) -> nat {
    (branch.domain_log2 as nat) * 4 + match branch.proofs_verified {
        ProofsVerified::N0 => 0nat,
        ProofsVerified::N1 => 2nat,
        ProofsVerified::N2 => 3nat,
    }
}

/// Encodes the branch data as one field of the wrap public input.
pub fn branch_encoding(branch: BranchData) -> (encoded: u64)
    ensures
        encoded == spec_branch_encoding(branch),
{
    let proof_bits: u64 = match branch.proofs_verified {
        ProofsVerified::N0 => 0,
        ProofsVerified::N1 => 2,
        ProofsVerified::N2 => 3,
    };
    let domain = branch.domain_log2 as u64;
    let encoded = (domain << 2u64) | proof_bits;
    assert(encoded == domain * 4 + proof_bits) by (bit_vector)
        requires
            domain < 256,
            proof_bits < 4,
            encoded == (domain << 2u64) | proof_bits,
    ;
    encoded
}

/// The eight feature flags in the order in which the wrap public input
/// lists them.
pub fn feature_fields(flags: FeatureFlags) -> (fields: [bool; 8])
    ensures
        fields@ == seq![
            flags.range_check0,
            flags.range_check1,
            flags.foreign_field_add,
            flags.foreign_field_mul,
            flags.xor,
            flags.rot,
            flags.lookup,
            flags.runtime_tables,
        ],
{
    let fields = [
        flags.range_check0,
        flags.range_check1,
        flags.foreign_field_add,
        flags.foreign_field_mul,
        flags.xor,
        flags.rot,
        flags.lookup,
        flags.runtime_tables,
    ];
    assert(fields@ =~= seq![
        flags.range_check0,
        flags.range_check1,
        flags.foreign_field_add,
        flags.foreign_field_mul,
        flags.xor,
        flags.rot,
        flags.lookup,
        flags.runtime_tables,
    ]);
    fields
}

/// Whether the statement uses lookups, which the wrap public input records
/// and which decides whether a joint combiner is committed.
pub fn statement_uses_lookup(flags: FeatureFlags) -> (uses: bool)
    ensures
        uses == uses_lookup(flags),
{
    flags.range_check0 || flags.range_check1 || flags.foreign_field_mul || flags.xor || flags.rot
        || flags.lookup
}

} // verus!
