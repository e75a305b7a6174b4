//! Step-field arithmetic of the deferred Pickles values: chunked
//! evaluations combined by Horner's rule, repeated squaring, the challenge
//! polynomials of bulletproof challenges, and the combined inner product of
//! all evaluations that the wrap proof opens.

use vstd::prelude::*;

use crate::format::{FieldBytes, PointEvaluations, ProofEvaluations};
use crate::pasta::{
    byte_field, decodes_pallas_base, is_canonical_pallas_base, le_value, pallas_base_add,
    pallas_base_modulus, pallas_base_mul,
};
use crate::pickles::PreparedError;
use crate::profile::deref_all;
use crate::transcript::{evaluation_sequence, spec_evaluation_sequence};

verus! {

broadcast use vstd::arithmetic::div_mod::lemma_mod_twice;

/// Addition in the step field, on the integers that encodings hold.
pub open spec fn fadd(a: int, b: int) -> int {
    (a + b) % (pallas_base_modulus() as int)
}

/// Subtraction in the step field.
pub open spec fn fsub(a: int, b: int) -> int {
    (a - b) % (pallas_base_modulus() as int)
}

/// Multiplication in the step field.
pub open spec fn fmul(a: int, b: int) -> int {
    (a * b) % (pallas_base_modulus() as int)
}

/// The integers that a sequence of encodings holds.
pub open spec fn values_of(fields: Seq<FieldBytes>) -> Seq<nat> {
    fields.map_values(|field: FieldBytes| le_value(field@))
}

/// Every encoding of the sequence is a step-field element.
pub open spec fn all_step_fields(fields: Seq<FieldBytes>) -> bool {
    forall|i: int| 0 <= i < fields.len() ==> #[trigger] is_canonical_pallas_base(fields[i]@)
}

/// `values[0] + x * values[1] + x^2 * values[2] + ...` in the step field,
/// written as Horner's rule.
pub open spec fn horner(values: Seq<nat>, x: nat) -> nat
    decreases values.len(),
{
    if values.len() == 0 {
        0
    } else {
        (values[0] + x * horner(values.drop_first(), x)) % pallas_base_modulus()
    }
}

/// Combines chunked evaluations: the sum of `values[i] * point^i`, by
/// Horner's rule from the last chunk; zero when there are none.
pub fn combine_chunks(values: &[FieldBytes], point: &FieldBytes) -> (combined: FieldBytes)
    requires
        all_step_fields(values@),
        is_canonical_pallas_base(point@),
    ensures
        is_canonical_pallas_base(combined@),
        le_value(combined@) == horner(values_of(values@), le_value(point@)),
{
    let n = values.len();
    if n == 0 {
        return byte_field(0);
    }
    let ghost p = pallas_base_modulus();
    let ghost x = le_value(point@);
    let mut acc = values[n - 1];
    let mut i = n - 1;
    proof {
        let last = values_of(values@).subrange(n - 1, n as int);
        assert(is_canonical_pallas_base(values@[n - 1]@));
        assert(last.drop_first() =~= Seq::<nat>::empty());
        assert(horner(last.drop_first(), x) == 0);
        assert(last.len() == 1);
        assert(horner(last, x) == (last[0] + x * horner(last.drop_first(), x)) % p);
        assert(x * 0 == 0);
        assert(last[0] == le_value(values@[n - 1]@));
        vstd::arithmetic::div_mod::lemma_small_mod(le_value(values@[n - 1]@), p);
        assert(horner(last, x) == le_value(values@[n - 1]@));
    }
    while i > 0
        invariant
            0 <= i < n,
            n == values@.len(),
            all_step_fields(values@),
            is_canonical_pallas_base(point@),
            x == le_value(point@),
            p == pallas_base_modulus(),
            is_canonical_pallas_base(acc@),
            le_value(acc@) == horner(values_of(values@).subrange(i as int, n as int), x),
        decreases i,
    {
        i = i - 1;
        assert(is_canonical_pallas_base(values@[i as int]@));
        let scaled = pallas_base_mul(point, &acc);
        acc = pallas_base_add(&values[i], &scaled);
        proof {
            let rest = values_of(values@).subrange(i + 1, n as int);
            let here = values_of(values@).subrange(i as int, n as int);
            assert(here.drop_first() =~= rest);
            assert(here[0] == le_value(values@[i as int]@));
            vstd::arithmetic::div_mod::lemma_add_mod_noop_right(
                le_value(values@[i as int]@) as int,
                (x * horner(rest, x)) as int,
                p as int,
            );
        }
    }
    assert(values_of(values@).subrange(0, n as int) =~= values_of(values@));
    acc
}

/// `value^(2^count)`.
pub open spec fn square_power(value: nat, count: nat) -> nat
    decreases count,
{
    if count == 0 {
        value % pallas_base_modulus()
    } else {
        let half = square_power(value, (count - 1) as nat);
        (half * half) % pallas_base_modulus()
    }
}

/// Squares `value` `count` times.
pub fn square_n(value: &FieldBytes, count: u64) -> (power: FieldBytes)
    requires
        is_canonical_pallas_base(value@),
    ensures
        is_canonical_pallas_base(power@),
        le_value(power@) == square_power(le_value(value@), count as nat),
{
    let mut power = *value;
    let mut k: u64 = 0;
    proof {
        vstd::arithmetic::div_mod::lemma_small_mod(le_value(value@), pallas_base_modulus());
    }
    while k < count
        invariant
            k <= count,
            is_canonical_pallas_base(value@),
            is_canonical_pallas_base(power@),
            le_value(power@) == square_power(le_value(value@), k as nat),
        decreases count - k,
    {
        power = pallas_base_mul(&power, &power);
        k = k + 1;
    }
    power
}

// ---------------------------------------------------------------------------
// Challenge polynomials
// ---------------------------------------------------------------------------

/// Factor `i` of the challenge polynomial of `chals` at `x`:
/// `1 + chals[i] * x^(2^(k - 1 - i))`, `k` being the number of challenges.
pub open spec fn b_poly_factor(chals: Seq<nat>, x: nat, i: int) -> int {
    fadd(1, fmul(chals[i] as int, square_power(x, (chals.len() - 1 - i) as nat) as int))
}

/// The product of the first `count` factors, from one.
pub open spec fn b_poly_prefix(chals: Seq<nat>, x: nat, count: nat) -> int
    decreases count,
{
    if count == 0 {
        1
    } else {
        fmul(b_poly_prefix(chals, x, (count - 1) as nat), b_poly_factor(chals, x, count - 1))
    }
}

/// The challenge polynomial of `chals` at `x`, the product of all its
/// factors: `(1 + c_0 x^(2^(k-1))) (1 + c_1 x^(2^(k-2))) ... (1 + c_(k-1) x)`.
pub open spec fn b_poly_value(chals: Seq<nat>, x: nat) -> int {
    b_poly_prefix(chals, x, chals.len())
}

/// Evaluates the challenge polynomial of `chals` at `x`: the powers
/// `x^(2^j)` by repeated squaring, then the product of the factors.
pub fn b_poly(chals: &[FieldBytes], x: &FieldBytes) -> (value: FieldBytes)
    requires
        all_step_fields(chals@),
        is_canonical_pallas_base(x@),
    ensures
        is_canonical_pallas_base(value@),
        le_value(value@) == b_poly_value(values_of(chals@), le_value(x@)),
{
    let k = chals.len();
    let ghost cs = values_of(chals@);
    let ghost xv = le_value(x@);
    let mut powers: Vec<FieldBytes> = Vec::new();
    let mut power = *x;
    proof {
        vstd::arithmetic::div_mod::lemma_small_mod(xv, pallas_base_modulus());
    }
    let mut j: usize = 0;
    while j < k
        invariant
            j <= k,
            k == chals@.len(),
            xv == le_value(x@),
            powers@.len() == j,
            is_canonical_pallas_base(power@),
            le_value(power@) == square_power(xv, j as nat),
            forall|t: int|
                0 <= t < j ==> is_canonical_pallas_base(powers@[t]@) && le_value(
                    (#[trigger] powers@[t])@,
                ) == square_power(xv, t as nat),
        decreases k - j,
    {
        powers.push(power);
        power = pallas_base_mul(&power, &power);
        j = j + 1;
    }
    let one = byte_field(1);
    let mut acc = one;
    let mut i: usize = 0;
    while i < k
        invariant
            i <= k,
            k == chals@.len(),
            cs == values_of(chals@),
            xv == le_value(x@),
            all_step_fields(chals@),
            le_value(one@) == 1,
            is_canonical_pallas_base(one@),
            powers@.len() == k,
            forall|t: int|
                0 <= t < k ==> is_canonical_pallas_base(powers@[t]@) && le_value(
                    (#[trigger] powers@[t])@,
                ) == square_power(xv, t as nat),
            is_canonical_pallas_base(acc@),
            le_value(acc@) == b_poly_prefix(cs, xv, i as nat),
        decreases k - i,
    {
        assert(is_canonical_pallas_base(chals@[i as int]@));
        assert(is_canonical_pallas_base(powers@[k - 1 - i]@));
        let term = pallas_base_mul(&chals[i], &powers[k - 1 - i]);
        let factor = pallas_base_add(&one, &term);
        acc = pallas_base_mul(&acc, &factor);
        assert(cs[i as int] == le_value(chals@[i as int]@));
        i = i + 1;
    }
    acc
}

/// The challenge polynomial of each set of challenges at `point`.
pub fn challenge_polynomials_at(sets: &Vec<[FieldBytes; 16]>, point: &FieldBytes) -> (values: Vec<
    FieldBytes,
>)
    requires
        forall|i: int| 0 <= i < sets@.len() ==> all_step_fields((#[trigger] sets@[i])@),
        is_canonical_pallas_base(point@),
    ensures
        values@.len() == sets@.len(),
        all_step_fields(values@),
        forall|i: int|
            0 <= i < sets@.len() ==> le_value((#[trigger] values@[i])@) == b_poly_value(
                values_of(sets@[i]@),
                le_value(point@),
            ),
{
    let mut values: Vec<FieldBytes> = Vec::new();
    let mut i: usize = 0;
    while i < sets.len()
        invariant
            i <= sets@.len(),
            is_canonical_pallas_base(point@),
            forall|t: int| 0 <= t < sets@.len() ==> all_step_fields((#[trigger] sets@[t])@),
            values@.len() == i,
            forall|t: int| 0 <= t < i ==> is_canonical_pallas_base((#[trigger] values@[t])@),
            forall|t: int|
                0 <= t < i ==> le_value((#[trigger] values@[t])@) == b_poly_value(
                    values_of(sets@[t]@),
                    le_value(point@),
                ),
        decreases sets@.len() - i,
    {
        assert(all_step_fields(sets@[i as int]@));
        values.push(b_poly(sets[i].as_slice(), point));
        i = i + 1;
    }
    values
}

/// The `b` of the deferred values: the challenge polynomial of the
/// bulletproof challenges at `zeta`, plus `r` times it at `zeta * omega`.
pub fn deferred_b(
    chals: &[FieldBytes; 16],
    zeta: &FieldBytes,
    zeta_omega: &FieldBytes,
    r: &FieldBytes,
) -> (b: FieldBytes)
    requires
        all_step_fields(chals@),
        is_canonical_pallas_base(zeta@),
        is_canonical_pallas_base(zeta_omega@),
        is_canonical_pallas_base(r@),
    ensures
        is_canonical_pallas_base(b@),
        le_value(b@) == fadd(
            b_poly_value(values_of(chals@), le_value(zeta@)),
            fmul(le_value(r@) as int, b_poly_value(values_of(chals@), le_value(zeta_omega@))),
        ),
{
    let at_zeta = b_poly(chals.as_slice(), zeta);
    let at_zeta_omega = b_poly(chals.as_slice(), zeta_omega);
    let scaled = pallas_base_mul(r, &at_zeta_omega);
    pallas_base_add(&at_zeta, &scaled)
}

// ---------------------------------------------------------------------------
// The combined inner product
// ---------------------------------------------------------------------------

/// The chunks of each evaluation at one point (`zeta` when `at_zeta`,
/// `zeta * omega` otherwise), in order.
pub open spec fn chunks_at(evaluations: Seq<PointEvaluations>, at_zeta: bool) -> Seq<FieldBytes>
    decreases evaluations.len(),
{
    if evaluations.len() == 0 {
        Seq::empty()
    } else {
        chunks_at(evaluations.drop_last(), at_zeta) + if at_zeta {
            evaluations.last().zeta@
        } else {
            evaluations.last().zeta_omega@
        }
    }
}

/// The values that the combined inner product takes at one point: the old
/// challenge polynomials evaluated there, the public input's chunks, the
/// `ft` evaluation, then every chunk of every step evaluation in the order
/// of [`spec_evaluation_sequence`].
pub open spec fn inner_product_values(
    evals: ProofEvaluations,
    public: PointEvaluations,
    challenge_polys: Seq<FieldBytes>,
    ft: FieldBytes,
    at_zeta: bool,
) -> Seq<FieldBytes> {
    challenge_polys + (if at_zeta {
        public.zeta@
    } else {
        public.zeta_omega@
    }) + seq![ft] + chunks_at(spec_evaluation_sequence(evals), at_zeta)
}

/// Appends every field of `items`, in order.
pub(crate) fn append_fields(out: &mut Vec<FieldBytes>, items: &[FieldBytes])
    ensures
        final(out)@ == old(out)@ + items@,
{
    let ghost start = out@;
    let mut i: usize = 0;
    while i < items.len()
        invariant
            i <= items@.len(),
            out@ == start + items@.take(i as int),
        decreases items@.len() - i,
    {
        out.push(items[i]);
        assert(items@.take(i as int + 1) =~= items@.take(i as int).push(items@[i as int]));
        i = i + 1;
    }
    assert(items@.take(items@.len() as int) =~= items@);
}

/// The values that the combined inner product takes at one point.
fn collect_values(
    evals: &ProofEvaluations,
    public: &PointEvaluations,
    challenge_polys: &Vec<FieldBytes>,
    ft: &FieldBytes,
    at_zeta: bool,
) -> (values: Vec<FieldBytes>)
    ensures
        values@ == inner_product_values(*evals, *public, challenge_polys@, *ft, at_zeta),
{
    let mut values: Vec<FieldBytes> = Vec::new();
    append_fields(&mut values, challenge_polys.as_slice());
    if at_zeta {
        append_fields(&mut values, public.zeta.as_slice());
    } else {
        append_fields(&mut values, public.zeta_omega.as_slice());
    }
    values.push(*ft);
    let ghost head = values@;
    let sequence = evaluation_sequence(evals);
    let ghost spec_sequence = spec_evaluation_sequence(*evals);
    let mut j: usize = 0;
    while j < sequence.len()
        invariant
            j <= sequence@.len(),
            deref_all(sequence@) == spec_sequence,
            spec_sequence == spec_evaluation_sequence(*evals),
            values@ == head + chunks_at(spec_sequence.take(j as int), at_zeta),
        decreases sequence@.len() - j,
    {
        let evaluation = sequence[j];
        assert(*evaluation == spec_sequence[j as int]);
        if at_zeta {
            append_fields(&mut values, evaluation.zeta.as_slice());
        } else {
            append_fields(&mut values, evaluation.zeta_omega.as_slice());
        }
        assert(spec_sequence.take(j as int + 1).drop_last() =~= spec_sequence.take(j as int));
        assert(spec_sequence.take(j as int + 1).last() == spec_sequence[j as int]);
        assert(values@ =~= head + chunks_at(spec_sequence.take(j as int + 1), at_zeta));
        j = j + 1;
    }
    assert(spec_sequence.take(sequence@.len() as int) =~= spec_sequence);
    assert(deref_all(sequence@).len() == sequence@.len());
    values
}

/// Checks that every field is a step-field element.
fn all_decode(fields: &Vec<FieldBytes>) -> (ok: bool)
    ensures
        ok == all_step_fields(fields@),
{
    let mut i: usize = 0;
    while i < fields.len()
        invariant
            i <= fields@.len(),
            forall|j: int| 0 <= j < i ==> #[trigger] is_canonical_pallas_base(fields@[j]@),
        decreases fields@.len() - i,
    {
        if !decodes_pallas_base(&fields[i]) {
            return false;
        }
        i = i + 1;
    }
    true
}

/// The combined inner product that the step accumulator opens: the values
/// at `zeta` combined by powers of `xi`, plus `r` times the values at
/// `zeta * omega` combined the same way. `polys_at_zeta` and
/// `polys_at_zeta_omega` are the old challenge polynomials evaluated at the
/// two points. Fails when a value is not a step-field element.
pub fn combined_inner_product(
    evals: &ProofEvaluations,
    public: &PointEvaluations,
    polys_at_zeta: &Vec<FieldBytes>,
    polys_at_zeta_omega: &Vec<FieldBytes>,
    ft_eval0: &FieldBytes,
    ft_eval1: &FieldBytes,
    xi: &FieldBytes,
    r: &FieldBytes,
) -> (result: Result<FieldBytes, PreparedError>)
    requires
        is_canonical_pallas_base(xi@),
        is_canonical_pallas_base(r@),
    ensures
        ({
            let at_zeta = inner_product_values(*evals, *public, polys_at_zeta@, *ft_eval0, true);
            let at_zeta_omega = inner_product_values(
                *evals,
                *public,
                polys_at_zeta_omega@,
                *ft_eval1,
                false,
            );
            &&& result is Ok <==> all_step_fields(at_zeta) && all_step_fields(at_zeta_omega)
            &&& result matches Ok(value) ==> le_value(value@) == (horner(
                values_of(at_zeta),
                le_value(xi@),
            ) + le_value(r@) * horner(values_of(at_zeta_omega), le_value(xi@)))
                % pallas_base_modulus()
        }),
{
    let at_zeta = collect_values(evals, public, polys_at_zeta, ft_eval0, true);
    let at_zeta_omega = collect_values(evals, public, polys_at_zeta_omega, ft_eval1, false);
    if !all_decode(&at_zeta) || !all_decode(&at_zeta_omega) {
        return Err(PreparedError::Field);
    }
    let first = combine_chunks(at_zeta.as_slice(), xi);
    let second = combine_chunks(at_zeta_omega.as_slice(), xi);
    let scaled = pallas_base_mul(r, &second);
    let combined = pallas_base_add(&first, &scaled);
    proof {
        vstd::arithmetic::div_mod::lemma_add_mod_noop_right(
            le_value(first@) as int,
            (le_value(r@) * le_value(second@)) as int,
            pallas_base_modulus() as int,
        );
    }
    Ok(combined)
}

} // verus!
