//! The permutation argument's share of the deferred Pickles values: the
//! scalar `perm`, and the evaluation `ft_eval0` of the linearised quotient
//! at `zeta`, read from the step evaluations combined over their chunks.
//! What the step circuit's gates add to `ft_eval0` (its constant term), the
//! permutation's vanishing polynomial `zkp` and the root of unity `zk_w`
//! come from Kimchi's expressions and are taken as they are given.

use vstd::prelude::*;

use crate::deferred::{
    all_step_fields, combine_chunks, fadd, fmul, fsub, horner, square_n, square_power, values_of,
};
use crate::format::{FieldBytes, PointEvaluations, ProofEvaluations};
use crate::pasta::{
    byte_field, is_canonical_pallas_base, le_value, pallas_base_add, pallas_base_inverse,
    pallas_base_modulus, pallas_base_mul, pallas_base_sub,
};
use crate::pickles::PreparedError;

verus! {

/// The step evaluations that the permutation argument reads, each combined
/// over its chunks: the first seven witness columns and the six sigma
/// columns at `zeta`, and the permutation polynomial at `zeta` and at
/// `zeta * omega`.
#[derive(Clone, Copy, Debug, PartialEq, Eq)]
pub struct PermutationEvaluations {
    pub w: [FieldBytes; 7],
    pub s: [FieldBytes; 6],
    pub z: FieldBytes,
    pub z_omega: FieldBytes,
}

/// Every value of `e` is a step-field element.
pub open spec fn permutation_evaluations_canonical(e: PermutationEvaluations) -> bool {
    &&& all_step_fields(e.w@)
    &&& all_step_fields(e.s@)
    &&& is_canonical_pallas_base(e.z@)
    &&& is_canonical_pallas_base(e.z_omega@)
}

/// The integer that an encoding holds.
pub open spec fn val(field: FieldBytes) -> int {
    le_value(field@) as int
}

/// `init` multiplied in turn by each of `terms`.
pub open spec fn product_from(init: int, terms: Seq<int>) -> int
    decreases terms.len(),
{
    if terms.len() == 0 {
        init
    } else {
        fmul(product_from(init, terms.drop_last()), terms.last())
    }
}

// ---------------------------------------------------------------------------
// Combined evaluations
// ---------------------------------------------------------------------------

/// Both chunk vectors of `evaluation` hold step-field elements.
pub open spec fn chunks_canonical(evaluation: PointEvaluations) -> bool {
    all_step_fields(evaluation.zeta@) && all_step_fields(evaluation.zeta_omega@)
}

/// The chunks of `evaluation` at `zeta` combined by powers of `zeta^(2^16)`,
/// the step SRS having `2^16` points.
pub open spec fn combined_at_zeta(evaluation: PointEvaluations, zeta: nat) -> int {
    horner(values_of(evaluation.zeta@), square_power(zeta, 16)) as int
}

/// The chunks of `evaluation` at `zeta * omega`, combined by powers of
/// `(zeta * omega)^(2^16)`.
pub open spec fn combined_at_zeta_omega(evaluation: PointEvaluations, zeta_omega: nat) -> int {
    horner(values_of(evaluation.zeta_omega@), square_power(zeta_omega, 16)) as int
}

/// Combines the chunks of the step evaluations that the permutation
/// argument reads.
pub fn combined_permutation_evaluations(
    evals: &ProofEvaluations,
    zeta: &FieldBytes,
    zeta_omega: &FieldBytes,
) -> (combined: PermutationEvaluations)
    requires
        is_canonical_pallas_base(zeta@),
        is_canonical_pallas_base(zeta_omega@),
        forall|i: int| 0 <= i < 7 ==> #[trigger] chunks_canonical(evals.w[i]),
        forall|i: int| 0 <= i < 6 ==> #[trigger] chunks_canonical(evals.s[i]),
        chunks_canonical(evals.z),
    ensures
        permutation_evaluations_canonical(combined),
        forall|i: int|
            0 <= i < 7 ==> val(#[trigger] combined.w[i]) == combined_at_zeta(
                evals.w[i],
                le_value(zeta@),
            ),
        forall|i: int|
            0 <= i < 6 ==> val(#[trigger] combined.s[i]) == combined_at_zeta(
                evals.s[i],
                le_value(zeta@),
            ),
        val(combined.z) == combined_at_zeta(evals.z, le_value(zeta@)),
        val(combined.z_omega) == combined_at_zeta_omega(evals.z, le_value(zeta_omega@)),
{
    let zeta_n = square_n(zeta, 16);
    let zeta_omega_n = square_n(zeta_omega, 16);
    let zero = byte_field(0);
    let mut w: [FieldBytes; 7] = [zero; 7];
    let mut i: usize = 0;
    while i < 7
        invariant
            i <= 7,
            is_canonical_pallas_base(zeta_n@),
            le_value(zeta_n@) == square_power(le_value(zeta@), 16),
            forall|t: int| 0 <= t < 7 ==> #[trigger] chunks_canonical(evals.w[t]),
            forall|t: int|
                0 <= t < i ==> is_canonical_pallas_base((#[trigger] w[t])@) && val(w[t])
                    == combined_at_zeta(evals.w[t], le_value(zeta@)),
        decreases 7 - i,
    {
        assert(chunks_canonical(evals.w[i as int]));
        let value = combine_chunks(evals.w[i].zeta.as_slice(), &zeta_n);
        w.set(i, value);
        i = i + 1;
    }
    let mut s: [FieldBytes; 6] = [zero; 6];
    let mut j: usize = 0;
    while j < 6
        invariant
            j <= 6,
            is_canonical_pallas_base(zeta_n@),
            le_value(zeta_n@) == square_power(le_value(zeta@), 16),
            forall|t: int| 0 <= t < 6 ==> #[trigger] chunks_canonical(evals.s[t]),
            forall|t: int|
                0 <= t < j ==> is_canonical_pallas_base((#[trigger] s[t])@) && val(s[t])
                    == combined_at_zeta(evals.s[t], le_value(zeta@)),
        decreases 6 - j,
    {
        assert(chunks_canonical(evals.s[j as int]));
        let value = combine_chunks(evals.s[j].zeta.as_slice(), &zeta_n);
        s.set(j, value);
        j = j + 1;
    }
    let z = combine_chunks(evals.z.zeta.as_slice(), &zeta_n);
    let z_omega = combine_chunks(evals.z.zeta_omega.as_slice(), &zeta_omega_n);
    PermutationEvaluations { w, s, z, z_omega }
}

// ---------------------------------------------------------------------------
// The powers of alpha
// ---------------------------------------------------------------------------

/// `a^n` in the step field.
pub open spec fn fpow(a: int, n: nat) -> int
    decreases n,
{
    if n == 0 {
        1
    } else {
        fmul(fpow(a, (n - 1) as nat), a)
    }
}

/// The powers of `alpha` that the permutation argument uses: `alpha^21`,
/// `alpha^22` and `alpha^23`. Pickles keeps the lower powers for its gates,
/// whether or not the optional ones are enabled.
pub fn permutation_alphas(alpha: &FieldBytes) -> (alphas: [FieldBytes; 3])
    requires
        is_canonical_pallas_base(alpha@),
    ensures
        all_step_fields(alphas@),
        val(alphas[0]) == fpow(val(*alpha), 21),
        val(alphas[1]) == fpow(val(*alpha), 22),
        val(alphas[2]) == fpow(val(*alpha), 23),
{
    let mut power = byte_field(1);
    let mut n: u64 = 0;
    while n < 21
        invariant
            n <= 21,
            is_canonical_pallas_base(alpha@),
            is_canonical_pallas_base(power@),
            val(power) == fpow(val(*alpha), n as nat),
        decreases 21 - n,
    {
        power = pallas_base_mul(&power, alpha);
        n = n + 1;
    }
    let next = pallas_base_mul(&power, alpha);
    let last = pallas_base_mul(&next, alpha);
    assert(val(next) == fpow(val(*alpha), 22));
    assert(val(last) == fpow(val(*alpha), 23));
    let alphas = [power, next, last];
    assert(all_step_fields(alphas@)) by {
        assert forall|i: int| 0 <= i < 3 implies #[trigger] is_canonical_pallas_base(alphas@[i]@) by {
            if i == 0 {
            } else if i == 1 {
            } else {
            }
        }
    }
    alphas
}

// ---------------------------------------------------------------------------
// The permutation scalar
// ---------------------------------------------------------------------------

/// `gamma + beta * s_i + w_i` for each sigma column `i`.
pub open spec fn sigma_terms(e: PermutationEvaluations, beta: int, gamma: int) -> Seq<int> {
    Seq::new(6, |i: int| fadd(fadd(gamma, fmul(beta, val(e.s[i]))), val(e.w[i])))
}

/// `perm` of the deferred values:
/// `-(z(zeta * omega) * beta * alpha0 * zkp * prod_i (gamma + beta * s_i + w_i))`.
pub open spec fn perm_value(
    e: PermutationEvaluations,
    beta: int,
    gamma: int,
    alpha0: int,
    zkp: int,
) -> int {
    let init = fmul(fmul(fmul(val(e.z_omega), beta), alpha0), zkp);
    fsub(0, product_from(init, sigma_terms(e, beta, gamma)))
}

/// Computes `perm`, `alpha0` being the first permutation power of `alpha`.
pub fn permutation_scalar(
    e: &PermutationEvaluations,
    beta: &FieldBytes,
    gamma: &FieldBytes,
    alpha0: &FieldBytes,
    zkp: &FieldBytes,
) -> (perm: FieldBytes)
    requires
        permutation_evaluations_canonical(*e),
        is_canonical_pallas_base(beta@),
        is_canonical_pallas_base(gamma@),
        is_canonical_pallas_base(alpha0@),
        is_canonical_pallas_base(zkp@),
    ensures
        is_canonical_pallas_base(perm@),
        val(perm) == perm_value(*e, val(*beta), val(*gamma), val(*alpha0), val(*zkp)),
{
    let ghost terms = sigma_terms(*e, val(*beta), val(*gamma));
    let first = pallas_base_mul(&e.z_omega, beta);
    let second = pallas_base_mul(&first, alpha0);
    let mut acc = pallas_base_mul(&second, zkp);
    let ghost init = val(acc);
    assert(terms.take(0) =~= Seq::<int>::empty());
    let mut i: usize = 0;
    while i < 6
        invariant
            i <= 6,
            permutation_evaluations_canonical(*e),
            is_canonical_pallas_base(beta@),
            is_canonical_pallas_base(gamma@),
            terms == sigma_terms(*e, val(*beta), val(*gamma)),
            is_canonical_pallas_base(acc@),
            val(acc) == product_from(init, terms.take(i as int)),
        decreases 6 - i,
    {
        assert(is_canonical_pallas_base(e.s@[i as int]@));
        assert(is_canonical_pallas_base(e.w@[i as int]@));
        let scaled = pallas_base_mul(beta, &e.s[i]);
        let shifted = pallas_base_add(gamma, &scaled);
        let term = pallas_base_add(&shifted, &e.w[i]);
        acc = pallas_base_mul(&acc, &term);
        assert(terms.take(i + 1).drop_last() =~= terms.take(i as int));
        i = i + 1;
    }
    assert(terms.take(6) =~= terms);
    let zero = byte_field(0);
    pallas_base_sub(&zero, &acc)
}

// ---------------------------------------------------------------------------
// The quotient evaluation at zeta
// ---------------------------------------------------------------------------

/// What `ft_eval0` is computed from: the combined permutation evaluations,
/// the public input's chunks at `zeta`, the step domain's size as a power of
/// two, the challenges, the three permutation powers of `alpha`, `zeta` to
/// the SRS length, the permutation's vanishing polynomial `zkp` at `zeta`,
/// the seven column shifts, the root of unity `zk_w` that starts the
/// zero-knowledge rows, and the constant term of the gates at `zeta`.
#[derive(Clone, Debug, PartialEq, Eq)]
pub struct FtEval0Inputs {
    pub evals: PermutationEvaluations,
    pub public_zeta: Vec<FieldBytes>,
    pub domain_log2: u8,
    pub zeta: FieldBytes,
    pub alphas: [FieldBytes; 3],
    pub beta: FieldBytes,
    pub gamma: FieldBytes,
    pub zeta_to_srs_length: FieldBytes,
    pub zkp: FieldBytes,
    pub shifts: [FieldBytes; 7],
    pub zk_w: FieldBytes,
    pub constant_term: FieldBytes,
}

/// Every value of the inputs is a step-field element.
pub open spec fn ft_eval0_inputs_canonical(a: FtEval0Inputs) -> bool {
    &&& permutation_evaluations_canonical(a.evals)
    &&& all_step_fields(a.public_zeta@)
    &&& is_canonical_pallas_base(a.zeta@)
    &&& all_step_fields(a.alphas@)
    &&& is_canonical_pallas_base(a.beta@)
    &&& is_canonical_pallas_base(a.gamma@)
    &&& is_canonical_pallas_base(a.zeta_to_srs_length@)
    &&& is_canonical_pallas_base(a.zkp@)
    &&& all_step_fields(a.shifts@)
    &&& is_canonical_pallas_base(a.zk_w@)
    &&& is_canonical_pallas_base(a.constant_term@)
}

/// `beta * s_i + w_i + gamma` for each sigma column `i`.
pub open spec fn quotient_sigma_terms(a: FtEval0Inputs) -> Seq<int> {
    Seq::new(
        6,
        |i: int|
            fadd(fadd(fmul(val(a.beta), val(a.evals.s[i])), val(a.evals.w[i])), val(a.gamma)),
    )
}

/// `gamma + beta * zeta * shift_i + w_i` for each permuted column `i`.
pub open spec fn quotient_shift_terms(a: FtEval0Inputs) -> Seq<int> {
    Seq::new(
        7,
        |i: int|
            fadd(
                fadd(val(a.gamma), fmul(fmul(val(a.beta), val(a.zeta)), val(a.shifts[i]))),
                val(a.evals.w[i]),
            ),
    )
}

/// `(w_6 + gamma) * z(zeta * omega) * alpha0 * zkp * prod_i (beta * s_i + w_i + gamma)`.
pub open spec fn quotient_sigma_part(a: FtEval0Inputs) -> int {
    let init = fmul(
        fmul(fmul(fadd(val(a.evals.w[6]), val(a.gamma)), val(a.evals.z_omega)), val(a.alphas[0])),
        val(a.zkp),
    );
    product_from(init, quotient_sigma_terms(a))
}

/// `alpha0 * zkp * z(zeta) * prod_i (gamma + beta * zeta * shift_i + w_i)`.
pub open spec fn quotient_shift_part(a: FtEval0Inputs) -> int {
    let init = fmul(fmul(val(a.alphas[0]), val(a.zkp)), val(a.evals.z));
    product_from(init, quotient_shift_terms(a))
}

/// `zeta^n - 1`, `n` being the step domain's size.
pub open spec fn vanishing_at_zeta(a: FtEval0Inputs) -> int {
    fsub(square_power(le_value(a.zeta@), a.domain_log2 as nat) as int, 1)
}

/// The boundary numerator
/// `(zeta^n - 1) * (alpha1 * (zeta - zk_w) + alpha2 * (zeta - 1)) * (1 - z(zeta))`,
/// its two products grouped as they are computed.
pub open spec fn boundary_numerator(a: FtEval0Inputs) -> int {
    let v = vanishing_at_zeta(a);
    fmul(
        fadd(
            fmul(fmul(v, val(a.alphas[1])), fsub(val(a.zeta), val(a.zk_w))),
            fmul(fmul(v, val(a.alphas[2])), fsub(val(a.zeta), 1)),
        ),
        fsub(1, val(a.evals.z)),
    )
}

/// The boundary denominator `(zeta - zk_w) * (zeta - 1)`.
pub open spec fn boundary_denominator(a: FtEval0Inputs) -> int {
    fmul(fsub(val(a.zeta), val(a.zk_w)), fsub(val(a.zeta), 1))
}

/// `ft_eval0`, with `inverse` standing for the inverse of the boundary
/// denominator: the sigma part, less the combined public input, less the
/// shift part, plus the boundary numerator over the denominator, less the
/// constant term.
pub open spec fn ft_eval0_value(a: FtEval0Inputs, inverse: int) -> int {
    let public = horner(values_of(a.public_zeta@), le_value(a.zeta_to_srs_length@)) as int;
    let value = fsub(fsub(quotient_sigma_part(a), public), quotient_shift_part(a));
    fsub(fadd(value, fmul(boundary_numerator(a), inverse)), val(a.constant_term))
}

/// `init` multiplied in turn by `terms`, the encodings of those terms.
fn multiply_terms(init: &FieldBytes, terms: &[FieldBytes]) -> (product: FieldBytes)
    requires
        is_canonical_pallas_base(init@),
        all_step_fields(terms@),
    ensures
        is_canonical_pallas_base(product@),
        val(product) == product_from(val(*init), terms@.map_values(|t: FieldBytes| val(t))),
{
    let ghost values = terms@.map_values(|t: FieldBytes| val(t));
    let mut acc = *init;
    let mut i: usize = 0;
    assert(values.take(0) =~= Seq::<int>::empty());
    while i < terms.len()
        invariant
            i <= terms@.len(),
            values == terms@.map_values(|t: FieldBytes| val(t)),
            all_step_fields(terms@),
            is_canonical_pallas_base(acc@),
            val(acc) == product_from(val(*init), values.take(i as int)),
        decreases terms@.len() - i,
    {
        assert(is_canonical_pallas_base(terms@[i as int]@));
        acc = pallas_base_mul(&acc, &terms[i]);
        assert(values.take(i + 1).drop_last() =~= values.take(i as int));
        i = i + 1;
    }
    assert(values.take(terms@.len() as int) =~= values);
    acc
}

/// The sigma part of `ft_eval0`.
fn sigma_part(a: &FtEval0Inputs) -> (part: FieldBytes)
    requires
        ft_eval0_inputs_canonical(*a),
    ensures
        is_canonical_pallas_base(part@),
        val(part) == quotient_sigma_part(*a),
{
    let e = &a.evals;
    let zero = byte_field(0);
    let mut terms: [FieldBytes; 6] = [zero; 6];
    let mut i: usize = 0;
    while i < 6
        invariant
            i <= 6,
            ft_eval0_inputs_canonical(*a),
            *e == a.evals,
            forall|t: int|
                0 <= t < i ==> is_canonical_pallas_base((#[trigger] terms[t])@) && val(terms[t])
                    == quotient_sigma_terms(*a)[t],
        decreases 6 - i,
    {
        assert(is_canonical_pallas_base(e.s@[i as int]@));
        assert(is_canonical_pallas_base(e.w@[i as int]@));
        let scaled = pallas_base_mul(&a.beta, &e.s[i]);
        let shifted = pallas_base_add(&scaled, &e.w[i]);
        let term = pallas_base_add(&shifted, &a.gamma);
        terms.set(i, term);
        i = i + 1;
    }
    assert(terms@.map_values(|t: FieldBytes| val(t)) =~= quotient_sigma_terms(*a));
    assert(is_canonical_pallas_base(e.w@[6]@));
    assert(is_canonical_pallas_base(a.alphas@[0]@));
    let first = pallas_base_add(&e.w[6], &a.gamma);
    let second = pallas_base_mul(&first, &e.z_omega);
    let third = pallas_base_mul(&second, &a.alphas[0]);
    let init = pallas_base_mul(&third, &a.zkp);
    multiply_terms(&init, terms.as_slice())
}

/// The shift part of `ft_eval0`.
fn shift_part(a: &FtEval0Inputs) -> (part: FieldBytes)
    requires
        ft_eval0_inputs_canonical(*a),
    ensures
        is_canonical_pallas_base(part@),
        val(part) == quotient_shift_part(*a),
{
    let e = &a.evals;
    let beta_zeta = pallas_base_mul(&a.beta, &a.zeta);
    let zero = byte_field(0);
    let mut terms: [FieldBytes; 7] = [zero; 7];
    let mut i: usize = 0;
    while i < 7
        invariant
            i <= 7,
            ft_eval0_inputs_canonical(*a),
            *e == a.evals,
            is_canonical_pallas_base(beta_zeta@),
            val(beta_zeta) == fmul(val(a.beta), val(a.zeta)),
            forall|t: int|
                0 <= t < i ==> is_canonical_pallas_base((#[trigger] terms[t])@) && val(terms[t])
                    == quotient_shift_terms(*a)[t],
        decreases 7 - i,
    {
        assert(is_canonical_pallas_base(a.shifts@[i as int]@));
        assert(is_canonical_pallas_base(e.w@[i as int]@));
        let scaled = pallas_base_mul(&beta_zeta, &a.shifts[i]);
        let shifted = pallas_base_add(&a.gamma, &scaled);
        let term = pallas_base_add(&shifted, &e.w[i]);
        terms.set(i, term);
        i = i + 1;
    }
    assert(terms@.map_values(|t: FieldBytes| val(t)) =~= quotient_shift_terms(*a));
    assert(is_canonical_pallas_base(a.alphas@[0]@));
    let first = pallas_base_mul(&a.alphas[0], &a.zkp);
    let init = pallas_base_mul(&first, &e.z);
    multiply_terms(&init, terms.as_slice())
}

/// The boundary numerator and denominator of `ft_eval0`.
fn boundary_terms(a: &FtEval0Inputs) -> (terms: (FieldBytes, FieldBytes))
    requires
        ft_eval0_inputs_canonical(*a),
    ensures
        is_canonical_pallas_base(terms.0@),
        is_canonical_pallas_base(terms.1@),
        val(terms.0) == boundary_numerator(*a),
        val(terms.1) == boundary_denominator(*a),
{
    let one = byte_field(1);
    let zeta_n = square_n(&a.zeta, a.domain_log2 as u64);
    let vanishing = pallas_base_sub(&zeta_n, &one);
    let zeta_minus_w = pallas_base_sub(&a.zeta, &a.zk_w);
    let zeta_minus_one = pallas_base_sub(&a.zeta, &one);
    assert(is_canonical_pallas_base(a.alphas@[1]@));
    assert(is_canonical_pallas_base(a.alphas@[2]@));
    let first = pallas_base_mul(&vanishing, &a.alphas[1]);
    let first = pallas_base_mul(&first, &zeta_minus_w);
    let second = pallas_base_mul(&vanishing, &a.alphas[2]);
    let second = pallas_base_mul(&second, &zeta_minus_one);
    let sum = pallas_base_add(&first, &second);
    let one_minus_z = pallas_base_sub(&one, &a.evals.z);
    let numerator = pallas_base_mul(&sum, &one_minus_z);
    let denominator = pallas_base_mul(&zeta_minus_w, &zeta_minus_one);
    (numerator, denominator)
}

/// `ft_eval0`: fails exactly when the boundary denominator
/// `(zeta - zk_w) * (zeta - 1)` is zero in the step field, and otherwise is
/// the value of [`ft_eval0_value`] at the inverse of that denominator.
pub fn ft_eval0(a: &FtEval0Inputs) -> (result: Result<FieldBytes, PreparedError>)
    requires
        ft_eval0_inputs_canonical(*a),
    ensures
        result is Err <==> boundary_denominator(*a) == 0,
        result matches Err(error) ==> error == PreparedError::Evaluation,
        result matches Ok(value) ==> is_canonical_pallas_base(value@) && exists|inverse: int|
            #![trigger ft_eval0_value(*a, inverse)]
            0 <= inverse && fmul(inverse, boundary_denominator(*a)) == 1 && val(value)
                == ft_eval0_value(*a, inverse),
{
    let sigma = sigma_part(a);
    let public = combine_chunks(a.public_zeta.as_slice(), &a.zeta_to_srs_length);
    let value = pallas_base_sub(&sigma, &public);
    let shift = shift_part(a);
    let value = pallas_base_sub(&value, &shift);
    let (numerator, denominator) = boundary_terms(a);
    let inverse = match pallas_base_inverse(&denominator) {
        Some(inverse) => inverse,
        None => {
            return Err(PreparedError::Evaluation);
        },
    };
    let quotient = pallas_base_mul(&numerator, &inverse);
    let value = pallas_base_add(&value, &quotient);
    let result = pallas_base_sub(&value, &a.constant_term);
    proof {
        let d = val(inverse);
        assert(fmul(d, boundary_denominator(*a)) == 1);
        assert(val(result) == ft_eval0_value(*a, d));
    }
    Ok(result)
}

} // verus!
