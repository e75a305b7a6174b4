//! Mina's scalar challenges: a 128-bit challenge read two bits at a time
//! into the two halves of an endomorphism decomposition, `left * endo +
//! right`, in the step field or in the wrap field.

use vstd::prelude::*;

use crate::format::{FieldBytes, ScalarChallenge};
use crate::pasta::{
    byte_field, is_canonical_pallas_base, is_canonical_vesta_base, le_value, pallas_base_add,
    pallas_base_modulus, pallas_base_mul, pallas_base_sub, vesta_base_add, vesta_base_modulus,
    vesta_base_mul, vesta_base_sub,
};

verus! {

broadcast use vstd::arithmetic::div_mod::lemma_mod_twice;

/// Bit `j` of the 128-bit integer `challenge[0] + 2^64 * challenge[1]`.
pub open spec fn challenge_bit(challenge: ScalarChallenge, j: nat) -> bool {
    if j < 64 {
        (challenge[0] >> (j as u64)) & 1u64 == 1u64
    } else {
        (challenge[1] >> ((j - 64) as u64)) & 1u64 == 1u64
    }
}

/// The two halves after the `count` most significant bit pairs of the
/// challenge, starting from `(2, 2)`. Each pair doubles both halves; its
/// high bit picks the sign and its low bit which half the sign is added to.
pub open spec fn endo_halves(challenge: ScalarChallenge, count: nat) -> (int, int)
    decreases count,
{
    if count == 0 {
        (2, 2)
    } else {
        let previous = endo_halves(challenge, (count - 1) as nat);
        let pair = (count - 1) as nat;
        let sign: int = if challenge_bit(challenge, (127 - (2 * pair + 1)) as nat) {
            1
        } else {
            -1
        };
        if challenge_bit(challenge, (127 - 2 * pair) as nat) {
            (2 * previous.0 + sign, 2 * previous.1)
        } else {
            (2 * previous.0, 2 * previous.1 + sign)
        }
    }
}

/// The field element a scalar challenge stands for, before reduction:
/// `left * endo + right` over all 64 bit pairs.
pub open spec fn endo_scalar(challenge: ScalarChallenge, endo: int) -> int {
    endo_halves(challenge, 64).0 * endo + endo_halves(challenge, 64).1
}

/// Bit `j` of the challenge, computed.
fn bit(challenge: ScalarChallenge, j: u64) -> (set: bool)
    requires
        j < 128,
    ensures
        set == challenge_bit(challenge, j as nat),
{
    if j < 64 {
        (challenge[0] >> j) & 1 == 1
    } else {
        (challenge[1] >> (j - 64)) & 1 == 1
    }
}

/// The sign-and-double step in a field of modulus `m`.
proof fn lemma_double_and_add(half: int, sign: int, doubled: int, result: int, m: int)
    requires
        m > 0,
        doubled == ((half % m) + (half % m)) % m,
        result == (doubled + (sign % m)) % m,
    ensures
        result == (2 * half + sign) % m,
{
    vstd::arithmetic::div_mod::lemma_add_mod_noop(half, half, m);
    vstd::arithmetic::div_mod::lemma_add_mod_noop(2 * half, sign, m);
}

/// The doubling step in a field of modulus `m`.
proof fn lemma_double(half: int, doubled: int, m: int)
    requires
        m > 0,
        doubled == ((half % m) + (half % m)) % m,
    ensures
        doubled == (2 * half) % m,
{
    vstd::arithmetic::div_mod::lemma_add_mod_noop(half, half, m);
}

/// The final combination in a field of modulus `m`.
proof fn lemma_combine(left: int, right: int, endo: int, product: int, result: int, m: int)
    requires
        m > 0,
        product == ((left % m) * endo) % m,
        result == (product + (right % m)) % m,
    ensures
        result == (left * endo + right) % m,
{
    vstd::arithmetic::div_mod::lemma_mul_mod_noop_left(left, endo, m);
    vstd::arithmetic::div_mod::lemma_add_mod_noop(left * endo, right, m);
}

/// A scalar challenge as a step-field (Pallas base) element, under the
/// step-field endomorphism coefficient `endo`.
pub fn scalar_challenge_to_step_field(challenge: ScalarChallenge, endo: &FieldBytes) -> (value:
    FieldBytes)
    requires
        is_canonical_pallas_base(endo@),
    ensures
        is_canonical_pallas_base(value@),
        le_value(value@) == endo_scalar(challenge, le_value(endo@) as int) % (
        pallas_base_modulus() as int),
{
    let ghost m = pallas_base_modulus() as int;
    let zero = byte_field(0);
    let one = byte_field(1);
    let neg_one = pallas_base_sub(&zero, &one);
    let mut left = byte_field(2);
    let mut right = byte_field(2);
    proof {
        vstd::arithmetic::div_mod::lemma_small_mod(1, m as nat);
        vstd::arithmetic::div_mod::lemma_small_mod(2, m as nat);
    }
    let mut pair: u64 = 0;
    while pair < 64
        invariant
            pair <= 64,
            m == pallas_base_modulus(),
            is_canonical_pallas_base(endo@),
            is_canonical_pallas_base(one@),
            is_canonical_pallas_base(neg_one@),
            le_value(one@) == 1,
            le_value(neg_one@) == (-1int) % m,
            is_canonical_pallas_base(left@),
            is_canonical_pallas_base(right@),
            le_value(left@) == endo_halves(challenge, pair as nat).0 % m,
            le_value(right@) == endo_halves(challenge, pair as nat).1 % m,
        decreases 64 - pair,
    {
        let first = bit(challenge, 127 - (2 * pair + 1));
        let second = bit(challenge, 127 - 2 * pair);
        let sign = if first {
            one
        } else {
            neg_one
        };
        let ghost sign_value: int = if first {
            1
        } else {
            -1
        };
        let ghost halves = endo_halves(challenge, pair as nat);
        left = pallas_base_add(&left, &left);
        right = pallas_base_add(&right, &right);
        proof {
            vstd::arithmetic::div_mod::lemma_small_mod(1, m as nat);
            assert(le_value(sign@) == sign_value % m);
            lemma_double(halves.0, le_value(left@) as int, m);
            lemma_double(halves.1, le_value(right@) as int, m);
        }
        if second {
            let ghost doubled = le_value(left@) as int;
            left = pallas_base_add(&left, &sign);
            proof {
                lemma_double_and_add(halves.0, sign_value, doubled, le_value(left@) as int, m);
            }
        } else {
            let ghost doubled = le_value(right@) as int;
            right = pallas_base_add(&right, &sign);
            proof {
                lemma_double_and_add(halves.1, sign_value, doubled, le_value(right@) as int, m);
            }
        }
        pair = pair + 1;
    }
    let product = pallas_base_mul(&left, endo);
    let value = pallas_base_add(&product, &right);
    proof {
        let halves = endo_halves(challenge, 64);
        lemma_combine(
            halves.0,
            halves.1,
            le_value(endo@) as int,
            le_value(product@) as int,
            le_value(value@) as int,
            m,
        );
    }
    value
}

/// A scalar challenge as a wrap-field (Vesta base) element, under the
/// wrap-field endomorphism coefficient `endo`.
pub fn scalar_challenge_to_wrap_field(challenge: ScalarChallenge, endo: &FieldBytes) -> (value:
    FieldBytes)
    requires
        is_canonical_vesta_base(endo@),
    ensures
        is_canonical_vesta_base(value@),
        le_value(value@) == endo_scalar(challenge, le_value(endo@) as int) % (
        vesta_base_modulus() as int),
{
    let ghost m = vesta_base_modulus() as int;
    let zero = byte_field(0);
    let one = byte_field(1);
    let neg_one = vesta_base_sub(&zero, &one);
    let mut left = byte_field(2);
    let mut right = byte_field(2);
    proof {
        vstd::arithmetic::div_mod::lemma_small_mod(1, m as nat);
        vstd::arithmetic::div_mod::lemma_small_mod(2, m as nat);
    }
    let mut pair: u64 = 0;
    while pair < 64
        invariant
            pair <= 64,
            m == vesta_base_modulus(),
            is_canonical_vesta_base(endo@),
            is_canonical_vesta_base(one@),
            is_canonical_vesta_base(neg_one@),
            le_value(one@) == 1,
            le_value(neg_one@) == (-1int) % m,
            is_canonical_vesta_base(left@),
            is_canonical_vesta_base(right@),
            le_value(left@) == endo_halves(challenge, pair as nat).0 % m,
            le_value(right@) == endo_halves(challenge, pair as nat).1 % m,
        decreases 64 - pair,
    {
        let first = bit(challenge, 127 - (2 * pair + 1));
        let second = bit(challenge, 127 - 2 * pair);
        let sign = if first {
            one
        } else {
            neg_one
        };
        let ghost sign_value: int = if first {
            1
        } else {
            -1
        };
        let ghost halves = endo_halves(challenge, pair as nat);
        left = vesta_base_add(&left, &left);
        right = vesta_base_add(&right, &right);
        proof {
            vstd::arithmetic::div_mod::lemma_small_mod(1, m as nat);
            assert(le_value(sign@) == sign_value % m);
            lemma_double(halves.0, le_value(left@) as int, m);
            lemma_double(halves.1, le_value(right@) as int, m);
        }
        if second {
            let ghost doubled = le_value(left@) as int;
            left = vesta_base_add(&left, &sign);
            proof {
                lemma_double_and_add(halves.0, sign_value, doubled, le_value(left@) as int, m);
            }
        } else {
            let ghost doubled = le_value(right@) as int;
            right = vesta_base_add(&right, &sign);
            proof {
                lemma_double_and_add(halves.1, sign_value, doubled, le_value(right@) as int, m);
            }
        }
        pair = pair + 1;
    }
    let product = vesta_base_mul(&left, endo);
    let value = vesta_base_add(&product, &right);
    proof {
        let halves = endo_halves(challenge, 64);
        lemma_combine(
            halves.0,
            halves.1,
            le_value(endo@) as int,
            le_value(product@) as int,
            le_value(value@) as int,
            m,
        );
    }
    value
}

} // verus!
