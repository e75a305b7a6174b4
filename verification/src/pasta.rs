//! Canonical encodings of Pasta field elements and affine points.
//!
//! Field elements are 32 little-endian bytes that must encode an integer below
//! the field modulus. Points are pairs of such coordinates that must satisfy
//! the Pasta curve equation `y^2 = x^3 + 5`; both curves have cofactor one.

use ark_serialize::{CanonicalDeserialize, CanonicalSerialize};
use vstd::prelude::*;

use crate::format::{FieldBytes, PointBytes};

verus! {

/// The integer that a little-endian byte string encodes.
pub open spec fn le_value(bytes: Seq<u8>) -> nat
    decreases bytes.len(),
{
    if bytes.len() == 0 {
        0
    } else {
        bytes[0] as nat + 256 * le_value(bytes.drop_first())
    }
}

/// The integer that four little-endian 64-bit limbs encode.
pub open spec fn limbs_value(limbs: Seq<u64>) -> nat
    decreases limbs.len(),
{
    if limbs.len() == 0 {
        0
    } else {
        limbs[0] as nat + 0x1_0000_0000_0000_0000nat * limbs_value(limbs.drop_first())
    }
}

/// The modulus of the Pallas base field (the Vesta scalar field).
pub open spec fn pallas_base_modulus() -> nat {
    28948022309329048855892746252171976963363056481941560715954676764349967630337nat
}

/// The modulus of the Vesta base field (the Pallas scalar field).
pub open spec fn vesta_base_modulus() -> nat {
    28948022309329048855892746252171976963363056481941647379679742748393362948097nat
}

/// `bytes` is the canonical encoding of a Pallas base-field element.
pub open spec fn is_canonical_pallas_base(bytes: Seq<u8>) -> bool {
    bytes.len() == 32 && le_value(bytes) < pallas_base_modulus()
}

/// `bytes` is the canonical encoding of a Vesta base-field element.
pub open spec fn is_canonical_vesta_base(bytes: Seq<u8>) -> bool {
    bytes.len() == 32 && le_value(bytes) < vesta_base_modulus()
}

/// The short Weierstrass equation `y^2 = x^3 + 5` shared by both Pasta
/// curves, over the field of order `modulus`.
pub open spec fn on_pasta_curve(x: int, y: int, modulus: int) -> bool {
    (y * y - (x * x * x + 5)) % modulus == 0
}

/// `point` encodes an affine point of the Pallas curve.
pub open spec fn is_valid_pallas_point(point: PointBytes) -> bool {
    &&& is_canonical_pallas_base(point[0]@)
    &&& is_canonical_pallas_base(point[1]@)
    &&& on_pasta_curve(
        le_value(point[0]@) as int,
        le_value(point[1]@) as int,
        pallas_base_modulus() as int,
    )
}

/// `point` encodes an affine point of the Vesta curve.
pub open spec fn is_valid_vesta_point(point: PointBytes) -> bool {
    &&& is_canonical_vesta_base(point[0]@)
    &&& is_canonical_vesta_base(point[1]@)
    &&& on_pasta_curve(
        le_value(point[0]@) as int,
        le_value(point[1]@) as int,
        vesta_base_modulus() as int,
    )
}

/// Calls `ark_pallas::Fq::deserialize_compressed` (ark-serialize) on the 32
/// bytes. Its source reads 32 little-endian bytes as an integer and accepts
/// them exactly when that integer is below the Pallas base modulus; the
/// contract claims that and nothing more.
#[verifier::external_body]
pub(crate) fn decodes_pallas_base(bytes: &FieldBytes) -> (ok: bool)
    ensures
        ok == is_canonical_pallas_base(bytes@),
{
    ark_pallas::Fq::deserialize_compressed(&bytes[..]).is_ok()
}

/// Calls `ark_vesta::Fq::deserialize_compressed` (ark-serialize) on the 32
/// bytes. Its source accepts them exactly when their little-endian integer is
/// below the Vesta base modulus; the contract claims that.
#[verifier::external_body]
pub(crate) fn decodes_vesta_base(bytes: &FieldBytes) -> (ok: bool)
    ensures
        ok == is_canonical_vesta_base(bytes@),
{
    ark_vesta::Fq::deserialize_compressed(&bytes[..]).is_ok()
}

/// Calls `ark_ff::PrimeField::from_bigint` for the Vesta base field on four
/// little-endian limbs. Its source returns `None` exactly when the limbs
/// encode an integer at or above the modulus; the contract claims that.
#[verifier::external_body]
pub(crate) fn vesta_base_from_limbs(limbs: &[u64; 4]) -> (ok: bool)
    ensures
        ok == (limbs_value(limbs@) < vesta_base_modulus()),
{
    <ark_vesta::Fq as ark_ff::PrimeField>::from_bigint(ark_ff::BigInt::new(*limbs)).is_some()
}

/// Calls `ark_ec::short_weierstrass::Affine::is_on_curve` for Pallas on the
/// decoded (canonical) coordinates. Its source compares `y^2` with `x^3 + b`
/// where the Pallas coefficients are `a = 0` and `b = 5`; the contract claims
/// that equation.
#[verifier::external_body]
pub(crate) fn pallas_is_on_curve(point: &PointBytes) -> (on_curve: bool)
    requires
        is_canonical_pallas_base(point[0]@),
        is_canonical_pallas_base(point[1]@),
    ensures
        on_curve == on_pasta_curve(
            le_value(point[0]@) as int,
            le_value(point[1]@) as int,
            pallas_base_modulus() as int,
        ),
{
    let x = ark_pallas::Fq::deserialize_compressed(&point[0][..]).unwrap();
    let y = ark_pallas::Fq::deserialize_compressed(&point[1][..]).unwrap();
    ark_pallas::Affine::new_unchecked(x, y).is_on_curve()
}

/// Calls `ark_ec::short_weierstrass::Affine::is_in_correct_subgroup_assuming_on_curve`
/// for Pallas. The Pallas cofactor is one, and the crate's source answers
/// `true` for every point of such a curve; the contract claims that.
#[verifier::external_body]
pub(crate) fn pallas_is_in_subgroup(point: &PointBytes) -> (in_subgroup: bool)
    requires
        is_canonical_pallas_base(point[0]@),
        is_canonical_pallas_base(point[1]@),
    ensures
        in_subgroup,
{
    let x = ark_pallas::Fq::deserialize_compressed(&point[0][..]).unwrap();
    let y = ark_pallas::Fq::deserialize_compressed(&point[1][..]).unwrap();
    ark_pallas::Affine::new_unchecked(x, y).is_in_correct_subgroup_assuming_on_curve()
}

/// Calls `ark_ec::short_weierstrass::Affine::is_on_curve` for Vesta on the
/// decoded (canonical) coordinates. The Vesta coefficients are `a = 0` and
/// `b = 5`; the contract claims the resulting equation.
#[verifier::external_body]
pub(crate) fn vesta_is_on_curve(point: &PointBytes) -> (on_curve: bool)
    requires
        is_canonical_vesta_base(point[0]@),
        is_canonical_vesta_base(point[1]@),
    ensures
        on_curve == on_pasta_curve(
            le_value(point[0]@) as int,
            le_value(point[1]@) as int,
            vesta_base_modulus() as int,
        ),
{
    let x = ark_vesta::Fq::deserialize_compressed(&point[0][..]).unwrap();
    let y = ark_vesta::Fq::deserialize_compressed(&point[1][..]).unwrap();
    ark_vesta::Affine::new_unchecked(x, y).is_on_curve()
}

/// Calls `ark_ec::short_weierstrass::Affine::is_in_correct_subgroup_assuming_on_curve`
/// for Vesta, whose cofactor is one; the crate's source then answers `true`.
#[verifier::external_body]
pub(crate) fn vesta_is_in_subgroup(point: &PointBytes) -> (in_subgroup: bool)
    requires
        is_canonical_vesta_base(point[0]@),
        is_canonical_vesta_base(point[1]@),
    ensures
        in_subgroup,
{
    let x = ark_vesta::Fq::deserialize_compressed(&point[0][..]).unwrap();
    let y = ark_vesta::Fq::deserialize_compressed(&point[1][..]).unwrap();
    ark_vesta::Affine::new_unchecked(x, y).is_in_correct_subgroup_assuming_on_curve()
}

/// Checks one Pallas point as the verifier decodes it: both coordinates
/// canonical, then on the curve and in the prime-order subgroup.
pub fn pallas_point_is_valid(point: &PointBytes) -> (valid: bool)
    ensures
        valid == is_valid_pallas_point(*point),
{
    if !decodes_pallas_base(&point[0]) || !decodes_pallas_base(&point[1]) {
        return false;
    }
    pallas_is_on_curve(point) && pallas_is_in_subgroup(point)
}

/// Checks one Vesta point as the verifier decodes it.
pub fn vesta_point_is_valid(point: &PointBytes) -> (valid: bool)
    ensures
        valid == is_valid_vesta_point(*point),
{
    if !decodes_vesta_base(&point[0]) || !decodes_vesta_base(&point[1]) {
        return false;
    }
    vesta_is_on_curve(point) && vesta_is_in_subgroup(point)
}

/// A byte string whose bytes after the first are zero encodes its first
/// byte.
pub proof fn lemma_le_value_first_byte(bytes: Seq<u8>)
    requires
        bytes.len() >= 1,
        forall|i: int| 1 <= i < bytes.len() ==> bytes[i] == 0,
    ensures
        le_value(bytes) == bytes[0],
    decreases bytes.len(),
{
    let rest = bytes.drop_first();
    if rest.len() > 0 {
        assert forall|i: int| 1 <= i < rest.len() implies rest[i] == 0 by {
            assert(rest[i] == bytes[i + 1]);
        }
        lemma_le_value_first_byte(rest);
        assert(rest[0] == bytes[1]);
        assert(bytes[1] == 0);
        assert(le_value(rest) == 0);
    } else {
        assert(le_value(rest) == 0);
    }
    assert(le_value(bytes) == bytes[0] as nat + 256 * le_value(rest));
}

/// The encoding of a one-byte integer, canonical in both Pasta fields.
pub fn byte_field(value: u8) -> (field: FieldBytes)
    ensures
        le_value(field@) == value,
        is_canonical_pallas_base(field@),
        is_canonical_vesta_base(field@),
{
    let mut field = [0u8; 32];
    field[0] = value;
    proof {
        lemma_le_value_first_byte(field@);
    }
    field
}

/// Whether 32 bytes canonically encode a Pallas base-field (step-field)
/// element.
pub fn is_step_field(bytes: &FieldBytes) -> (ok: bool)
    ensures
        ok == is_canonical_pallas_base(bytes@),
{
    decodes_pallas_base(bytes)
}

/// Whether 32 bytes canonically encode a Vesta base-field (wrap-field)
/// element.
pub fn is_wrap_field(bytes: &FieldBytes) -> (ok: bool)
    ensures
        ok == is_canonical_vesta_base(bytes@),
{
    decodes_vesta_base(bytes)
}

// ---------------------------------------------------------------------------
// Arithmetic in the Pallas base field
// ---------------------------------------------------------------------------

/// Calls `Add::add` of `ark_pallas::Fq` on the decoded elements and encodes
/// the sum. The field is the integers modulo its prime, so the contract
/// claims the sum modulo the Pallas base modulus.
#[verifier::external_body]
pub(crate) fn pallas_base_add(a: &FieldBytes, b: &FieldBytes) -> (sum: FieldBytes)
    requires
        is_canonical_pallas_base(a@),
        is_canonical_pallas_base(b@),
    ensures
        is_canonical_pallas_base(sum@),
        le_value(sum@) == (le_value(a@) + le_value(b@)) % pallas_base_modulus(),
{
    let a = ark_pallas::Fq::deserialize_compressed(&a[..]).unwrap();
    let b = ark_pallas::Fq::deserialize_compressed(&b[..]).unwrap();
    let mut out = [0u8; 32];
    (a + b).serialize_compressed(&mut out[..]).unwrap();
    out
}

/// Calls `Sub::sub` of `ark_pallas::Fq` on the decoded elements and encodes
/// the difference, which is taken modulo the Pallas base modulus.
#[verifier::external_body]
pub(crate) fn pallas_base_sub(a: &FieldBytes, b: &FieldBytes) -> (difference: FieldBytes)
    requires
        is_canonical_pallas_base(a@),
        is_canonical_pallas_base(b@),
    ensures
        is_canonical_pallas_base(difference@),
        le_value(difference@) == (le_value(a@) - le_value(b@)) % (pallas_base_modulus() as int),
{
    let a = ark_pallas::Fq::deserialize_compressed(&a[..]).unwrap();
    let b = ark_pallas::Fq::deserialize_compressed(&b[..]).unwrap();
    let mut out = [0u8; 32];
    (a - b).serialize_compressed(&mut out[..]).unwrap();
    out
}

/// Calls `Mul::mul` of `ark_pallas::Fq` on the decoded elements and encodes
/// the product, which is taken modulo the Pallas base modulus.
#[verifier::external_body]
pub(crate) fn pallas_base_mul(a: &FieldBytes, b: &FieldBytes) -> (product: FieldBytes)
    requires
        is_canonical_pallas_base(a@),
        is_canonical_pallas_base(b@),
    ensures
        is_canonical_pallas_base(product@),
        le_value(product@) == (le_value(a@) * le_value(b@)) % pallas_base_modulus(),
{
    let a = ark_pallas::Fq::deserialize_compressed(&a[..]).unwrap();
    let b = ark_pallas::Fq::deserialize_compressed(&b[..]).unwrap();
    let mut out = [0u8; 32];
    (a * b).serialize_compressed(&mut out[..]).unwrap();
    out
}

/// Calls `ark_ff::Field::inverse` of `ark_pallas::Fq` on the decoded
/// element. Its source returns `None` exactly for zero, and otherwise the
/// element whose product with the argument is one.
#[verifier::external_body]
pub(crate) fn pallas_base_inverse(a: &FieldBytes) -> (inverse: Option<FieldBytes>)
    requires
        is_canonical_pallas_base(a@),
    ensures
        inverse is None <==> le_value(a@) == 0,
        inverse matches Some(r) ==> is_canonical_pallas_base(r@) && (le_value(r@) * le_value(
            a@,
        )) % pallas_base_modulus() == 1,
{
    let a = ark_pallas::Fq::deserialize_compressed(&a[..]).unwrap();
    match ark_ff::Field::inverse(&a) {
        Some(r) => {
            let mut out = [0u8; 32];
            r.serialize_compressed(&mut out[..]).unwrap();
            Some(out)
        },
        None => None,
    }
}

// ---------------------------------------------------------------------------
// Arithmetic in the Vesta base field
// ---------------------------------------------------------------------------

/// Calls `Add::add` of `ark_vesta::Fq` on the decoded elements and encodes
/// the sum, taken modulo the Vesta base modulus.
#[verifier::external_body]
pub(crate) fn vesta_base_add(a: &FieldBytes, b: &FieldBytes) -> (sum: FieldBytes)
    requires
        is_canonical_vesta_base(a@),
        is_canonical_vesta_base(b@),
    ensures
        is_canonical_vesta_base(sum@),
        le_value(sum@) == (le_value(a@) + le_value(b@)) % vesta_base_modulus(),
{
    let a = ark_vesta::Fq::deserialize_compressed(&a[..]).unwrap();
    let b = ark_vesta::Fq::deserialize_compressed(&b[..]).unwrap();
    let mut out = [0u8; 32];
    (a + b).serialize_compressed(&mut out[..]).unwrap();
    out
}

/// Calls `Sub::sub` of `ark_vesta::Fq` on the decoded elements and encodes
/// the difference, taken modulo the Vesta base modulus.
#[verifier::external_body]
pub(crate) fn vesta_base_sub(a: &FieldBytes, b: &FieldBytes) -> (difference: FieldBytes)
    requires
        is_canonical_vesta_base(a@),
        is_canonical_vesta_base(b@),
    ensures
        is_canonical_vesta_base(difference@),
        le_value(difference@) == (le_value(a@) - le_value(b@)) % (vesta_base_modulus() as int),
{
    let a = ark_vesta::Fq::deserialize_compressed(&a[..]).unwrap();
    let b = ark_vesta::Fq::deserialize_compressed(&b[..]).unwrap();
    let mut out = [0u8; 32];
    (a - b).serialize_compressed(&mut out[..]).unwrap();
    out
}

/// Calls `Mul::mul` of `ark_vesta::Fq` on the decoded elements and encodes
/// the product, taken modulo the Vesta base modulus.
#[verifier::external_body]
pub(crate) fn vesta_base_mul(a: &FieldBytes, b: &FieldBytes) -> (product: FieldBytes)
    requires
        is_canonical_vesta_base(a@),
        is_canonical_vesta_base(b@),
    ensures
        is_canonical_vesta_base(product@),
        le_value(product@) == (le_value(a@) * le_value(b@)) % vesta_base_modulus(),
{
    let a = ark_vesta::Fq::deserialize_compressed(&a[..]).unwrap();
    let b = ark_vesta::Fq::deserialize_compressed(&b[..]).unwrap();
    let mut out = [0u8; 32];
    (a * b).serialize_compressed(&mut out[..]).unwrap();
    out
}

} // verus!
