//! The fixed Pallas15 parameters of the `PicklesV1` outer proof and the local
//! cache file that holds their authenticated Lagrange-basis prefixes.
//!
//! The cache is a fixed layout: a 16-byte magic, the format version, a
//! fingerprint of the pinned parameters, the number of prefixes (3), then for
//! each wrap domain 2^13, 2^14 and 2^15 its base-two logarithm, the prefix
//! length (40) and 40 uncompressed Pallas points of 65 bytes. Every integer is
//! a little-endian `u32`; nothing may follow the last point.

use ark_serialize::{CanonicalDeserialize, CanonicalSerialize};
use vstd::prelude::*;
use vstd::string::StringSliceAdditionalSpecFns;

use crate::digest::{
    blake2b256, blake2b256_digest, flatten, push_bytes, push_flattened, push_u32_le, push_u64_le,
    u32_le, u64_le,
};
use crate::kimchi::bytes_equal;
use crate::pickles::VerifyError;

verus! {

/// Base-two logarithm of the size of the Pickles outer SRS.
pub const PALLAS15_SRS_LOG2_SIZE: u8 = 15;

/// Smallest supported Pickles outer domain (base-two logarithm).
pub const PALLAS15_MIN_DOMAIN_LOG2_SIZE: u8 = 13;

/// Largest supported Pickles outer domain (base-two logarithm).
pub const PALLAS15_MAX_DOMAIN_LOG2_SIZE: u8 = 15;

/// Number of outer public-input Lagrange commitments used by `PicklesV1`.
pub const PALLAS15_LAGRANGE_PREFIX_SIZE: usize = 40;

/// Size of an uncompressed Pallas point.
pub const PALLAS_UNCOMPRESSED_POINT_SIZE: usize = 65;

/// Leading bytes of a cache file.
pub const CACHE_MAGIC: [u8; 16] = [90, 75, 86, 80, 73, 67, 75, 76, 69, 83, 80, 65, 76, 49, 0, 0];

/// Version of the cache layout.
pub const CACHE_FORMAT_VERSION: u32 = 1;

/// Bytes before the first prefix: magic, version, fingerprint, count.
pub const CACHE_HEADER_SIZE: usize = 56;

/// Bytes of one prefix: domain, length, 40 points.
pub const CACHE_SECTION_SIZE: usize = 2605;

/// Bytes of a complete cache file.
pub const CACHE_SIZE: usize = 7871;

/// Pinned digest of the Pallas SRS of size 2^15.
pub const PALLAS_SRS_15_DIGEST: [u8; 32] = [
    40, 71, 114, 46, 182, 149, 143, 205, 227, 185, 62, 115, 45, 191, 184, 247, 139, 111, 39, 138,
    113, 42, 58, 209, 128, 79, 55, 186, 190, 138, 56, 122,
];

/// Pinned digests of the Lagrange-basis prefixes of the domains 2^13, 2^14
/// and 2^15, in order.
pub const PALLAS_SRS_15_LAGRANGE_PREFIX_DIGESTS: [[u8; 32]; 3] = [
    [
        220, 218, 25, 204, 30, 126, 1, 100, 112, 2, 127, 108, 211, 111, 66, 228, 195, 242, 183,
        37, 29, 84, 45, 92, 7, 100, 120, 173, 245, 195, 110, 188,
    ],
    [
        31, 133, 126, 192, 171, 251, 115, 64, 9, 214, 139, 148, 68, 33, 252, 57, 196, 115, 246,
        220, 158, 55, 70, 118, 187, 119, 173, 2, 143, 80, 52, 176,
    ],
    [
        175, 211, 199, 78, 101, 48, 45, 89, 248, 100, 9, 1, 16, 150, 119, 133, 240, 211, 10, 7,
        243, 69, 65, 220, 104, 13, 129, 107, 166, 202, 136, 193,
    ],
];

/// The uncompressed encoding of the Pallas point that `encoding` decodes
/// to, or `None` where it decodes to no point of the curve.
pub uninterp spec fn pallas_uncompressed_reencoding(encoding: Seq<u8>) -> Option<Seq<u8>>;

/// Calls `ark_pallas::Affine::deserialize_uncompressed` (with validation)
/// on the 65 bytes and, where it yields a point, `serialize_uncompressed` on
/// that point. The result is named: the decoding is a function of the bytes
/// alone. The source also shows that a point's own encoding decodes to the
/// same point, so re-encoding an encoding this call produced gives it back;
/// the contract claims that as well.
#[verifier::external_body]
pub(crate) fn reencode_pallas_point(encoding: &[u8; 65]) -> (reencoded: Option<[u8; 65]>)
    ensures
        match reencoded {
            Some(point) => pallas_uncompressed_reencoding(encoding@) == Some(point@),
            None => pallas_uncompressed_reencoding(encoding@) is None,
        },
        reencoded matches Some(point) ==> pallas_uncompressed_reencoding(point@) == Some(point@),
{
    match ark_pallas::Affine::deserialize_uncompressed(&encoding[..]) {
        Ok(point) => {
            let mut out = [0u8; 65];
            point.serialize_uncompressed(&mut out[..]).ok().map(|_| out)
        },
        Err(_) => None,
    }
}

// ---------------------------------------------------------------------------
// Digests
// ---------------------------------------------------------------------------

/// The pinned digest of the prefix of a domain, if the profile supports it.
pub open spec fn spec_expected_prefix_digest(domain_log2: u8) -> Option<[u8; 32]> {
    if PALLAS15_MIN_DOMAIN_LOG2_SIZE <= domain_log2 <= PALLAS15_MAX_DOMAIN_LOG2_SIZE {
        Some(PALLAS_SRS_15_LAGRANGE_PREFIX_DIGESTS[domain_log2 - PALLAS15_MIN_DOMAIN_LOG2_SIZE])
    } else {
        None
    }
}

/// The pinned digest of the Lagrange prefix of a domain.
pub fn expected_lagrange_digest(domain_log2: u8) -> (digest: Option<[u8; 32]>)
    ensures
        digest == spec_expected_prefix_digest(domain_log2),
{
    if PALLAS15_MIN_DOMAIN_LOG2_SIZE <= domain_log2 && domain_log2
        <= PALLAS15_MAX_DOMAIN_LOG2_SIZE {
        let k = (domain_log2 - PALLAS15_MIN_DOMAIN_LOG2_SIZE) as usize;
        Some(PALLAS_SRS_15_LAGRANGE_PREFIX_DIGESTS[k])
    } else {
        None
    }
}

/// The byte strings that an array of encodings holds.
pub open spec fn points_view(points: Seq<[u8; 65]>) -> Seq<Seq<u8>> {
    points.map_values(|point: [u8; 65]| point@)
}

/// Each single-chunk commitment as its chunk count (1) and its point.
pub open spec fn prefix_points_bytes(points: Seq<Seq<u8>>) -> Seq<u8>
    decreases points.len(),
{
    if points.len() == 0 {
        Seq::empty()
    } else {
        prefix_points_bytes(points.drop_last()) + u64_le(1) + points.last()
    }
}

/// The message whose digest pins the Lagrange prefix of a domain.
pub open spec fn prefix_digest_message(domain_log2: u8, points: Seq<Seq<u8>>) -> Seq<u8> {
    "pickles:v1:pallas15:lagrange-prefix".spec_bytes() + seq![domain_log2] + u64_le(
        PALLAS15_LAGRANGE_PREFIX_SIZE as u64,
    ) + prefix_points_bytes(points)
}

/// Digest of a Lagrange prefix of 40 single-chunk commitments.
pub fn lagrange_prefix_digest(domain_log2: u8, points: &Vec<[u8; 65]>) -> (digest: [u8; 32])
    ensures
        digest@ == blake2b256_digest(prefix_digest_message(domain_log2, points_view(points@))),
{
    let mut message: Vec<u8> = Vec::new();
    push_bytes(&mut message, "pickles:v1:pallas15:lagrange-prefix".as_bytes());
    message.push(domain_log2);
    push_u64_le(&mut message, PALLAS15_LAGRANGE_PREFIX_SIZE as u64);
    let ghost head = message@;
    let mut i: usize = 0;
    while i < points.len()
        invariant
            i <= points@.len(),
            message@ == head + prefix_points_bytes(points_view(points@.take(i as int))),
        decreases points@.len() - i,
    {
        push_u64_le(&mut message, 1);
        push_bytes(&mut message, points[i].as_slice());
        assert(points_view(points@.take(i as int + 1)).drop_last() =~= points_view(
            points@.take(i as int),
        ));
        assert(message@ =~= head + prefix_points_bytes(points_view(points@.take(i as int + 1))));
        i = i + 1;
    }
    assert(points@.take(points@.len() as int) =~= points@);
    assert(message@ =~= prefix_digest_message(domain_log2, points_view(points@)));
    blake2b256(message.as_slice())
}

/// A prefix is authentic: 40 commitments whose digest is the pinned digest
/// of its domain.
pub open spec fn prefix_valid(domain_log2: u8, points: Seq<Seq<u8>>) -> bool {
    &&& points.len() == PALLAS15_LAGRANGE_PREFIX_SIZE
    &&& spec_expected_prefix_digest(domain_log2) is Some
    &&& blake2b256_digest(prefix_digest_message(domain_log2, points))
        == spec_expected_prefix_digest(domain_log2).unwrap()@
}

/// Checks a prefix against its pinned digest.
pub fn validate_prefix(domain_log2: u8, points: &Vec<[u8; 65]>) -> (valid: bool)
    ensures
        valid == prefix_valid(domain_log2, points_view(points@)),
{
    if points.len() != PALLAS15_LAGRANGE_PREFIX_SIZE {
        return false;
    }
    match expected_lagrange_digest(domain_log2) {
        Some(expected) => {
            let digest = lagrange_prefix_digest(domain_log2, points);
            bytes_equal(&digest, &expected)
        },
        None => false,
    }
}

/// The Lagrange-basis prefix of one wrap domain: the uncompressed encodings
/// of its single-chunk commitments.
#[derive(Clone, Debug, PartialEq, Eq)]
pub struct LagrangePrefix {
    pub domain_log2: u8,
    pub points: Vec<[u8; 65]>,
}

/// Exactly the three authentic prefixes of the domains 2^13, 2^14, 2^15, in
/// that order.
pub open spec fn prefixes_valid(prefixes: Seq<LagrangePrefix>) -> bool {
    &&& prefixes.len() == 3
    &&& forall|k: int|
        0 <= k < 3 ==> #[trigger] prefixes[k].domain_log2 == PALLAS15_MIN_DOMAIN_LOG2_SIZE + k
            && prefix_valid(prefixes[k].domain_log2, points_view(prefixes[k].points@))
}

/// Checks that the prefixes are exactly the three authentic ones, in order.
pub fn validate_prefixes(prefixes: &Vec<LagrangePrefix>) -> (valid: bool)
    ensures
        valid == prefixes_valid(prefixes@),
{
    if prefixes.len() != 3 {
        return false;
    }
    let mut k: usize = 0;
    while k < 3
        invariant
            k <= 3,
            prefixes@.len() == 3,
            forall|j: int|
                0 <= j < k ==> #[trigger] prefixes@[j].domain_log2 == PALLAS15_MIN_DOMAIN_LOG2_SIZE
                    + j && prefix_valid(prefixes@[j].domain_log2, points_view(prefixes@[j].points@)),
        decreases 3 - k,
    {
        let prefix = &prefixes[k];
        if prefix.domain_log2 as usize != PALLAS15_MIN_DOMAIN_LOG2_SIZE as usize + k
            || !validate_prefix(prefix.domain_log2, &prefix.points) {
            return false;
        }
        k = k + 1;
    }
    true
}

/// The message whose digest fingerprints the pinned parameters that a cache
/// was written for.
pub open spec fn fingerprint_message() -> Seq<u8> {
    "pickles:v1:pallas15:local-cache".spec_bytes() + u32_le(CACHE_FORMAT_VERSION) + seq![
        PALLAS15_SRS_LOG2_SIZE,
        PALLAS15_MIN_DOMAIN_LOG2_SIZE,
        PALLAS15_MAX_DOMAIN_LOG2_SIZE,
    ] + u64_le(PALLAS15_LAGRANGE_PREFIX_SIZE as u64) + PALLAS_SRS_15_DIGEST@ + seq![13u8]
        + PALLAS_SRS_15_LAGRANGE_PREFIX_DIGESTS[0]@ + seq![14u8]
        + PALLAS_SRS_15_LAGRANGE_PREFIX_DIGESTS[1]@ + seq![15u8]
        + PALLAS_SRS_15_LAGRANGE_PREFIX_DIGESTS[2]@
}

/// Fingerprint of the pinned parameters, stored in every cache file.
pub fn cache_fingerprint() -> (fingerprint: [u8; 32])
    ensures
        fingerprint@ == blake2b256_digest(fingerprint_message()),
{
    let mut message: Vec<u8> = Vec::new();
    push_bytes(&mut message, "pickles:v1:pallas15:local-cache".as_bytes());
    push_u32_le(&mut message, CACHE_FORMAT_VERSION);
    message.push(PALLAS15_SRS_LOG2_SIZE);
    message.push(PALLAS15_MIN_DOMAIN_LOG2_SIZE);
    message.push(PALLAS15_MAX_DOMAIN_LOG2_SIZE);
    push_u64_le(&mut message, PALLAS15_LAGRANGE_PREFIX_SIZE as u64);
    push_bytes(&mut message, PALLAS_SRS_15_DIGEST.as_slice());
    message.push(13);
    push_bytes(&mut message, PALLAS_SRS_15_LAGRANGE_PREFIX_DIGESTS[0].as_slice());
    message.push(14);
    push_bytes(&mut message, PALLAS_SRS_15_LAGRANGE_PREFIX_DIGESTS[1].as_slice());
    message.push(15);
    push_bytes(&mut message, PALLAS_SRS_15_LAGRANGE_PREFIX_DIGESTS[2].as_slice());
    assert(message@ =~= fingerprint_message());
    blake2b256(message.as_slice())
}


// ---------------------------------------------------------------------------
// The cache file
// ---------------------------------------------------------------------------

/// Offset of the `k`-th prefix in a cache file.
pub open spec fn section_offset(k: int) -> int {
    CACHE_HEADER_SIZE + k * CACHE_SECTION_SIZE
}

/// Offset of the `j`-th point of the `k`-th prefix.
pub open spec fn point_offset(k: int, j: int) -> int {
    section_offset(k) + 5 + 65 * j
}

/// The stored encoding of the `j`-th point of the `k`-th prefix.
pub open spec fn encoded_point(bytes: Seq<u8>, k: int, j: int) -> Seq<u8> {
    bytes.subrange(point_offset(k, j), point_offset(k, j) + 65)
}

/// The points of the `k`-th prefix, as the verifier decodes (and re-encodes)
/// them.
pub open spec fn decoded_prefix(bytes: Seq<u8>, k: int) -> Seq<Seq<u8>> {
    Seq::new(
        PALLAS15_LAGRANGE_PREFIX_SIZE as nat,
        |j: int| pallas_uncompressed_reencoding(encoded_point(bytes, k, j)).unwrap(),
    )
}

/// The file has the cache layout for the given fingerprint, and every stored
/// point decodes to a Pallas point.
pub open spec fn cache_layout_valid(bytes: Seq<u8>, fingerprint: Seq<u8>) -> bool {
    &&& bytes.len() == CACHE_SIZE
    &&& bytes.subrange(0, 16) == CACHE_MAGIC@
    &&& bytes.subrange(16, 20) == u32_le(CACHE_FORMAT_VERSION)
    &&& bytes.subrange(20, 52) == fingerprint
    &&& bytes.subrange(52, 56) == u32_le(3)
    &&& forall|k: int|
        0 <= k < 3 ==> #[trigger] bytes[section_offset(k)] == PALLAS15_MIN_DOMAIN_LOG2_SIZE + k
            && bytes.subrange(section_offset(k) + 1, section_offset(k) + 5) == u32_le(
            PALLAS15_LAGRANGE_PREFIX_SIZE as u32,
        )
    &&& forall|k: int, j: int|
        0 <= k < 3 && 0 <= j < PALLAS15_LAGRANGE_PREFIX_SIZE ==> #[trigger] pallas_uncompressed_reencoding(
            encoded_point(bytes, k, j),
        ) is Some
}

/// A cache file that the verifier accepts: the layout for the pinned
/// parameters, and three authentic prefixes.
pub open spec fn cache_valid(bytes: Seq<u8>) -> bool {
    &&& cache_layout_valid(bytes, blake2b256_digest(fingerprint_message()))
    &&& forall|k: int|
        0 <= k < 3 ==> #[trigger] prefix_valid(
            (PALLAS15_MIN_DOMAIN_LOG2_SIZE + k) as u8,
            decoded_prefix(bytes, k),
        )
}

/// Every point of every prefix is its own re-encoding.
pub open spec fn prefixes_canonical(prefixes: Seq<LagrangePrefix>) -> bool {
    forall|k: int, j: int|
        0 <= k < prefixes.len() && 0 <= j < prefixes[k].points@.len() ==> #[trigger] pallas_uncompressed_reencoding(
            prefixes[k].points@[j]@,
        ) == Some(prefixes[k].points@[j]@)
}

/// Reads the byte at `offset`.
pub fn read_u8(bytes: &[u8], offset: usize) -> (value: u8)
    requires
        offset < bytes@.len(),
    ensures
        value == bytes@[offset as int],
{
    bytes[offset]
}

/// Reads the little-endian `u32` at `offset`.
pub fn read_u32(bytes: &[u8], offset: usize) -> (value: u32)
    requires
        offset + 4 <= bytes@.len(),
    ensures
        u32_le(value) == bytes@.subrange(offset as int, offset + 4),
{
    let b0 = bytes[offset];
    let b1 = bytes[offset + 1];
    let b2 = bytes[offset + 2];
    let b3 = bytes[offset + 3];
    let value: u32 = (b0 as u32) | ((b1 as u32) << 8u32) | ((b2 as u32) << 16u32) | ((b3 as u32)
        << 24u32);
    assert(value as u8 == b0 && (value >> 8u32) as u8 == b1 && (value >> 16u32) as u8 == b2 && (
    value >> 24u32) as u8 == b3) by (bit_vector)
        requires
            value == (b0 as u32) | ((b1 as u32) << 8u32) | ((b2 as u32) << 16u32) | ((b3 as u32)
                << 24u32),
    ;
    assert(u32_le(value) =~= bytes@.subrange(offset as int, offset + 4));
    value
}

/// `bytes` holds `expected` at `offset`.
fn bytes_match_at(bytes: &[u8], offset: usize, expected: &[u8]) -> (matches: bool)
    requires
        offset + expected@.len() <= bytes@.len(),
    ensures
        matches == (bytes@.subrange(offset as int, offset + expected@.len()) == expected@),
{
    let n = bytes.len();
    let mut i: usize = 0;
    while i < expected.len()
        invariant
            i <= expected@.len(),
            n == bytes@.len(),
            offset + expected@.len() <= bytes@.len(),
            forall|j: int| 0 <= j < i ==> bytes@[offset + j] == expected@[j],
        decreases expected@.len() - i,
    {
        if bytes[offset + i] != expected[i] {
            assert(bytes@.subrange(offset as int, offset + expected@.len())[i as int]
                != expected@[i as int]);
            return false;
        }
        i = i + 1;
    }
    assert(bytes@.subrange(offset as int, offset + expected@.len()) =~= expected@);
    true
}

/// Copies the 65 bytes at `offset`.
fn copy_point(bytes: &[u8], offset: usize) -> (point: [u8; 65])
    requires
        offset + 65 <= bytes@.len(),
    ensures
        point@ == bytes@.subrange(offset as int, offset + 65),
{
    let n = bytes.len();
    let mut point = [0u8; 65];
    let mut i: usize = 0;
    while i < 65
        invariant
            i <= 65,
            n == bytes@.len(),
            offset + 65 <= bytes@.len(),
            point@.len() == 65,
            forall|j: int| 0 <= j < i ==> point@[j] == bytes@[offset + j],
        decreases 65 - i,
    {
        point[i] = bytes[offset + i];
        i = i + 1;
    }
    assert(point@ =~= bytes@.subrange(offset as int, offset + 65));
    point
}

/// `u32_le` of the two counts that a cache stores.
proof fn lemma_stored_counts()
    ensures
        u32_le(3) == seq![3u8, 0u8, 0u8, 0u8],
        u32_le(40) == seq![40u8, 0u8, 0u8, 0u8],
        u32_le(1) == seq![1u8, 0u8, 0u8, 0u8],
{
    assert((3u32 >> 8u32) as u8 == 0u8 && (3u32 >> 16u32) as u8 == 0u8 && (3u32 >> 24u32) as u8
        == 0u8 && 3u32 as u8 == 3u8) by (bit_vector);
    assert((40u32 >> 8u32) as u8 == 0u8 && (40u32 >> 16u32) as u8 == 0u8 && (40u32 >> 24u32) as u8
        == 0u8 && 40u32 as u8 == 40u8) by (bit_vector);
    assert((1u32 >> 8u32) as u8 == 0u8 && (1u32 >> 16u32) as u8 == 0u8 && (1u32 >> 24u32) as u8
        == 0u8 && 1u32 as u8 == 1u8) by (bit_vector);
    assert(u32_le(3) =~= seq![3u8, 0u8, 0u8, 0u8]);
    assert(u32_le(40) =~= seq![40u8, 0u8, 0u8, 0u8]);
    assert(u32_le(1) =~= seq![1u8, 0u8, 0u8, 0u8]);
}

/// Reads the `k`-th prefix of a cache file whose header has been checked:
/// its domain and length must be the expected ones and each point must
/// decode.
fn parse_section(bytes: &[u8], k: usize) -> (prefix: Option<LagrangePrefix>)
    requires
        bytes@.len() == CACHE_SIZE,
        k < 3,
    ensures
        prefix is Some <==> {
            &&& bytes@[section_offset(k as int)] == PALLAS15_MIN_DOMAIN_LOG2_SIZE + k
            &&& bytes@.subrange(section_offset(k as int) + 1, section_offset(k as int) + 5)
                == u32_le(PALLAS15_LAGRANGE_PREFIX_SIZE as u32)
            &&& forall|j: int|
                0 <= j < PALLAS15_LAGRANGE_PREFIX_SIZE ==> #[trigger] pallas_uncompressed_reencoding(
                    encoded_point(bytes@, k as int, j),
                ) is Some
        },
        prefix matches Some(p) ==> {
            &&& p.domain_log2 == PALLAS15_MIN_DOMAIN_LOG2_SIZE + k
            &&& points_view(p.points@) == decoded_prefix(bytes@, k as int)
            &&& forall|j: int|
                0 <= j < p.points@.len() ==> #[trigger] pallas_uncompressed_reencoding(
                    p.points@[j]@,
                ) == Some(p.points@[j]@)
        },
{
    let offset = CACHE_HEADER_SIZE + k * CACHE_SECTION_SIZE;
    let domain_log2 = read_u8(bytes, offset);
    if domain_log2 as usize != PALLAS15_MIN_DOMAIN_LOG2_SIZE as usize + k {
        return None;
    }
    let length = read_u32(bytes, offset + 1);
    proof {
        lemma_stored_counts();
    }
    if length as usize != PALLAS15_LAGRANGE_PREFIX_SIZE {
        assert(u32_le(length) != u32_le(40)) by {
            if u32_le(length) == u32_le(40) {
                assert(length == 40u32) by (bit_vector)
                    requires
                        length as u8 == 40u8,
                        (length >> 8u32) as u8 == 0u8,
                        (length >> 16u32) as u8 == 0u8,
                        (length >> 24u32) as u8 == 0u8,
                ;
            }
        }
        return None;
    }
    let mut points: Vec<[u8; 65]> = Vec::new();
    let mut j: usize = 0;
    while j < PALLAS15_LAGRANGE_PREFIX_SIZE
        invariant
            j <= PALLAS15_LAGRANGE_PREFIX_SIZE,
            k < 3,
            bytes@.len() == CACHE_SIZE,
            offset == section_offset(k as int),
            bytes@[section_offset(k as int)] == PALLAS15_MIN_DOMAIN_LOG2_SIZE + k,
            bytes@.subrange(section_offset(k as int) + 1, section_offset(k as int) + 5) == u32_le(
                PALLAS15_LAGRANGE_PREFIX_SIZE as u32,
            ),
            domain_log2 == PALLAS15_MIN_DOMAIN_LOG2_SIZE + k,
            points@.len() == j,
            forall|i: int|
                0 <= i < j ==> pallas_uncompressed_reencoding(encoded_point(bytes@, k as int, i))
                    == Some(#[trigger] points@[i]@),
            forall|i: int|
                0 <= i < j ==> #[trigger] pallas_uncompressed_reencoding(points@[i]@) == Some(
                    points@[i]@,
                ),
        decreases PALLAS15_LAGRANGE_PREFIX_SIZE - j,
    {
        let encoding = copy_point(bytes, offset + 5 + 65 * j);
        assert(encoding@ == encoded_point(bytes@, k as int, j as int));
        match reencode_pallas_point(&encoding) {
            Some(point) => {
                points.push(point);
            },
            None => {
                return None;
            },
        }
        j = j + 1;
    }
    assert(points_view(points@) =~= decoded_prefix(bytes@, k as int));
    assert forall|j: int| 0 <= j < PALLAS15_LAGRANGE_PREFIX_SIZE implies #[trigger] pallas_uncompressed_reencoding(
        encoded_point(bytes@, k as int, j),
    ) is Some by {
        assert(pallas_uncompressed_reencoding(encoded_point(bytes@, k as int, j)) == Some(
            points@[j]@,
        ));
    }
    Some(LagrangePrefix { domain_log2, points })
}

/// Reads a cache file, accepting it only when it has the exact layout for
/// the pinned parameters, every point decodes, and every prefix is authentic.
/// The accepted prefixes are the decoded points, in order.
pub fn parse_cache(bytes: &[u8]) -> (prefixes: Option<Vec<LagrangePrefix>>)
    ensures
        prefixes is Some <==> cache_valid(bytes@),
        prefixes matches Some(p) ==> {
            &&& p@.len() == 3
            &&& forall|k: int|
                0 <= k < 3 ==> #[trigger] p@[k].domain_log2 == PALLAS15_MIN_DOMAIN_LOG2_SIZE + k
                    && points_view(p@[k].points@) == decoded_prefix(bytes@, k)
            &&& prefixes_canonical(p@)
        },
{
    if bytes.len() != CACHE_SIZE {
        return None;
    }
    proof {
        lemma_stored_counts();
    }
    let fingerprint = cache_fingerprint();
    let version: [u8; 4] = [1, 0, 0, 0];
    let count: [u8; 4] = [3, 0, 0, 0];
    assert(version@ =~= u32_le(CACHE_FORMAT_VERSION));
    assert(count@ =~= u32_le(3));
    if !bytes_match_at(bytes, 0, CACHE_MAGIC.as_slice()) || !bytes_match_at(
        bytes,
        16,
        version.as_slice(),
    ) || !bytes_match_at(bytes, 20, fingerprint.as_slice()) || !bytes_match_at(
        bytes,
        52,
        count.as_slice(),
    ) {
        return None;
    }
    let mut prefixes: Vec<LagrangePrefix> = Vec::new();
    let mut k: usize = 0;
    while k < 3
        invariant
            k <= 3,
            bytes@.len() == CACHE_SIZE,
            prefixes@.len() == k,
            forall|i: int|
                0 <= i < k ==> #[trigger] prefixes@[i].domain_log2 == PALLAS15_MIN_DOMAIN_LOG2_SIZE
                    + i && points_view(prefixes@[i].points@) == decoded_prefix(bytes@, i)
                    && prefix_valid(prefixes@[i].domain_log2, points_view(prefixes@[i].points@)),
            forall|i: int|
                0 <= i < k ==> #[trigger] bytes@[section_offset(i)] == PALLAS15_MIN_DOMAIN_LOG2_SIZE
                    + i && bytes@.subrange(section_offset(i) + 1, section_offset(i) + 5) == u32_le(
                    PALLAS15_LAGRANGE_PREFIX_SIZE as u32,
                ),
            forall|i: int, j: int|
                0 <= i < k && 0 <= j < PALLAS15_LAGRANGE_PREFIX_SIZE ==> #[trigger] pallas_uncompressed_reencoding(
                    encoded_point(bytes@, i, j),
                ) is Some,
            prefixes_canonical(prefixes@),
        decreases 3 - k,
    {
        match parse_section(bytes, k) {
            Some(prefix) => {
                if !validate_prefix(prefix.domain_log2, &prefix.points) {
                    assert(!prefix_valid(
                        (PALLAS15_MIN_DOMAIN_LOG2_SIZE + k) as u8,
                        decoded_prefix(bytes@, k as int),
                    ));
                    return None;
                }
                let ghost before = prefixes@;
                prefixes.push(prefix);
                assert(prefixes@ == before.push(prefix));
                assert(prefixes_canonical(prefixes@)) by {
                    assert forall|i: int, j: int|
                        0 <= i < prefixes@.len() && 0 <= j < prefixes@[i].points@.len() implies #[trigger] pallas_uncompressed_reencoding(
                        prefixes@[i].points@[j]@,
                    ) == Some(prefixes@[i].points@[j]@) by {
                        if i < k {
                            assert(prefixes@[i] == before[i]);
                        }
                    }
                }
            },
            None => {
                return None;
            },
        }
        k = k + 1;
    }
    assert(cache_valid(bytes@)) by {
        assert forall|i: int| 0 <= i < 3 implies #[trigger] prefix_valid(
            (PALLAS15_MIN_DOMAIN_LOG2_SIZE + i) as u8,
            decoded_prefix(bytes@, i),
        ) by {
            assert(prefixes@[i].domain_log2 == PALLAS15_MIN_DOMAIN_LOG2_SIZE + i);
        }
    }
    Some(prefixes)
}


/// One stored prefix: its domain, its length and its points.
pub open spec fn section_bytes(prefix: LagrangePrefix) -> Seq<u8> {
    seq![prefix.domain_log2] + u32_le(prefix.points@.len() as u32) + flatten(prefix.points@)
}

/// The stored prefixes, in order.
pub open spec fn sections_bytes(prefixes: Seq<LagrangePrefix>) -> Seq<u8>
    decreases prefixes.len(),
{
    if prefixes.len() == 0 {
        Seq::empty()
    } else {
        sections_bytes(prefixes.drop_last()) + section_bytes(prefixes.last())
    }
}

/// The cache file that holds `prefixes` under `fingerprint`.
pub open spec fn cache_bytes(fingerprint: Seq<u8>, prefixes: Seq<LagrangePrefix>) -> Seq<u8> {
    CACHE_MAGIC@ + u32_le(CACHE_FORMAT_VERSION) + fingerprint + u32_le(prefixes.len() as u32)
        + sections_bytes(prefixes)
}

/// Checks that a point is its own re-encoding.
fn point_canonical(point: &[u8; 65]) -> (canonical: bool)
    ensures
        canonical == (pallas_uncompressed_reencoding(point@) == Some(point@)),
{
    match reencode_pallas_point(point) {
        Some(again) => {
            let same = bytes_match_at(again.as_slice(), 0, point.as_slice());
            assert(again@.subrange(0, 65) =~= again@);
            same
        },
        None => false,
    }
}

/// Checks that every point of every prefix is its own re-encoding.
fn prefixes_canonical_check(prefixes: &Vec<LagrangePrefix>) -> (canonical: bool)
    ensures
        canonical == prefixes_canonical(prefixes@),
{
    let mut k: usize = 0;
    while k < prefixes.len()
        invariant
            k <= prefixes@.len(),
            forall|i: int, j: int|
                0 <= i < k && 0 <= j < prefixes@[i].points@.len() ==> #[trigger] pallas_uncompressed_reencoding(
                    prefixes@[i].points@[j]@,
                ) == Some(prefixes@[i].points@[j]@),
        decreases prefixes@.len() - k,
    {
        let points = &prefixes[k].points;
        let mut j: usize = 0;
        while j < points.len()
            invariant
                k < prefixes@.len(),
                *points == prefixes@[k as int].points,
                j <= points@.len(),
                forall|i: int, t: int|
                    0 <= i < k && 0 <= t < prefixes@[i].points@.len() ==> #[trigger] pallas_uncompressed_reencoding(
                        prefixes@[i].points@[t]@,
                    ) == Some(prefixes@[i].points@[t]@),
                forall|t: int|
                    0 <= t < j ==> #[trigger] pallas_uncompressed_reencoding(points@[t]@) == Some(
                        points@[t]@,
                    ),
            decreases points@.len() - j,
        {
            if !point_canonical(&points[j]) {
                return false;
            }
            j = j + 1;
        }
        k = k + 1;
    }
    true
}

/// Writes the cache file for the authentic prefixes, every point being
/// given by its canonical encoding; refuses any other prefixes.
pub fn encode_cache(prefixes: &Vec<LagrangePrefix>) -> (bytes: Option<Vec<u8>>)
    ensures
        bytes is Some <==> prefixes_valid(prefixes@) && prefixes_canonical(prefixes@),
        bytes matches Some(b) ==> b@ == cache_bytes(
            blake2b256_digest(fingerprint_message()),
            prefixes@,
        ),
{
    if !validate_prefixes(prefixes) || !prefixes_canonical_check(prefixes) {
        return None;
    }
    let fingerprint = cache_fingerprint();
    let mut out: Vec<u8> = Vec::new();
    push_bytes(&mut out, CACHE_MAGIC.as_slice());
    push_u32_le(&mut out, CACHE_FORMAT_VERSION);
    push_bytes(&mut out, fingerprint.as_slice());
    push_u32_le(&mut out, prefixes.len() as u32);
    let ghost head = out@;
    let mut k: usize = 0;
    while k < prefixes.len()
        invariant
            k <= prefixes@.len(),
            prefixes_valid(prefixes@),
            out@ == head + sections_bytes(prefixes@.take(k as int)),
        decreases prefixes@.len() - k,
    {
        let prefix = &prefixes[k];
        assert(prefixes@[k as int].domain_log2 == PALLAS15_MIN_DOMAIN_LOG2_SIZE + k);
        assert(prefix.points@.len() == PALLAS15_LAGRANGE_PREFIX_SIZE);
        out.push(prefix.domain_log2);
        push_u32_le(&mut out, prefix.points.len() as u32);
        push_flattened(&mut out, prefix.points.as_slice());
        assert(prefixes@.take(k as int + 1).drop_last() =~= prefixes@.take(k as int));
        assert(out@ =~= head + sections_bytes(prefixes@.take(k as int + 1)));
        k = k + 1;
    }
    assert(prefixes@.take(prefixes@.len() as int) =~= prefixes@);
    Some(out)
}

/// The `i`-th byte of the `j`-th of a sequence of 65-byte encodings.
proof fn lemma_flatten_index(items: Seq<[u8; 65]>, j: int, i: int)
    requires
        0 <= j < items.len(),
        0 <= i < 65,
    ensures
        flatten(items).len() == 65 * items.len(),
        flatten(items)[65 * j + i] == items[j]@[i],
    decreases items.len(),
{
    lemma_flatten_len(items);
    if j < items.len() - 1 {
        lemma_flatten_index(items.drop_last(), j, i);
    }
}

/// Sixty-five bytes per encoding.
proof fn lemma_flatten_len(items: Seq<[u8; 65]>)
    ensures
        flatten(items).len() == 65 * items.len(),
    decreases items.len(),
{
    if items.len() > 0 {
        lemma_flatten_len(items.drop_last());
    }
}

/// The `i`-th byte of the `k`-th of a sequence of prefixes of 40 points.
proof fn lemma_sections_index(prefixes: Seq<LagrangePrefix>, k: int, i: int)
    requires
        forall|m: int|
            0 <= m < prefixes.len() ==> (#[trigger] prefixes[m]).points@.len()
                == PALLAS15_LAGRANGE_PREFIX_SIZE,
        0 <= k < prefixes.len(),
        0 <= i < CACHE_SECTION_SIZE,
    ensures
        sections_bytes(prefixes).len() == CACHE_SECTION_SIZE * prefixes.len(),
        sections_bytes(prefixes)[CACHE_SECTION_SIZE * k + i] == section_bytes(prefixes[k])[i],
    decreases prefixes.len(),
{
    lemma_sections_len(prefixes);
    lemma_flatten_len(prefixes.last().points@);
    if k < prefixes.len() - 1 {
        lemma_sections_index(prefixes.drop_last(), k, i);
    }
}

/// A section of 40 points takes `CACHE_SECTION_SIZE` bytes.
proof fn lemma_sections_len(prefixes: Seq<LagrangePrefix>)
    requires
        forall|m: int|
            0 <= m < prefixes.len() ==> (#[trigger] prefixes[m]).points@.len()
                == PALLAS15_LAGRANGE_PREFIX_SIZE,
    ensures
        sections_bytes(prefixes).len() == CACHE_SECTION_SIZE * prefixes.len(),
    decreases prefixes.len(),
{
    if prefixes.len() > 0 {
        lemma_sections_len(prefixes.drop_last());
        lemma_flatten_len(prefixes.last().points@);
    }
}

/// Reading back a written cache: every file that [`encode_cache`] (or
/// [`install_generated`]) writes, which it does exactly for authentic
/// prefixes whose points are canonical encodings, is a file that
/// [`parse_cache`] accepts, and it decodes to the same points; with any byte
/// appended, the file is refused.
pub proof fn lemma_cache_roundtrip(fingerprint: [u8; 32], prefixes: Seq<LagrangePrefix>)
    requires
        fingerprint@ == blake2b256_digest(fingerprint_message()),
        prefixes_valid(prefixes),
        prefixes_canonical(prefixes),
    ensures
        cache_valid(cache_bytes(fingerprint@, prefixes)),
        forall|k: int|
            0 <= k < 3 ==> decoded_prefix(cache_bytes(fingerprint@, prefixes), k) == points_view(
                #[trigger] prefixes[k].points@,
            ),
        forall|extra: Seq<u8>|
            extra.len() > 0 ==> !cache_valid(#[trigger] (cache_bytes(fingerprint@, prefixes) + extra)),
{
    let bytes = cache_bytes(fingerprint@, prefixes);
    let header = CACHE_MAGIC@ + u32_le(CACHE_FORMAT_VERSION) + fingerprint@ + u32_le(
        prefixes.len() as u32,
    );
    assert forall|m: int| 0 <= m < prefixes.len() implies (#[trigger] prefixes[m]).points@.len()
        == PALLAS15_LAGRANGE_PREFIX_SIZE by {
        assert(prefixes[m].domain_log2 == PALLAS15_MIN_DOMAIN_LOG2_SIZE + m);
    }
    lemma_sections_len(prefixes);
    assert(header.len() == CACHE_HEADER_SIZE);
    assert(bytes == header + sections_bytes(prefixes));
    assert(bytes.len() == CACHE_SIZE);
    assert(bytes.subrange(0, 16) =~= CACHE_MAGIC@);
    assert(bytes.subrange(16, 20) =~= u32_le(CACHE_FORMAT_VERSION));
    assert(bytes.subrange(20, 52) =~= fingerprint@);
    assert(bytes.subrange(52, 56) =~= u32_le(3));
    assert forall|k: int| 0 <= k < 3 implies #[trigger] bytes[section_offset(k)]
        == PALLAS15_MIN_DOMAIN_LOG2_SIZE + k && bytes.subrange(
        section_offset(k) + 1,
        section_offset(k) + 5,
    ) == u32_le(PALLAS15_LAGRANGE_PREFIX_SIZE as u32) by {
        lemma_sections_index(prefixes, k, 0);
        assert(prefixes[k].domain_log2 == PALLAS15_MIN_DOMAIN_LOG2_SIZE + k);
        assert(prefixes[k].points@.len() == PALLAS15_LAGRANGE_PREFIX_SIZE);
        assert forall|i: int| 0 <= i < 4 implies #[trigger] bytes.subrange(
            section_offset(k) + 1,
            section_offset(k) + 5,
        )[i] == u32_le(PALLAS15_LAGRANGE_PREFIX_SIZE as u32)[i] by {
            lemma_sections_index(prefixes, k, i + 1);
            assert(section_bytes(prefixes[k])[i + 1] == u32_le(prefixes[k].points@.len() as u32)[i]);
        }
        assert(bytes.subrange(section_offset(k) + 1, section_offset(k) + 5) =~= u32_le(
            PALLAS15_LAGRANGE_PREFIX_SIZE as u32,
        ));
    }
    assert forall|k: int, j: int| 0 <= k < 3 && 0 <= j < PALLAS15_LAGRANGE_PREFIX_SIZE implies encoded_point(
        bytes,
        k,
        j,
    ) == #[trigger] prefixes[k].points@[j]@ by {
        assert forall|i: int| 0 <= i < 65 implies encoded_point(bytes, k, j)[i]
            == prefixes[k].points@[j]@[i] by {
            lemma_sections_index(prefixes, k, 5 + 65 * j + i);
            lemma_flatten_index(prefixes[k].points@, j, i);
        }
        assert(encoded_point(bytes, k, j) =~= prefixes[k].points@[j]@);
    }
    assert forall|k: int| 0 <= k < 3 implies decoded_prefix(bytes, k) == points_view(
        #[trigger] prefixes[k].points@,
    ) by {
        assert forall|j: int| 0 <= j < PALLAS15_LAGRANGE_PREFIX_SIZE implies decoded_prefix(
            bytes,
            k,
        )[j] == points_view(prefixes[k].points@)[j] by {
            assert(encoded_point(bytes, k, j) == prefixes[k].points@[j]@);
        }
        assert(decoded_prefix(bytes, k) =~= points_view(prefixes[k].points@));
    }
    assert forall|k: int, j: int| 0 <= k < 3 && 0 <= j < PALLAS15_LAGRANGE_PREFIX_SIZE implies #[trigger] pallas_uncompressed_reencoding(
        encoded_point(bytes, k, j),
    ) is Some by {
        assert(encoded_point(bytes, k, j) == prefixes[k].points@[j]@);
    }
    assert forall|k: int| 0 <= k < 3 implies #[trigger] prefix_valid(
        (PALLAS15_MIN_DOMAIN_LOG2_SIZE + k) as u8,
        decoded_prefix(bytes, k),
    ) by {
        assert(prefixes[k].domain_log2 == PALLAS15_MIN_DOMAIN_LOG2_SIZE + k);
    }
}


// ---------------------------------------------------------------------------
// Preparing the parameters
// ---------------------------------------------------------------------------

/// Uncompressed encodings of the points of the Pallas IPA SRS.
#[derive(Clone, Debug, PartialEq, Eq)]
pub struct PallasSrsPoints {
    pub g: Vec<[u8; 65]>,
    pub h: [u8; 65],
}

/// The message whose digest pins the Pallas SRS.
pub open spec fn srs_digest_message(srs: PallasSrsPoints) -> Seq<u8> {
    "pickles:v1:pallas15:srs".spec_bytes() + u64_le(srs.g@.len() as u64) + flatten(srs.g@) + srs.h@
}

/// Digest of the Pallas SRS.
pub fn srs_digest(srs: &PallasSrsPoints) -> (digest: [u8; 32])
    ensures
        digest@ == blake2b256_digest(srs_digest_message(*srs)),
{
    let mut message: Vec<u8> = Vec::new();
    push_bytes(&mut message, "pickles:v1:pallas15:srs".as_bytes());
    push_u64_le(&mut message, srs.g.len() as u64);
    push_flattened(&mut message, srs.g.as_slice());
    push_bytes(&mut message, srs.h.as_slice());
    blake2b256(message.as_slice())
}

/// The SRS is the pinned one.
pub open spec fn srs_matches(srs: PallasSrsPoints) -> bool {
    blake2b256_digest(srs_digest_message(srs)) == PALLAS_SRS_15_DIGEST@
}

/// Result of preparing all `PicklesV1` Pallas verifier parameters.
#[derive(Clone, Copy, Debug, PartialEq, Eq, Structural)]
pub enum Pallas15PrewarmStatus {
    /// The authenticated Lagrange prefixes were loaded from the local cache.
    Loaded,
    /// The prefixes were generated and persisted to the local cache.
    Generated,
    /// The prefixes were generated, but the local cache could not be persisted.
    GeneratedWithoutCache,
}

/// What preparing the parameters does next, once the SRS and the cache have
/// been looked at.
#[derive(Clone, Debug, PartialEq, Eq)]
pub enum PrewarmDecision {
    /// Preparation fails.
    Failed(VerifyError),
    /// The prefixes are already installed, and were prepared as the status
    /// says; nothing is to be done.
    AlreadyPrepared(Pallas15PrewarmStatus),
    /// Install these prefixes, read from the cache.
    Install(Vec<LagrangePrefix>),
    /// The cache is missing or unusable: generate the prefixes.
    Generate,
}

/// The first decision of preparing the Pallas15 parameters: the SRS must be
/// the pinned one; prefixes already installed are kept, `installed` being
/// the status with which they were prepared; otherwise a cache file (`None`
/// when there is none) is used when it is valid, and the prefixes are
/// generated when it is missing or invalid.
pub fn prewarm_pallas15_srs(
    srs: &PallasSrsPoints,
    installed: Option<Pallas15PrewarmStatus>,
    cache_file: Option<&[u8]>,
) -> (decision: PrewarmDecision)
    ensures
        !srs_matches(*srs) ==> decision == PrewarmDecision::Failed(
            VerifyError::IncompatibleParameters,
        ),
        srs_matches(*srs) && installed is Some ==> decision == PrewarmDecision::AlreadyPrepared(
            installed->0,
        ),
        srs_matches(*srs) && installed is None ==> match cache_file {
            Some(bytes) => if cache_valid(bytes@) {
                (decision matches PrewarmDecision::Install(prefixes) && prefixes@.len() == 3
                    && forall|k: int|
                    0 <= k < 3 ==> #[trigger] prefixes@[k].domain_log2
                        == PALLAS15_MIN_DOMAIN_LOG2_SIZE + k && points_view(prefixes@[k].points@)
                        == decoded_prefix(bytes@, k))
            } else {
                decision == PrewarmDecision::Generate
            },
            None => decision == PrewarmDecision::Generate,
        },
{
    let digest = srs_digest(srs);
    if !bytes_equal(&digest, &PALLAS_SRS_15_DIGEST) {
        return PrewarmDecision::Failed(VerifyError::IncompatibleParameters);
    }
    match installed {
        Some(status) => {
            return PrewarmDecision::AlreadyPrepared(status);
        },
        None => {},
    }
    match cache_file {
        Some(bytes) => match parse_cache(bytes) {
            Some(prefixes) => PrewarmDecision::Install(prefixes),
            None => PrewarmDecision::Generate,
        },
        None => PrewarmDecision::Generate,
    }
}

/// A host request for the first `count` commitments of the Lagrange prefix
/// of a wrap domain can be served: the domain is one of 2^13, 2^14, 2^15,
/// and the prefix holds that many commitments.
pub open spec fn prefix_request_valid(domain_log2: u8, count: u32) -> bool {
    &&& PALLAS15_MIN_DOMAIN_LOG2_SIZE <= domain_log2 <= PALLAS15_MAX_DOMAIN_LOG2_SIZE
    &&& count <= PALLAS15_LAGRANGE_PREFIX_SIZE
}

/// Serves the first `count` commitments of the installed Lagrange prefix of
/// a wrap domain, or refuses the request.
pub fn lagrange_basis_prefix(
    installed: &Vec<LagrangePrefix>,
    domain_log2: u8,
    count: u32,
) -> (prefix: Option<Vec<[u8; 65]>>)
    requires
        prefixes_valid(installed@),
    ensures
        prefix is Some <==> prefix_request_valid(domain_log2, count),
        prefix matches Some(points) ==> points@ == installed@[domain_log2
            - PALLAS15_MIN_DOMAIN_LOG2_SIZE].points@.take(count as int),
{
    if domain_log2 < PALLAS15_MIN_DOMAIN_LOG2_SIZE || domain_log2 > PALLAS15_MAX_DOMAIN_LOG2_SIZE
        || count as usize > PALLAS15_LAGRANGE_PREFIX_SIZE {
        return None;
    }
    let k = (domain_log2 - PALLAS15_MIN_DOMAIN_LOG2_SIZE) as usize;
    let source = &installed[k];
    assert(source.domain_log2 == PALLAS15_MIN_DOMAIN_LOG2_SIZE + k);
    assert(source.points@.len() == PALLAS15_LAGRANGE_PREFIX_SIZE);
    let mut points: Vec<[u8; 65]> = Vec::new();
    let mut i: usize = 0;
    while i < count as usize
        invariant
            i <= count <= PALLAS15_LAGRANGE_PREFIX_SIZE,
            source.points@.len() == PALLAS15_LAGRANGE_PREFIX_SIZE,
            points@ == source.points@.take(i as int),
        decreases count - i,
    {
        points.push(source.points[i]);
        assert(source.points@.take(i as int + 1) =~= source.points@.take(i as int).push(
            source.points@[i as int],
        ));
        i = i + 1;
    }
    Some(points)
}

/// Installs generated prefixes: they must be the authentic ones, each
/// point given by its canonical encoding; the result is the cache file to
/// persist for them.
pub fn install_generated(prefixes: &Vec<LagrangePrefix>) -> (cache: Result<Vec<u8>, VerifyError>)
    ensures
        prefixes_valid(prefixes@) && prefixes_canonical(prefixes@) ==> (cache matches Ok(bytes)
            && bytes@ == cache_bytes(blake2b256_digest(fingerprint_message()), prefixes@)),
        !(prefixes_valid(prefixes@) && prefixes_canonical(prefixes@)) ==> cache == Err::<
            Vec<u8>,
            VerifyError,
        >(VerifyError::IncompatibleParameters),
{
    match encode_cache(prefixes) {
        Some(bytes) => Ok(bytes),
        None => Err(VerifyError::IncompatibleParameters),
    }
}

/// The status that preparing reports after its decision, `persisted`
/// telling whether the cache file of generated prefixes was written: `Loaded`
/// exactly for prefixes installed from a valid cache file, now or when they
/// were first prepared; `None` when preparing fails.
pub fn prewarm_status(decision: &PrewarmDecision, persisted: bool) -> (status: Option<
    Pallas15PrewarmStatus,
>)
    ensures
        match *decision {
            PrewarmDecision::Failed(_) => status is None,
            PrewarmDecision::AlreadyPrepared(earlier) => status == Some(earlier),
            PrewarmDecision::Install(_) => status == Some(Pallas15PrewarmStatus::Loaded),
            PrewarmDecision::Generate => status == Some(
                if persisted {
                    Pallas15PrewarmStatus::Generated
                } else {
                    Pallas15PrewarmStatus::GeneratedWithoutCache
                },
            ),
        },
{
    match decision {
        PrewarmDecision::Failed(_) => None,
        PrewarmDecision::AlreadyPrepared(earlier) => Some(*earlier),
        PrewarmDecision::Install(_) => Some(Pallas15PrewarmStatus::Loaded),
        PrewarmDecision::Generate => Some(generated_status(persisted)),
    }
}

/// The status after generating the prefixes, by whether the cache file
/// could be persisted.
pub fn generated_status(persisted: bool) -> (status: Pallas15PrewarmStatus)
    ensures
        persisted ==> status == Pallas15PrewarmStatus::Generated,
        !persisted ==> status == Pallas15PrewarmStatus::GeneratedWithoutCache,
{
    if persisted {
        Pallas15PrewarmStatus::Generated
    } else {
        Pallas15PrewarmStatus::GeneratedWithoutCache
    }
}

} // verus!
