//! Byte-level model of the Ristretto group used by the protocol.
//!
//! Every group element travels through the protocol as its canonical 32-byte
//! encoding, exactly as the transmissible data model demands. The group
//! operations are performed by `curve25519_dalek` through
//! `wedpr_l_crypto_zkp_utils`; the contracts speak of them through
//! uninterpreted names over those encodings, together with the algebraic laws
//! of the prime-order Ristretto group.

use vstd::prelude::*;

use crate::AbvError;
use wedpr_l_crypto_zkp_utils::{
    bytes_to_point, bytes_to_scalar, get_random_scalar, point_to_bytes, scalar_to_bytes,
    BASEPOINT_G1, BASEPOINT_G2,
};

verus! {

/// Encoding of the sum of the two group elements encoded by `a` and `b`
/// (`core::ops::Add` on `RistrettoPoint`, composed with the canonical
/// encoding).
pub uninterp spec fn pt_add(a: Seq<u8>, b: Seq<u8>) -> Seq<u8>;

/// Encoding of the scalar multiple `s * p` of the group element encoded by
/// `p` (`core::ops::Mul<RistrettoPoint> for Scalar`).
pub uninterp spec fn pt_mul(s: Seq<u8>, p: Seq<u8>) -> Seq<u8>;

/// Encoding of the sum mod the group order of the scalars encoded by `a` and
/// `b` (`core::ops::Add` on `Scalar`).
pub uninterp spec fn sc_add(a: Seq<u8>, b: Seq<u8>) -> Seq<u8>;

/// Encoding of the difference mod the group order of the scalars encoded by
/// `a` and `b` (`core::ops::Sub` on `Scalar`).
pub uninterp spec fn sc_sub(a: Seq<u8>, b: Seq<u8>) -> Seq<u8>;

/// Whether `b` is a canonical encoding of a group element, that is, whether
/// `wedpr_l_crypto_zkp_utils::bytes_to_point` accepts it.
pub uninterp spec fn is_point(b: Seq<u8>) -> bool;

/// Whether `b` is the canonical 32-byte encoding of a scalar mod the group
/// order (`curve25519_dalek::scalar::Scalar::is_canonical`).
pub uninterp spec fn is_scalar(b: Seq<u8>) -> bool;

/// Encoding of `RistrettoPoint::hash_from_bytes::<Sha3_512>(seed)`, the
/// hash-to-group map that defines the second basepoint.
pub uninterp spec fn hash_to_group(seed: Seq<u8>) -> Seq<u8>;

/// The canonical encoding of the fixed basepoint G1
/// (`curve25519_dalek::constants::RISTRETTO_BASEPOINT_COMPRESSED`).
pub open spec fn g1_enc() -> Seq<u8> {
    seq![
        0xe2u8, 0xf2u8, 0xaeu8, 0x0au8, 0x6au8, 0xbcu8, 0x4eu8, 0x71u8, 0xa8u8, 0x84u8, 0xa9u8,
        0x61u8, 0xc5u8, 0x00u8, 0x51u8, 0x5fu8, 0x58u8, 0xe3u8, 0x0bu8, 0x6au8, 0xa5u8, 0x82u8,
        0xddu8, 0x8du8, 0xb6u8, 0xa6u8, 0x59u8, 0x45u8, 0xe0u8, 0x8du8, 0x2du8, 0x76u8,
    ]
}

/// The canonical encoding of the second basepoint G2, derived by hashing the
/// encoding of G1 to the group.
pub open spec fn g2_enc() -> Seq<u8> {
    hash_to_group(g1_enc())
}

/// The canonical encoding of the group identity: 32 zero bytes.
pub open spec fn identity_enc() -> Seq<u8> {
    Seq::new(32, |i: int| 0u8)
}

/// The canonical little-endian 32-byte scalar encoding of a small
/// non-negative integer, as `Scalar::from(u64)` produces it.
pub open spec fn u64_scalar(v: int) -> Seq<u8> {
    Seq::new(32, |i: int| if i < 8 { ((v / pow256(i)) % 256) as u8 } else { 0u8 })
}

/// 256 to the power `i`, for little-endian byte decomposition.
pub open spec fn pow256(i: int) -> int
    decreases i,
{
    if i <= 0 {
        1
    } else {
        256 * pow256(i - 1)
    }
}

/// The encoding of the Pedersen commitment `v * G1 + blinding * base`, the
/// shape of every ciphertext1 in the protocol.
pub open spec fn commit(v: int, blinding: Seq<u8>, base: Seq<u8>) -> Seq<u8> {
    pt_add(pt_mul(u64_scalar(v), g1_enc()), pt_mul(blinding, base))
}

/// The algebraic laws of the prime-order Ristretto group and its scalar
/// field, stated over canonical encodings. Each is a documented property of
/// `curve25519_dalek`: the Ristretto group is abelian of prime order, scalar
/// arithmetic is mod the group order, encodings are canonical (equal group
/// elements have equal encodings), the identity encodes as 32 zero bytes,
/// `0 * p` is the identity, scalar multiplication distributes over scalar
/// addition, and `Scalar::from(u64)` encodes small integers canonically so
/// that their scalar sums match integer sums.
pub open spec fn ristretto_laws() -> bool {
    &&& forall|a: Seq<u8>, b: Seq<u8>| #[trigger] pt_add(a, b) == pt_add(b, a)
    &&& forall|a: Seq<u8>, b: Seq<u8>, c: Seq<u8>|
        #[trigger] pt_add(pt_add(a, b), c) == pt_add(a, pt_add(b, c))
    &&& forall|a: Seq<u8>| is_point(a) ==> #[trigger] pt_add(identity_enc(), a) == a
    &&& is_point(identity_enc())
    &&& is_point(g1_enc())
    &&& is_point(g2_enc())
    &&& forall|a: Seq<u8>, b: Seq<u8>| is_point(#[trigger] pt_add(a, b))
    &&& forall|s: Seq<u8>, p: Seq<u8>| is_point(#[trigger] pt_mul(s, p))
    &&& forall|s: Seq<u8>| is_scalar(s) ==> s.len() == 32
    &&& forall|s1: Seq<u8>, s2: Seq<u8>, p: Seq<u8>|
        is_scalar(s1) && is_scalar(s2) ==> #[trigger] pt_add(pt_mul(s1, p), pt_mul(s2, p))
            == pt_mul(sc_add(s1, s2), p)
    &&& forall|p: Seq<u8>| #[trigger] pt_mul(u64_scalar(0), p) == identity_enc()
    &&& forall|v: int| 0 <= v < 0x1_0000_0000_0000_0000 ==> is_scalar(#[trigger] u64_scalar(v))
    &&& forall|a: Seq<u8>, b: Seq<u8>|
        is_scalar(a) && is_scalar(b) ==> is_scalar(#[trigger] sc_add(a, b))
    &&& forall|v1: int, v2: int|
        0 <= v1 && 0 <= v2 && v1 + v2 < 0x1_0000_0000_0000_0000
            ==> #[trigger] sc_add(u64_scalar(v1), u64_scalar(v2)) == u64_scalar(v1 + v2)
}

/// The returned bytes are exactly `v`, and the group laws hold.
pub open spec fn lawful_bytes(r: Seq<u8>, v: Seq<u8>) -> bool {
    r == v && ristretto_laws()
}

/// The returned flag is exactly `v`, and the group laws hold.
pub open spec fn lawful_flag(r: bool, v: bool) -> bool {
    r == v && ristretto_laws()
}

/// The returned bytes are a canonical scalar encoding, and the group laws
/// hold.
pub open spec fn lawful_scalar(r: Seq<u8>) -> bool {
    is_scalar(r) && ristretto_laws()
}

/// Both arguments are canonical group element encodings.
pub open spec fn both_points(a: Seq<u8>, b: Seq<u8>) -> bool {
    is_point(a) && is_point(b)
}

/// A 32-byte scalar encoding and a canonical group element encoding.
pub open spec fn scalar_point_args(s: Seq<u8>, p: Seq<u8>) -> bool {
    s.len() == 32 && is_point(p)
}

/// Two 32-byte scalar encodings.
pub open spec fn both_scalars_32(a: Seq<u8>, b: Seq<u8>) -> bool {
    a.len() == 32 && b.len() == 32
}

/// Relies on `wedpr_l_crypto_zkp_utils::get_random_scalar` and
/// `scalar_to_bytes`: a uniformly random scalar from a cryptographically
/// secure source, in canonical encoding. Nothing more can be promised of a
/// random value.
#[verifier::external_body]
pub(crate) fn random_scalar() -> (r: Vec<u8>)
    ensures
        is_scalar(r@),
        lawful_scalar(r@),
{
    scalar_to_bytes(&get_random_scalar())
}

/// Relies on `wedpr_l_crypto_zkp_utils::BASEPOINT_G1`, the Ristretto
/// basepoint, whose compressed encoding is the documented constant
/// `RISTRETTO_BASEPOINT_COMPRESSED`.
#[verifier::external_body]
pub(crate) fn basepoint_g1() -> (r: Vec<u8>)
    ensures
        lawful_bytes(r@, g1_enc()),
{
    point_to_bytes(&BASEPOINT_G1)
}

/// Relies on `wedpr_l_crypto_zkp_utils::BASEPOINT_G2`, defined there as
/// `RistrettoPoint::hash_from_bytes::<Sha3_512>` of the encoding of G1.
#[verifier::external_body]
pub(crate) fn basepoint_g2() -> (r: Vec<u8>)
    ensures
        r@ == hash_to_group(g1_enc()),
        lawful_bytes(r@, g2_enc()),
{
    point_to_bytes(&BASEPOINT_G2)
}

/// Relies on `curve25519_dalek::ristretto::RistrettoPoint::default`, the
/// group identity, whose canonical encoding is 32 zero bytes.
#[verifier::external_body]
pub(crate) fn point_identity() -> (r: Vec<u8>)
    ensures
        lawful_bytes(r@, identity_enc()),
{
    point_to_bytes(&curve25519_dalek::ristretto::RistrettoPoint::default())
}

/// Relies on `curve25519_dalek::scalar::Scalar::from(u64)` and
/// `scalar_to_bytes`: the canonical little-endian encoding of a small
/// integer.
#[verifier::external_body]
pub(crate) fn scalar_from_u64(v: u64) -> (r: Vec<u8>)
    ensures
        lawful_bytes(r@, u64_scalar(v as int)),
{
    scalar_to_bytes(&curve25519_dalek::scalar::Scalar::from(v))
}

/// Relies on `wedpr_l_crypto_zkp_utils::bytes_to_point`: accepts exactly the
/// canonical 32-byte group element encodings.
#[verifier::external_body]
pub(crate) fn point_valid(p: &Vec<u8>) -> (r: bool)
    ensures
        lawful_flag(r, is_point(p@)),
{
    bytes_to_point(p).is_ok()
}

/// Relies on `wedpr_l_crypto_zkp_utils::bytes_to_point`, `point_to_bytes`
/// and `core::ops::Add` on `RistrettoPoint`: decodes both encodings, adds in
/// the group, and re-encodes.
#[verifier::external_body]
pub(crate) fn point_add(a: &Vec<u8>, b: &Vec<u8>) -> (r: Result<Vec<u8>, AbvError>)
    ensures
        r is Ok <==> both_points(a@, b@),
        r matches Ok(v) ==> lawful_bytes(v@, pt_add(a@, b@)),
        r matches Err(e) ==> e == AbvError::ParseError,
{
    let pa = bytes_to_point(a).map_err(|_| AbvError::ParseError)?;
    let pb = bytes_to_point(b).map_err(|_| AbvError::ParseError)?;
    Ok(point_to_bytes(&(pa + pb)))
}

/// Relies on `wedpr_l_crypto_zkp_utils::bytes_to_scalar`, `bytes_to_point`,
/// `point_to_bytes` and `core::ops::Mul<RistrettoPoint> for Scalar`:
/// decodes, multiplies in the group, and re-encodes. `bytes_to_scalar`
/// accepts exactly 32-byte inputs.
#[verifier::external_body]
pub(crate) fn point_mul(s: &Vec<u8>, p: &Vec<u8>) -> (r: Result<Vec<u8>, AbvError>)
    ensures
        r is Ok <==> scalar_point_args(s@, p@),
        r matches Ok(v) ==> lawful_bytes(v@, pt_mul(s@, p@)),
        r matches Err(e) ==> e == AbvError::ParseError,
{
    let sc = bytes_to_scalar(s).map_err(|_| AbvError::ParseError)?;
    let pp = bytes_to_point(p).map_err(|_| AbvError::ParseError)?;
    Ok(point_to_bytes(&(sc * pp)))
}

/// Relies on `wedpr_l_crypto_zkp_utils::bytes_to_scalar`, `scalar_to_bytes`
/// and `core::ops::Add` on `Scalar`: addition mod the group order, with a
/// canonical result on canonical inputs.
#[verifier::external_body]
pub(crate) fn scalar_add(a: &Vec<u8>, b: &Vec<u8>) -> (r: Result<Vec<u8>, AbvError>)
    ensures
        r is Ok <==> both_scalars_32(a@, b@),
        r matches Ok(v) ==> lawful_bytes(v@, sc_add(a@, b@)),
        r matches Ok(v) ==> v@.len() == 32,
        r matches Err(e) ==> e == AbvError::ParseError,
{
    let sa = bytes_to_scalar(a).map_err(|_| AbvError::ParseError)?;
    let sb = bytes_to_scalar(b).map_err(|_| AbvError::ParseError)?;
    Ok(scalar_to_bytes(&(sa + sb)))
}

/// Relies on `wedpr_l_crypto_zkp_utils::bytes_to_scalar`, `scalar_to_bytes`
/// and `core::ops::Sub` on `Scalar`: subtraction mod the group order, with a
/// canonical result on canonical inputs.
#[verifier::external_body]
pub(crate) fn scalar_sub(a: &Vec<u8>, b: &Vec<u8>) -> (r: Result<Vec<u8>, AbvError>)
    ensures
        r is Ok <==> both_scalars_32(a@, b@),
        r matches Ok(v) ==> lawful_bytes(v@, sc_sub(a@, b@)),
        r matches Ok(v) ==> v@.len() == 32,
        r matches Err(e) ==> e == AbvError::ParseError,
{
    let sa = bytes_to_scalar(a).map_err(|_| AbvError::ParseError)?;
    let sb = bytes_to_scalar(b).map_err(|_| AbvError::ParseError)?;
    Ok(scalar_to_bytes(&(sa - sb)))
}

} // verus!
