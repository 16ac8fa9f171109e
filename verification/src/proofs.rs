//! The zero-knowledge proof system behind vote verification.
//!
//! The aggregated range proof, the per-candidate format proofs and the
//! balance proof are built and checked by the outside proof-system crates;
//! this module states their call contracts. Every commitment passed to them
//! has the shape `commit(value, blinding, base)` with G1 as value basepoint,
//! and the proofs travel as protobuf-encoded bytes.

use vstd::prelude::*;

use crate::curve::{commit, g2_enc, is_point, pt_mul, ristretto_laws};
use crate::AbvError;
use protobuf::Message;
use wedpr_l_crypto_zkp_discrete_logarithm_proof::{
    prove_format_proof, prove_sum_relationship, verify_format_proof, verify_sum_relationship,
};
use wedpr_l_crypto_zkp_utils::{bytes_to_point, bytes_to_scalar, BASEPOINT_G1, BASEPOINT_G2};
use wedpr_l_protos::generated::zkp::BalanceProof;

verus! {

/// Whether `verify_format_proof` accepts `proof` for the ciphertext pair
/// `(c1, c2)` under value basepoint G1, second basepoint G2 and blinding
/// basepoint `base`.
pub uninterp spec fn format_valid(c1: Seq<u8>, c2: Seq<u8>, proof: Seq<u8>, base: Seq<u8>) -> bool;

/// Whether `verify_sum_relationship` accepts `proof` as evidence that the
/// values committed in `c1` and `c2` sum to the value committed in `c3`,
/// under value basepoint G1 and blinding basepoint `base`.
pub uninterp spec fn sum_valid(
    c1: Seq<u8>,
    c2: Seq<u8>,
    c3: Seq<u8>,
    proof: Seq<u8>,
    base: Seq<u8>,
) -> bool;

/// A 32-byte blinding encoding and a decodable basepoint: the inputs on
/// which format proving succeeds.
pub open spec fn format_args_ok(blinding: Seq<u8>, base: Seq<u8>) -> bool {
    blinding.len() == 32 && is_point(base)
}

/// Three 32-byte blinding encodings and a decodable basepoint: the inputs on
/// which sum proving succeeds.
pub open spec fn sum_args_ok(b1: Seq<u8>, b2: Seq<u8>, b3: Seq<u8>, base: Seq<u8>) -> bool {
    b1.len() == 32 && b2.len() == 32 && b3.len() == 32 && is_point(base)
}

/// Relies on `prove_format_proof` with c1 basepoint G1 and c2 basepoint G2:
/// it always returns a proof that `verify_format_proof` accepts for the pair
/// `(value * G1 + blinding * base, blinding * G2)`. It fails exactly when
/// the blinding is not 32 bytes or the basepoint does not decode.
#[verifier::external_body]
pub(crate) fn format_prove(value: u64, blinding: &Vec<u8>, base: &Vec<u8>) -> (r: Result<
    Vec<u8>,
    AbvError,
>)
    ensures
        r is Ok <==> format_args_ok(blinding@, base@),
        r matches Ok(proof) ==> format_valid(
            commit(value as int, blinding@, base@),
            pt_mul(blinding@, g2_enc()),
            proof@,
            base@,
        ) && ristretto_laws(),
        r matches Err(e) ==> e == AbvError::ParseError,
{
    let b = bytes_to_scalar(blinding).map_err(|_| AbvError::ParseError)?;
    let bp = bytes_to_point(base).map_err(|_| AbvError::ParseError)?;
    let proof = prove_format_proof(value, &b, &BASEPOINT_G1, &BASEPOINT_G2, &bp);
    Ok(proof.write_to_bytes().expect("a fully set proof message encodes"))
}

/// Relies on `verify_format_proof` with c1 basepoint G1 and c2 basepoint G2:
/// a deterministic function of the two ciphertext encodings, the proof bytes
/// and the blinding basepoint, false whenever anything fails to decode.
#[verifier::external_body]
pub(crate) fn format_verify(c1: &Vec<u8>, c2: &Vec<u8>, proof: &Vec<u8>, base: &Vec<u8>) -> (r: bool)
    ensures
        r == format_valid(c1@, c2@, proof@, base@),
{
    let parsed: BalanceProof = match Message::parse_from_bytes(proof) {
        Ok(p) => p,
        Err(_) => return false,
    };
    match (bytes_to_point(c1), bytes_to_point(c2), bytes_to_point(base)) {
        (Ok(p1), Ok(p2), Ok(bp)) => verify_format_proof(
            &p1,
            &p2,
            &parsed,
            &BASEPOINT_G1,
            &BASEPOINT_G2,
            &bp,
        ).unwrap_or(false),
        _ => false,
    }
}

/// Relies on `prove_sum_relationship` with value basepoint G1: it always
/// returns a proof that `verify_sum_relationship` accepts for the
/// commitments to `(c1_value, c1_blinding)`, `(c2_value, c2_blinding)` and
/// `(c1_value + c2_value, c3_blinding)`. It fails exactly when a blinding is
/// not 32 bytes or the basepoint does not decode.
#[verifier::external_body]
pub(crate) fn sum_prove(
    c1_value: u64,
    c2_value: u64,
    c1_blinding: &Vec<u8>,
    c2_blinding: &Vec<u8>,
    c3_blinding: &Vec<u8>,
    base: &Vec<u8>,
) -> (r: Result<Vec<u8>, AbvError>)
    ensures
        r is Ok <==> sum_args_ok(c1_blinding@, c2_blinding@, c3_blinding@, base@),
        r matches Ok(proof) ==> sum_valid(
            commit(c1_value as int, c1_blinding@, base@),
            commit(c2_value as int, c2_blinding@, base@),
            commit(c1_value + c2_value, c3_blinding@, base@),
            proof@,
            base@,
        ) && ristretto_laws(),
        r matches Err(e) ==> e == AbvError::ParseError,
{
    let b1 = bytes_to_scalar(c1_blinding).map_err(|_| AbvError::ParseError)?;
    let b2 = bytes_to_scalar(c2_blinding).map_err(|_| AbvError::ParseError)?;
    let b3 = bytes_to_scalar(c3_blinding).map_err(|_| AbvError::ParseError)?;
    let bp = bytes_to_point(base).map_err(|_| AbvError::ParseError)?;
    let proof = prove_sum_relationship(c1_value, c2_value, &b1, &b2, &b3, &BASEPOINT_G1, &bp);
    Ok(proof.write_to_bytes().expect("a fully set proof message encodes"))
}

/// Relies on `verify_sum_relationship` with value basepoint G1: a
/// deterministic function of the three commitment encodings, the proof bytes
/// and the blinding basepoint, false whenever anything fails to decode.
#[verifier::external_body]
pub(crate) fn sum_verify(
    c1: &Vec<u8>,
    c2: &Vec<u8>,
    c3: &Vec<u8>,
    proof: &Vec<u8>,
    base: &Vec<u8>,
) -> (r: bool)
    ensures
        r == sum_valid(c1@, c2@, c3@, proof@, base@),
{
    let parsed: BalanceProof = match Message::parse_from_bytes(proof) {
        Ok(p) => p,
        Err(_) => return false,
    };
    match (bytes_to_point(c1), bytes_to_point(c2), bytes_to_point(c3), bytes_to_point(base)) {
        (Ok(p1), Ok(p2), Ok(p3), Ok(bp)) => verify_sum_relationship(
            &p1,
            &p2,
            &p3,
            &parsed,
            &BASEPOINT_G1,
            &bp,
        ).unwrap_or(false),
        _ => false,
    }
}

} // verus!
