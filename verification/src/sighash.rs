//! The hash and signature primitives behind certification.
//!
//! The protocol binds a ballot to the coordinator by hashing the two
//! ciphertext encodings with Keccak-256 and signing the digest with a
//! secp256k1 key. Both primitives are outside collaborators; their behaviour
//! enters the contracts through uninterpreted names over byte sequences.

use vstd::prelude::*;

use crate::AbvError;
use wedpr_l_crypto_hash_keccak256::WedprKeccak256;
use wedpr_l_crypto_signature_secp256k1::WedprSecp256k1Recover;
use wedpr_l_utils::traits::Signature;

verus! {

/// The Keccak-256 digest of a byte string
/// (`wedpr_l_crypto_hash_keccak256::WedprKeccak256::hash`).
pub uninterp spec fn keccak(msg: Seq<u8>) -> Seq<u8>;

/// Whether `sk` is a well-formed secp256k1 secret key, that is, whether
/// `secp256k1::SecretKey::from_slice` accepts it.
pub uninterp spec fn is_secp_sk(sk: Seq<u8>) -> bool;

/// The uncompressed public key derived from a secret key, as secp256k1 key
/// generation pairs them.
pub uninterp spec fn secp_pk_of(sk: Seq<u8>) -> Seq<u8>;

/// Whether `WedprSecp256k1Recover::verify` accepts `sig` as a signature on
/// the 32-byte digest `msg` under the public key `pk`.
pub uninterp spec fn secp_verify(pk: Seq<u8>, msg: Seq<u8>, sig: Seq<u8>) -> bool;

/// The certification digest of a ballot: the Keccak-256 hash of the
/// concatenation of its two ciphertext encodings.
pub open spec fn ballot_digest(c1: Seq<u8>, c2: Seq<u8>) -> Seq<u8> {
    keccak(c1 + c2)
}

/// A well-formed secret key and a 32-byte digest: the inputs on which
/// signing succeeds.
pub open spec fn sign_args_ok(sk: Seq<u8>, msg_hash: Seq<u8>) -> bool {
    is_secp_sk(sk) && msg_hash.len() == 32
}

/// Relies on `WedprKeccak256::hash` (Keccak-256): a deterministic 32-byte
/// digest of the input alone.
#[verifier::external_body]
pub(crate) fn keccak256_hash(msg: &Vec<u8>) -> (r: Vec<u8>)
    ensures
        r@ == keccak(msg@) && r@.len() == 32,
{
    wedpr_l_utils::traits::Hash::hash(&WedprKeccak256::default(), msg)
}

/// Relies on `WedprSecp256k1Recover::sign`: recoverable ECDSA over a 32-byte
/// digest. It fails exactly when the secret key or the digest does not
/// parse, and a produced signature verifies under the matching public key.
#[verifier::external_body]
pub(crate) fn signature_sign(sk: &Vec<u8>, msg_hash: &Vec<u8>) -> (r: Result<Vec<u8>, AbvError>)
    ensures
        r is Ok <==> sign_args_ok(sk@, msg_hash@),
        r is Ok ==> is_secp_sk(sk@),
        r matches Ok(sig) ==> secp_verify(secp_pk_of(sk@), msg_hash@, sig@),
        r matches Err(e) ==> e == AbvError::ParseError,
{
    match WedprSecp256k1Recover::default().sign(sk, msg_hash) {
        Ok(sig) => Ok(sig),
        Err(_) => Err(AbvError::ParseError),
    }
}

/// Relies on `WedprSecp256k1Recover::verify`: recovers the signer's public
/// key from the signature and compares it with the given one, a
/// deterministic function of its three arguments.
#[verifier::external_body]
pub(crate) fn signature_verify(pk: &Vec<u8>, msg_hash: &Vec<u8>, sig: &Vec<u8>) -> (r: bool)
    ensures
        r == secp_verify(pk@, msg_hash@, sig@),
{
    WedprSecp256k1Recover::default().verify(pk, msg_hash, sig)
}

} // verus!
