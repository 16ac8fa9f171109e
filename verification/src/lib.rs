//! Cryptographic core of an anonymous, weight-bounded voting scheme.
//!
//! Counters publish public shares of a distributed aggregation key, the
//! coordinator folds them into system parameters and certifies each voter
//! with a blinded, signature-bound weight commitment, voters split the
//! certified weight homomorphically across candidates, and a verifier checks
//! the disclosed ciphertexts against the published parameters: the
//! coordinator's signature, per-candidate format proofs and one balance
//! proof, with the commitment list assembled and padded for batched range
//! checking.

use vstd::prelude::*;

pub mod coordinator;
pub mod counter;
pub mod verification;
pub mod voter;

pub mod curve;
pub mod proofs;
pub mod sighash;

verus! {

/// The error taxonomy of the protocol. Every cryptographic check is a hard
/// boundary: an operation fails with the specific kind and nothing partial.
#[derive(Clone, Copy, Debug, PartialEq, Eq, Structural)]
pub enum AbvError {
    /// Malformed point or scalar bytes on decode.
    ParseError,
    /// A signature check failed, or a certified ballot does not match the
    /// voter's own blinding secret.
    VerificationError,
    /// The aggregated range proof was rejected or could not be built.
    RangeProofError,
    /// A per-candidate format proof was rejected.
    FormatProofError,
    /// The balance proof was rejected, or the choices exceed the certified
    /// weight so that no balanced split exists.
    BalanceProofError,
    /// Reserved for orchestrators: parameter aggregation was invoked with a
    /// share set that does not match the registered counter set. The core
    /// cannot detect this; callers must enforce completeness.
    IncompleteAggregationError,
}

/// A Pedersen-style two-component commitment to a bounded weight value.
#[derive(Clone, Debug)]
pub struct Ballot {
    /// Encoding of `blinding_component + value * G1`.
    pub ciphertext1: Vec<u8>,
    /// Encoding of the blinding basis needed to later prove range and format.
    pub ciphertext2: Vec<u8>,
}

/// The ordered list of candidate identifiers, fixed once published.
#[derive(Clone, Debug)]
pub struct CandidateList {
    pub candidate: Vec<String>,
}

/// A counter's private share of the distributed aggregation key.
#[derive(Clone, Debug)]
pub struct CounterSecret {
    pub poll_secret_share: Vec<u8>,
}

/// A counter's published contribution to the system parameters.
#[derive(Clone, Debug)]
pub struct CounterSystemParametersShareRequest {
    pub counter_id: String,
    /// Encoding of `secret * G2`.
    pub poll_point_share: Vec<u8>,
}

/// All counters' published shares, collected by the coordinator.
#[derive(Clone, Debug)]
pub struct CounterSystemParametersStorage {
    pub counter_parameters_request: Vec<CounterSystemParametersShareRequest>,
}

/// The published system parameters: the candidate list and the aggregate
/// poll point, the sum of all counters' public shares.
#[derive(Clone, Debug)]
pub struct SystemParametersStorage {
    pub candidates: CandidateList,
    pub poll_point: Vec<u8>,
}

/// A voter's blinding secret, retained for later proof construction.
#[derive(Clone, Debug)]
pub struct VoterSecret {
    pub voter_secret: Vec<u8>,
}

/// A voter's registration request: blinded weight-commitment bases built
/// from the voter's secret.
#[derive(Clone, Debug)]
pub struct RegistrationRequest {
    /// Encoding of `secret * poll_point`.
    pub blinding_poll_point: Vec<u8>,
    /// Encoding of `secret * G2`.
    pub blinding_basepoint_g2: Vec<u8>,
}

/// The blank ballot: the coordinator's signature over the ballot, the ballot
/// itself, and the certified voter weight.
#[derive(Clone, Debug)]
pub struct RegistrationResponse {
    pub signature: Vec<u8>,
    pub ballot: Ballot,
    pub voter_weight: u32,
}

/// One candidate's chosen value; ordering must match the candidate list.
#[derive(Clone, Debug)]
pub struct VoteChoice {
    pub candidate: String,
    pub value: u32,
}

/// The full choice vector of one voter.
#[derive(Clone, Debug)]
pub struct VoteChoices {
    pub choice: Vec<VoteChoice>,
}

/// One candidate's ballot inside a vote.
#[derive(Clone, Debug)]
pub struct CandidateBallot {
    pub candidate: String,
    pub ballot: Ballot,
}

/// The signed blank ballot together with the per-candidate ballots and the
/// rest ballot holding the unspent weight.
#[derive(Clone, Debug)]
pub struct VoteStorage {
    pub signature: Vec<u8>,
    pub blank_ballot: Ballot,
    pub voted_ballot: Vec<CandidateBallot>,
    pub rest_ballot: Ballot,
}

/// A per-candidate format proof, aligned by index with the voted ballots.
#[derive(Clone, Debug)]
pub struct CandidateBallotProof {
    pub candidate: String,
    pub format_proof: Vec<u8>,
}

/// A complete vote request, consumed exactly once by the verifier.
#[derive(Clone, Debug)]
pub struct VoteRequest {
    pub vote: VoteStorage,
    pub range_proof: Vec<u8>,
    pub ballot_proof: Vec<CandidateBallotProof>,
    pub balance_proof: Vec<u8>,
}

/// Whether two byte vectors hold the same bytes.
pub fn bytes_eq(a: &Vec<u8>, b: &Vec<u8>) -> (r: bool)
    ensures
        r == (a@ == b@),
{
    if a.len() != b.len() {
        return false;
    }
    let mut i: usize = 0;
    while i < a.len()
        invariant
            a@.len() == b@.len(),
            0 <= i <= a@.len(),
            forall|k: int| 0 <= k < i ==> a@[k] == b@[k],
        decreases a@.len() - i,
    {
        if a[i] != b[i] {
            return false;
        }
        i += 1;
    }
    proof {
        assert(a@ =~= b@);
    }
    true
}

/// An element-for-element copy of a byte vector.
pub fn copy_bytes(a: &Vec<u8>) -> (r: Vec<u8>)
    ensures
        r@ == a@,
{
    let mut r: Vec<u8> = Vec::new();
    let mut i: usize = 0;
    while i < a.len()
        invariant
            0 <= i <= a@.len(),
            r@ == a@.take(i as int),
        decreases a@.len() - i,
    {
        r.push(a[i]);
        proof {
            assert(a@.take(i + 1) =~= a@.take(i as int).push(a@[i as int]));
        }
        i += 1;
    }
    proof {
        assert(a@.take(a@.len() as int) =~= a@);
    }
    r
}

/// The concatenation of two byte vectors.
pub fn concat_bytes(a: &Vec<u8>, b: &Vec<u8>) -> (r: Vec<u8>)
    ensures
        r@ == a@ + b@,
{
    let mut r = copy_bytes(a);
    let mut i: usize = 0;
    while i < b.len()
        invariant
            0 <= i <= b@.len(),
            r@ == a@ + b@.take(i as int),
        decreases b@.len() - i,
    {
        r.push(b[i]);
        proof {
            assert(a@ + b@.take(i + 1) =~= (a@ + b@.take(i as int)).push(b@[i as int]));
        }
        i += 1;
    }
    proof {
        assert(b@.take(b@.len() as int) =~= b@);
    }
    r
}

} // verus!
