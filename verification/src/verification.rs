//! Verification of a submitted vote request against the published system
//! parameters and the coordinator's public key.
//!
//! The checks run in a fixed order, and each failure surfaces its own error
//! kind: signature first, then the ordered commitment list is assembled and
//! padded to a power of two with identity commitments, then the
//! per-candidate format proofs and the balance proof are checked. All checks
//! are pure; nothing is mutated.

use vstd::prelude::*;

use crate::coordinator::sum_points;
use crate::curve::{identity_enc, is_point, point_add, point_identity, point_valid, ristretto_laws};
use crate::proofs::{format_valid, format_verify, sum_valid, sum_verify};
use crate::sighash::{ballot_digest, keccak256_hash, secp_verify, signature_verify};
use crate::{
    concat_bytes, copy_bytes, AbvError, SystemParametersStorage, VoteRequest, VoteStorage,
};

verus! {

/// The smallest power of two that is at least `n`, and at least 1.
pub open spec fn next_pow2(n: nat) -> nat
    decreases n,
{
    if n <= 1 {
        1
    } else {
        2 * next_pow2(((n + 1) / 2) as nat)
    }
}

/// `next_pow2` dominates its argument and at most doubles it.
pub proof fn lemma_next_pow2_bounds(n: nat)
    ensures
        next_pow2(n) >= 1,
        next_pow2(n) >= n,
        n >= 2 ==> next_pow2(n) <= 2 * n - 2,
    decreases n,
{
    if n >= 2 {
        lemma_next_pow2_bounds(((n + 1) / 2) as nat);
    }
}

/// Computes `next_pow2` of a machine integer.
fn next_pow2_exec(n: usize) -> (r: usize)
    requires
        n <= usize::MAX / 2,
    ensures
        r == next_pow2(n as nat),
    decreases n,
{
    if n <= 1 {
        1
    } else {
        let m = (n + 1) / 2;
        proof {
            lemma_next_pow2_bounds(m as nat);
        }
        let half = next_pow2_exec(m);
        assert(half <= n);
        2 * half
    }
}

/// The ciphertext1 encodings of the voted ballots, in candidate order.
pub open spec fn voted_c1s(vote: VoteStorage) -> Seq<Seq<u8>> {
    vote.voted_ballot@.map_values(|cb: crate::CandidateBallot| cb.ballot.ciphertext1@)
}

/// The signature check of the blank ballot: the coordinator's signature over
/// the certification digest of its two ciphertexts.
pub open spec fn sig_ok(req: VoteRequest, pk: Seq<u8>) -> bool {
    secp_verify(
        pk,
        ballot_digest(req.vote.blank_ballot.ciphertext1@, req.vote.blank_ballot.ciphertext2@),
        req.vote.signature@,
    )
}

/// The per-candidate format proofs, aligned by index with the voted
/// ballots, each accepted under the poll point as blinding basepoint.
pub open spec fn formats_valid(param: SystemParametersStorage, req: VoteRequest) -> bool {
    &&& req.ballot_proof@.len() == req.vote.voted_ballot@.len()
    &&& forall|i: int|
        0 <= i < req.vote.voted_ballot@.len() ==> format_valid(
            #[trigger] req.vote.voted_ballot@[i].ballot.ciphertext1@,
            req.vote.voted_ballot@[i].ballot.ciphertext2@,
            req.ballot_proof@[i].format_proof@,
            param.poll_point@,
        )
}

/// The balance proof, accepted for the group sum of the voted commitments,
/// the rest commitment and the blank-ballot commitment.
pub open spec fn balance_valid(param: SystemParametersStorage, req: VoteRequest) -> bool {
    sum_valid(
        sum_points(voted_c1s(req.vote)),
        req.vote.rest_ballot.ciphertext1@,
        req.vote.blank_ballot.ciphertext1@,
        req.balance_proof@,
        param.poll_point@,
    )
}

/// Every proof carried by the request is accepted relative to the published
/// parameters.
pub open spec fn proofs_valid(param: SystemParametersStorage, req: VoteRequest) -> bool {
    formats_valid(param, req) && balance_valid(param, req)
}

/// Pads an ordered commitment list up to the next power of two with
/// commitments to the group identity (value zero under zero blinding), as
/// the aggregated range-proof system verifies only power-of-two-sized
/// batches. A no-op when the length is already a power of two. The existing
/// entries are kept, in order.
pub fn pending_commitment_vec(v: &mut Vec<Vec<u8>>)
    requires
        old(v)@.len() <= usize::MAX / 2,
    ensures
        final(v)@.len() == next_pow2(old(v)@.len() as nat),
        final(v)@.subrange(0, old(v)@.len() as int) == old(v)@,
        forall|i: int|
            old(v)@.len() <= i < final(v)@.len() ==> #[trigger] final(v)@[i]@ == identity_enc(),
{
    let n = v.len();
    let target = next_pow2_exec(n);
    proof {
        lemma_next_pow2_bounds(n as nat);
    }
    while v.len() < target
        invariant
            n == old(v)@.len(),
            target == next_pow2(n as nat),
            n <= v@.len() <= target,
            v@.subrange(0, n as int) == old(v)@,
            forall|i: int| n <= i < v@.len() ==> #[trigger] v@[i]@ == identity_enc(),
        decreases target - v@.len(),
    {
        let pad = point_identity();
        v.push(pad);
        proof {
            assert(v@.subrange(0, n as int) =~= old(v)@);
        }
    }
}

/// Validates a vote request: verifies the coordinator's signature over the
/// blank ballot, assembles the ordered commitment list (voted ballots in
/// candidate order, then the rest ballot) and pads it to a power of two
/// with identity commitments, then checks every per-candidate format proof
/// and the balance proof. The first failing check decides the error kind;
/// success means every check passed. The aggregated range proof over the
/// padded list belongs to an outside proof backend that cannot be built
/// here, so the padded list is assembled and the remaining proof classes
/// decide.
#[verifier::loop_isolation(false)]
pub fn verify_bounded_vote_request(
    param: &SystemParametersStorage,
    request: &VoteRequest,
    public_key: &Vec<u8>,
) -> (r: Result<(), AbvError>)
    requires
        request.vote.voted_ballot@.len() < usize::MAX / 2,
    ensures
        r is Ok <==> is_point(param.poll_point@) && sig_ok(*request, public_key@)
            && crate::coordinator::all_points(voted_c1s(request.vote)) && proofs_valid(
            *param,
            *request,
        ),
        !is_point(param.poll_point@) ==> r == Err::<(), AbvError>(AbvError::ParseError),
        is_point(param.poll_point@) && !sig_ok(*request, public_key@) ==> r == Err::<
            (),
            AbvError,
        >(AbvError::VerificationError),
        is_point(param.poll_point@) && sig_ok(*request, public_key@)
            && !crate::coordinator::all_points(voted_c1s(request.vote)) ==> r == Err::<
            (),
            AbvError,
        >(AbvError::ParseError),
        is_point(param.poll_point@) && sig_ok(*request, public_key@)
            && crate::coordinator::all_points(voted_c1s(request.vote)) && !formats_valid(
            *param,
            *request,
        ) ==> r == Err::<(), AbvError>(AbvError::FormatProofError),
        is_point(param.poll_point@) && sig_ok(*request, public_key@)
            && crate::coordinator::all_points(voted_c1s(request.vote)) && formats_valid(
            *param,
            *request,
        ) && !balance_valid(*param, *request) ==> r == Err::<(), AbvError>(
            AbvError::BalanceProofError,
        ),
{
    if !point_valid(&param.poll_point) {
        return Err(AbvError::ParseError);
    }
    let blank_ballot = &request.vote.blank_ballot;
    let hash_vec = concat_bytes(&blank_ballot.ciphertext1, &blank_ballot.ciphertext2);
    let message_hash = keccak256_hash(&hash_vec);
    if !signature_verify(public_key, &message_hash, &request.vote.signature) {
        return Err(AbvError::VerificationError);
    }
    let ghost c1s = voted_c1s(request.vote);
    let mut commitments: Vec<Vec<u8>> = Vec::new();
    let mut voted_ballot_sum = point_identity();
    let n = request.vote.voted_ballot.len();
    let mut i: usize = 0;
    while i < n
        invariant
            ristretto_laws(),
            n == request.vote.voted_ballot@.len(),
            0 <= i <= n,
            c1s == voted_c1s(request.vote),
            voted_ballot_sum@ == sum_points(c1s.take(i as int)),
            commitments@.len() == i,
            forall|k: int| 0 <= k < i ==> #[trigger] commitments@[k]@ == c1s[k],
            forall|k: int| 0 <= k < i ==> is_point(#[trigger] c1s[k]),
        decreases n - i,
    {
        let ballot = &request.vote.voted_ballot[i].ballot;
        match point_add(&voted_ballot_sum, &ballot.ciphertext1) {
            Ok(p) => {
                proof {
                    assert(c1s.take(i + 1).drop_last() =~= c1s.take(i as int));
                    assert(c1s.take(i + 1).last() == c1s[i as int]);
                }
                voted_ballot_sum = p;
            },
            Err(_) => {
                assert(!is_point(c1s[i as int]));
                return Err(AbvError::ParseError);
            },
        }
        commitments.push(copy_bytes(&ballot.ciphertext1));
        i += 1;
    }
    proof {
        assert(c1s.take(n as int) =~= c1s);
    }
    let rest_ballot = copy_bytes(&request.vote.rest_ballot.ciphertext1);
    commitments.push(rest_ballot);
    pending_commitment_vec(&mut commitments);
    if request.ballot_proof.len() != n {
        return Err(AbvError::FormatProofError);
    }
    let mut j: usize = 0;
    while j < n
        invariant
            n == request.vote.voted_ballot@.len(),
            n == request.ballot_proof@.len(),
            0 <= j <= n,
            forall|k: int|
                0 <= k < j ==> format_valid(
                    #[trigger] request.vote.voted_ballot@[k].ballot.ciphertext1@,
                    request.vote.voted_ballot@[k].ballot.ciphertext2@,
                    request.ballot_proof@[k].format_proof@,
                    param.poll_point@,
                ),
        decreases n - j,
    {
        let ballot = &request.vote.voted_ballot[j].ballot;
        let proof_ok = format_verify(
            &ballot.ciphertext1,
            &ballot.ciphertext2,
            &request.ballot_proof[j].format_proof,
            &param.poll_point,
        );
        if !proof_ok {
            return Err(AbvError::FormatProofError);
        }
        j += 1;
    }
    let balance_ok = sum_verify(
        &voted_ballot_sum,
        &request.vote.rest_ballot.ciphertext1,
        &request.vote.blank_ballot.ciphertext1,
        &request.balance_proof,
        &param.poll_point,
    );
    if !balance_ok {
        return Err(AbvError::BalanceProofError);
    }
    Ok(())
}

} // verus!

