//! The coordinator's side of the protocol: aggregating counters' public
//! shares into system parameters, and certifying each voter's bounded ballot
//! by blind-signing a weight commitment.

use vstd::prelude::*;
use vstd::seq_lib::group_to_multiset_ensures;

use crate::curve::{
    basepoint_g1, identity_enc, is_point, point_add, point_identity, point_mul, pt_add, pt_mul,
    ristretto_laws, scalar_from_u64, u64_scalar,
};
use crate::sighash::{ballot_digest, is_secp_sk, keccak256_hash, secp_pk_of, secp_verify, signature_sign};
use crate::{
    concat_bytes, copy_bytes, AbvError, Ballot, CandidateList, CounterSystemParametersStorage,
    RegistrationRequest, RegistrationResponse, SystemParametersStorage,
};

verus! {

/// The public share encodings of a share list, in order.
pub open spec fn share_points(
    shares: Seq<crate::CounterSystemParametersShareRequest>,
) -> Seq<Seq<u8>> {
    shares.map_values(|s: crate::CounterSystemParametersShareRequest| s.poll_point_share@)
}

/// The group sum of a list of point encodings, by repeated addition starting
/// from the group identity.
pub open spec fn sum_points(points: Seq<Seq<u8>>) -> Seq<u8>
    decreases points.len(),
{
    if points.len() == 0 {
        identity_enc()
    } else {
        pt_add(sum_points(points.drop_last()), points.last())
    }
}

/// Every entry is a canonical group element encoding.
pub open spec fn all_points(points: Seq<Seq<u8>>) -> bool {
    forall|i: int| 0 <= i < points.len() ==> is_point(#[trigger] points[i])
}

/// The ciphertext1 of a certified ballot: the blinded poll point plus
/// `value * G1`.
pub open spec fn blank_c1(blinding_poll_point: Seq<u8>, value: int) -> Seq<u8> {
    pt_add(blinding_poll_point, pt_mul(u64_scalar(value), crate::curve::g1_enc()))
}

/// Removing any one entry and adding it back onto the sum gives the total
/// sum: the group is abelian, so summation can pull out any position.
proof fn lemma_sum_points_pull_out(points: Seq<Seq<u8>>, i: int)
    requires
        ristretto_laws(),
        0 <= i < points.len(),
    ensures
        sum_points(points) == pt_add(sum_points(points.remove(i)), points[i]),
    decreases points.len(),
{
    if i == points.len() - 1 {
        assert(points.remove(i) =~= points.drop_last());
    } else {
        let s = points.drop_last();
        let last = points.last();
        lemma_sum_points_pull_out(s, i);
        assert(points.remove(i).drop_last() =~= s.remove(i));
        assert(points.remove(i).last() == last);
        assert(sum_points(points.remove(i)) == pt_add(sum_points(s.remove(i)), last));
        assert(pt_add(pt_add(sum_points(s.remove(i)), s[i]), last) == pt_add(
            pt_add(sum_points(s.remove(i)), last),
            s[i],
        )) by {
            assert(pt_add(pt_add(sum_points(s.remove(i)), s[i]), last) == pt_add(
                sum_points(s.remove(i)),
                pt_add(s[i], last),
            ));
            assert(pt_add(s[i], last) == pt_add(last, s[i]));
            assert(pt_add(sum_points(s.remove(i)), pt_add(last, s[i])) == pt_add(
                pt_add(sum_points(s.remove(i)), last),
                s[i],
            ));
        }
    }
}

/// Aggregation commutativity: two share lists holding the same multiset of
/// public share encodings have the same group sum, whatever the order of
/// summation.
pub proof fn lemma_sum_points_permutation(a: Seq<Seq<u8>>, b: Seq<Seq<u8>>)
    requires
        ristretto_laws(),
        a.to_multiset() == b.to_multiset(),
    ensures
        sum_points(a) == sum_points(b),
    decreases a.len(),
{
    broadcast use group_to_multiset_ensures;

    if a.len() == 0 {
        assert(b.to_multiset().len() == 0);
    } else {
        let x = a.last();
        let a2 = a.drop_last();
        assert(a =~= a2.push(x));
        assert(a.to_multiset().count(x) > 0) by {
            assert(a.contains(x));
        }
        assert(b.to_multiset().count(x) > 0);
        assert(b.contains(x));
        let j = choose|j: int| 0 <= j < b.len() && b[j] == x;
        lemma_sum_points_pull_out(b, j);
        assert(a2.to_multiset() =~= b.remove(j).to_multiset()) by {
            assert(a2.push(x).to_multiset() =~= a2.to_multiset().insert(x));
            assert(b.remove(j).to_multiset() =~= b.to_multiset().remove(x));
            assert(a2.to_multiset() =~= a.to_multiset().remove(x));
        }
        lemma_sum_points_permutation(a2, b.remove(j));
    }
}

/// Aggregates the counters' published shares into the system parameters:
/// the poll point is the group sum of every share, and the candidate list is
/// attached untouched. Fails exactly when some share is not a canonical
/// point encoding. The share set must be exactly the registered counter set;
/// omission or duplication silently changes the aggregate key, so callers
/// must enforce completeness before calling this. The order of the shares
/// does not matter: any permutation of the same shares yields the same poll
/// point.
pub fn make_system_parameters(
    candidates: &CandidateList,
    counter_storage: &CounterSystemParametersStorage,
) -> (r: Result<SystemParametersStorage, AbvError>)
    ensures
        r is Ok <==> all_points(share_points(counter_storage.counter_parameters_request@)),
        r matches Ok(p) ==> p.poll_point@ == sum_points(
            share_points(counter_storage.counter_parameters_request@),
        ),
        r matches Ok(p) ==> p.candidates.candidate@.len() == candidates.candidate@.len()
            && (forall|i: int|
            0 <= i < candidates.candidate@.len() ==> #[trigger] p.candidates.candidate@[i]@
                == candidates.candidate@[i]@),
        r matches Ok(p) ==> forall|other: Seq<Seq<u8>>|
            other.to_multiset() == share_points(
                counter_storage.counter_parameters_request@,
            ).to_multiset() ==> #[trigger] sum_points(other) == p.poll_point@,
        r matches Err(e) ==> e == AbvError::ParseError,
{
    let ghost pts = share_points(counter_storage.counter_parameters_request@);
    let mut poll_point = point_identity();
    let n = counter_storage.counter_parameters_request.len();
    let mut i: usize = 0;
    while i < n
        invariant
            ristretto_laws(),
            n == counter_storage.counter_parameters_request@.len(),
            0 <= i <= n,
            pts == share_points(counter_storage.counter_parameters_request@),
            poll_point@ == sum_points(pts.take(i as int)),
            forall|k: int| 0 <= k < i ==> is_point(#[trigger] pts[k]),
        decreases n - i,
    {
        let share = &counter_storage.counter_parameters_request[i];
        let next = point_add(&poll_point, &share.poll_point_share);
        match next {
            Ok(p) => {
                proof {
                    assert(pts.take(i + 1).drop_last() =~= pts.take(i as int));
                    assert(pts.take(i + 1).last() == pts[i as int]);
                }
                poll_point = p;
            },
            Err(e) => {
                assert(!is_point(pts[i as int]));
                return Err(e);
            },
        }
        i += 1;
    }
    proof {
        assert(pts.take(n as int) =~= pts);
        assert forall|other: Seq<Seq<u8>>| other.to_multiset() == pts.to_multiset() implies sum_points(
            other,
        ) == sum_points(pts) by {
            lemma_sum_points_permutation(other, pts);
        }
    }
    let mut candidate: Vec<String> = Vec::new();
    let mut j: usize = 0;
    while j < candidates.candidate.len()
        invariant
            0 <= j <= candidates.candidate@.len(),
            candidate@.len() == j,
            forall|k: int| 0 <= k < j ==> #[trigger] candidate@[k]@ == candidates.candidate@[k]@,
        decreases candidates.candidate@.len() - j,
    {
        candidate.push(candidates.candidate[j].clone());
        j += 1;
    }
    Ok(
        SystemParametersStorage {
            candidates: CandidateList { candidate },
            poll_point,
        },
    )
}

/// Certifies a voter with a maximum allowed weight: forms
/// `ciphertext1 = blinding_poll_point + value * G1`, copies the blinded G2
/// basis as ciphertext2, hashes the two ciphertext encodings and signs the
/// digest with the coordinator's private key. The blinding was applied by
/// the voter before ciphertext1 is formed, so the returned blank ballot
/// cannot be linked back to the registration transcript. Fails exactly when
/// the blinded poll point is malformed or the secret key does not parse.
pub fn certify_bounded_voter(
    secret_key: &Vec<u8>,
    value: u32,
    registration_request: &RegistrationRequest,
) -> (r: Result<RegistrationResponse, AbvError>)
    ensures
        r is Ok <==> is_point(registration_request.blinding_poll_point@) && is_secp_sk(
            secret_key@,
        ),
        r matches Ok(resp) ==> {
            &&& resp.ballot.ciphertext1@ == blank_c1(
                registration_request.blinding_poll_point@,
                value as int,
            )
            &&& resp.ballot.ciphertext2@ == registration_request.blinding_basepoint_g2@
            &&& resp.voter_weight == value
            &&& secp_verify(
                secp_pk_of(secret_key@),
                ballot_digest(resp.ballot.ciphertext1@, resp.ballot.ciphertext2@),
                resp.signature@,
            )
        },
        r matches Err(e) ==> e == AbvError::ParseError,
{
    let g1 = basepoint_g1();
    let value_scalar = scalar_from_u64(value as u64);
    let value_point = match point_mul(&value_scalar, &g1) {
        Ok(p) => p,
        Err(_) => {
            proof {
                assert(u64_scalar(value as int).len() == 32);
            }
            return Err(AbvError::ParseError);
        },
    };
    let ciphertext1 = point_add(&registration_request.blinding_poll_point, &value_point)?;
    let ciphertext2 = copy_bytes(&registration_request.blinding_basepoint_g2);
    let hash_vec = concat_bytes(&ciphertext1, &ciphertext2);
    let message_hash = keccak256_hash(&hash_vec);
    let signature = signature_sign(secret_key, &message_hash)?;
    Ok(
        RegistrationResponse {
            signature,
            ballot: Ballot { ciphertext1, ciphertext2 },
            voter_weight: value,
        },
    )
}

} // verus!
