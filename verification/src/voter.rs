//! The voter's side of the protocol: blinding secrets, registration
//! requests, verification of the certified blank ballot, and the
//! homomorphic splitting of the certified weight across candidates.

use vstd::prelude::*;

use crate::coordinator::{blank_c1, sum_points};
use crate::curve::{
    basepoint_g1, basepoint_g2, commit, g2_enc, is_point, is_scalar, point_add, point_mul,
    point_valid, pt_add, pt_mul, random_scalar, ristretto_laws, sc_add, scalar_add,
    scalar_from_u64, scalar_sub, u64_scalar,
};
use crate::proofs::{format_prove, sum_prove};
use crate::sighash::{ballot_digest, keccak256_hash, secp_pk_of, secp_verify, signature_verify};
use crate::verification::{balance_valid, formats_valid, voted_c1s};
use crate::{
    bytes_eq, concat_bytes, copy_bytes, AbvError, Ballot, CandidateBallot, CandidateBallotProof,
    RegistrationRequest, RegistrationResponse, SystemParametersStorage, VoteChoice, VoteChoices,
    VoteRequest, VoteStorage, VoterSecret,
};

verus! {

/// The voter's blank-ballot check: the coordinator's signature over the
/// ballot digest verifies, ciphertext1 is the voter's blinded poll point
/// plus the certified weight times G1, and ciphertext2 is the voter's
/// blinded G2 basis, returned verbatim.
pub open spec fn blank_ballot_ok(
    request: RegistrationRequest,
    response: RegistrationResponse,
    pk: Seq<u8>,
) -> bool {
    &&& secp_verify(
        pk,
        ballot_digest(response.ballot.ciphertext1@, response.ballot.ciphertext2@),
        response.signature@,
    )
    &&& response.ballot.ciphertext1@ == blank_c1(
        request.blinding_poll_point@,
        response.voter_weight as int,
    )
    &&& response.ballot.ciphertext2@ == request.blinding_basepoint_g2@
}

/// The sum of the chosen values of a choice list.
pub open spec fn sum_values(choices: Seq<VoteChoice>) -> int
    decreases choices.len(),
{
    if choices.len() == 0 {
        0
    } else {
        sum_values(choices.drop_last()) + choices.last().value
    }
}

/// The scalar sum of a list of blinding encodings, starting from zero.
pub open spec fn sum_scalars(rs: Seq<Seq<u8>>) -> Seq<u8>
    decreases rs.len(),
{
    if rs.len() == 0 {
        u64_scalar(0)
    } else {
        sc_add(sum_scalars(rs.drop_last()), rs.last())
    }
}

/// The commitments of a choice list under a blinding list and basepoint.
pub open spec fn commits_of(choices: Seq<VoteChoice>, rs: Seq<Seq<u8>>, base: Seq<u8>) -> Seq<
    Seq<u8>,
> {
    Seq::new(choices.len(), |i: int| commit(choices[i].value as int, rs[i], base))
}

/// Every entry is a canonical scalar encoding.
pub open spec fn all_scalars(rs: Seq<Seq<u8>>) -> bool {
    forall|i: int| 0 <= i < rs.len() ==> is_scalar(#[trigger] rs[i])
}

/// A sum of unsigned values is non-negative.
proof fn lemma_sum_values_nonneg(choices: Seq<VoteChoice>)
    ensures
        sum_values(choices) >= 0,
    decreases choices.len(),
{
    if choices.len() > 0 {
        lemma_sum_values_nonneg(choices.drop_last());
    }
}

/// A prefix sum of non-negative values never exceeds the total sum.
proof fn lemma_sum_values_prefix(choices: Seq<VoteChoice>, k: int)
    requires
        0 <= k <= choices.len(),
    ensures
        sum_values(choices.take(k)) <= sum_values(choices),
    decreases choices.len(),
{
    if k == choices.len() {
        assert(choices.take(k) =~= choices);
    } else {
        lemma_sum_values_prefix(choices.drop_last(), k);
        assert(choices.take(k) =~= choices.drop_last().take(k));
    }
}

/// In an abelian group, a sum of sums is the sum of the rearranged parts.
proof fn lemma_pt_add_swap(a: Seq<u8>, b: Seq<u8>, c: Seq<u8>, d: Seq<u8>)
    requires
        ristretto_laws(),
    ensures
        pt_add(pt_add(a, b), pt_add(c, d)) == pt_add(pt_add(a, c), pt_add(b, d)),
{
    assert(pt_add(b, pt_add(c, d)) == pt_add(pt_add(b, c), d));
    assert(pt_add(pt_add(b, c), d) == pt_add(pt_add(c, b), d));
    assert(pt_add(pt_add(c, b), d) == pt_add(c, pt_add(b, d)));
    assert(pt_add(pt_add(a, b), pt_add(c, d)) == pt_add(a, pt_add(b, pt_add(c, d))));
    assert(pt_add(a, pt_add(c, pt_add(b, d))) == pt_add(pt_add(a, c), pt_add(b, d)));
}

/// The scalar sum of canonical blindings is canonical.
proof fn lemma_sum_scalars_canonical(rs: Seq<Seq<u8>>)
    requires
        ristretto_laws(),
        all_scalars(rs),
    ensures
        is_scalar(sum_scalars(rs)),
    decreases rs.len(),
{
    if rs.len() == 0 {
        assert(is_scalar(u64_scalar(0)));
    } else {
        lemma_sum_scalars_canonical(rs.drop_last());
    }
}

/// Balance conservation at the commitment level: the group sum of
/// per-candidate commitments is the single commitment to the summed values
/// under the summed blindings — the homomorphic property that makes the
/// balance proof checkable without revealing any individual value.
pub proof fn lemma_sum_commits(choices: Seq<VoteChoice>, rs: Seq<Seq<u8>>, base: Seq<u8>)
    requires
        ristretto_laws(),
        rs.len() == choices.len(),
        all_scalars(rs),
        sum_values(choices) < 0x1_0000_0000_0000_0000,
    ensures
        sum_points(commits_of(choices, rs, base)) == commit(
            sum_values(choices),
            sum_scalars(rs),
            base,
        ),
    decreases choices.len(),
{
    let cs = commits_of(choices, rs, base);
    if choices.len() == 0 {
        assert(pt_mul(u64_scalar(0), crate::curve::g1_enc()) == crate::curve::identity_enc());
        assert(pt_mul(u64_scalar(0), base) == crate::curve::identity_enc());
        assert(pt_add(crate::curve::identity_enc(), crate::curve::identity_enc())
            == crate::curve::identity_enc());
    } else {
        let ch2 = choices.drop_last();
        let rs2 = rs.drop_last();
        let vn = choices.last().value as int;
        let rn = rs.last();
        lemma_sum_values_nonneg(ch2);
        assert(sum_values(choices) == sum_values(ch2) + vn);
        lemma_sum_commits(ch2, rs2, base);
        lemma_sum_scalars_canonical(rs2);
        assert(cs.drop_last() =~= commits_of(ch2, rs2, base));
        assert(cs.last() == commit(vn, rn, base));
        let s2 = sum_values(ch2);
        let b2 = sum_scalars(rs2);
        let g1 = crate::curve::g1_enc();
        assert(sum_points(cs) == pt_add(commit(s2, b2, base), commit(vn, rn, base)));
        lemma_pt_add_swap(
            pt_mul(u64_scalar(s2), g1),
            pt_mul(b2, base),
            pt_mul(u64_scalar(vn), g1),
            pt_mul(rn, base),
        );
        assert(is_scalar(u64_scalar(s2)));
        assert(is_scalar(u64_scalar(vn)));
        assert(pt_add(pt_mul(u64_scalar(s2), g1), pt_mul(u64_scalar(vn), g1)) == pt_mul(
            sc_add(u64_scalar(s2), u64_scalar(vn)),
            g1,
        ));
        assert(sc_add(u64_scalar(s2), u64_scalar(vn)) == u64_scalar(s2 + vn));
        assert(pt_add(pt_mul(b2, base), pt_mul(rn, base)) == pt_mul(sc_add(b2, rn), base));
    }
}

/// Certification-verification round trip: a blank ballot produced by a
/// successful certification of a registration request passes the voter's
/// blank-ballot check against the public key matching the coordinator's
/// signing key.
pub proof fn lemma_certification_round_trip(
    request: RegistrationRequest,
    response: RegistrationResponse,
    secret_key: Seq<u8>,
    value: u32,
)
    requires
        response.ballot.ciphertext1@ == blank_c1(request.blinding_poll_point@, value as int),
        response.ballot.ciphertext2@ == request.blinding_basepoint_g2@,
        response.voter_weight == value,
        secp_verify(
            secp_pk_of(secret_key),
            ballot_digest(response.ballot.ciphertext1@, response.ballot.ciphertext2@),
            response.signature@,
        ),
    ensures
        blank_ballot_ok(request, response, secp_pk_of(secret_key)),
{
}

/// Generates the voter's blinding secret: one uniformly random scalar,
/// retained for later proof construction and never transmitted.
pub fn make_voter_secret() -> (r: VoterSecret)
    ensures
        is_scalar(r.voter_secret@),
        r.voter_secret@.len() == 32,
{
    let vote_secret = random_scalar();
    VoterSecret { voter_secret: vote_secret }
}

/// Builds a registration request from the voter's secret and the published
/// parameters: the blinded poll point `secret * poll_point` and the blinded
/// basis `secret * G2`. Fails exactly when the secret is not 32 bytes or
/// the poll point is malformed.
pub fn make_bounded_registration_request(
    secret: &VoterSecret,
    param: &SystemParametersStorage,
) -> (r: Result<RegistrationRequest, AbvError>)
    ensures
        r is Ok <==> secret.voter_secret@.len() == 32 && is_point(param.poll_point@),
        r matches Ok(req) ==> {
            &&& req.blinding_poll_point@ == pt_mul(secret.voter_secret@, param.poll_point@)
            &&& req.blinding_basepoint_g2@ == pt_mul(secret.voter_secret@, g2_enc())
        },
        r matches Err(e) ==> e == AbvError::ParseError,
{
    let g2 = basepoint_g2();
    let blinding_basepoint_g2 = point_mul(&secret.voter_secret, &g2)?;
    let blinding_poll_point = point_mul(&secret.voter_secret, &param.poll_point)?;
    Ok(RegistrationRequest { blinding_poll_point, blinding_basepoint_g2 })
}

/// Verifies the certified blank ballot: recomputes the certification digest
/// and checks the coordinator's signature, and checks that ciphertext1 is
/// the voter's own blinded poll point plus the certified weight times G1 —
/// equivalently, that removing the voter's blinding recovers the expected
/// weight — and that ciphertext2 is the voter's blinded G2 basis. Fails
/// exactly when the request's blinded poll point is malformed.
pub fn verify_blank_ballot(
    request: &RegistrationRequest,
    response: &RegistrationResponse,
    public_key: &Vec<u8>,
) -> (r: Result<bool, AbvError>)
    ensures
        r is Ok <==> is_point(request.blinding_poll_point@),
        r matches Ok(b) ==> b == blank_ballot_ok(*request, *response, public_key@),
        r matches Err(e) ==> e == AbvError::ParseError,
{
    let g1 = basepoint_g1();
    let weight_scalar = scalar_from_u64(response.voter_weight as u64);
    let weight_point = point_mul(&weight_scalar, &g1)?;
    let expected_c1 = point_add(&request.blinding_poll_point, &weight_point)?;
    let hash_vec = concat_bytes(&response.ballot.ciphertext1, &response.ballot.ciphertext2);
    let message_hash = keccak256_hash(&hash_vec);
    let sig_good = signature_verify(public_key, &message_hash, &response.signature);
    let c1_good = bytes_eq(&expected_c1, &response.ballot.ciphertext1);
    let c2_good = bytes_eq(&request.blinding_basepoint_g2, &response.ballot.ciphertext2);
    Ok(sig_good && c1_good && c2_good)
}

/// Splits the certified weight across the candidates: one fresh-blinded
/// commitment per candidate, a rest commitment to the unspent weight whose
/// blinding completes the per-candidate blindings to the voter's secret,
/// one format proof per candidate, and one balance proof relating the
/// commitment sum, the rest and the blank ballot. The choices must list the
/// candidates in the order fixed by the system parameters. Fails with a
/// parse error on a malformed secret or poll point, with a verification
/// error when the blank ballot does not match the voter's secret and
/// weight, and with a balance error when the choices exceed the certified
/// weight. The aggregated range proof belongs to an outside proof backend
/// that cannot be built here, so the request carries an empty range proof.
#[verifier::loop_isolation(false)]
pub fn vote_bounded(
    secret: &VoterSecret,
    choices: &VoteChoices,
    response: &RegistrationResponse,
    param: &SystemParametersStorage,
) -> (r: Result<VoteRequest, AbvError>)
    requires
        choices.choice@.len() == param.candidates.candidate@.len(),
        forall|i: int|
            0 <= i < choices.choice@.len() ==> #[trigger] choices.choice@[i].candidate@
                == param.candidates.candidate@[i]@,
    ensures
        r is Ok <==> secret.voter_secret@.len() == 32 && is_point(param.poll_point@)
            && response.ballot.ciphertext1@ == pt_add(
            pt_mul(secret.voter_secret@, param.poll_point@),
            pt_mul(u64_scalar(response.voter_weight as int), crate::curve::g1_enc()),
        ) && sum_values(choices.choice@) <= response.voter_weight,
        r matches Ok(req) ==> {
            &&& req.vote.signature@ == response.signature@
            &&& req.vote.blank_ballot.ciphertext1@ == response.ballot.ciphertext1@
            &&& req.vote.blank_ballot.ciphertext2@ == response.ballot.ciphertext2@
            &&& req.vote.voted_ballot@.len() == choices.choice@.len()
            &&& forall|i: int|
                0 <= i < choices.choice@.len() ==> #[trigger] req.vote.voted_ballot@[i].candidate@
                    == choices.choice@[i].candidate@
            &&& req.range_proof@ == Seq::<u8>::empty()
            &&& formats_valid(*param, req)
            &&& balance_valid(*param, req)
        },
        r matches Ok(req) ==> exists|b: Seq<u8>|
            req.vote.rest_ballot.ciphertext1@ == #[trigger] commit(
                response.voter_weight - sum_values(choices.choice@),
                b,
                param.poll_point@,
            ),
        r matches Err(e) ==> {
            &&& e == AbvError::ParseError <==> !(secret.voter_secret@.len() == 32 && is_point(
                param.poll_point@,
            ))
            &&& e == AbvError::VerificationError <==> secret.voter_secret@.len() == 32 && is_point(
                param.poll_point@,
            ) && response.ballot.ciphertext1@ != pt_add(
                pt_mul(secret.voter_secret@, param.poll_point@),
                pt_mul(u64_scalar(response.voter_weight as int), crate::curve::g1_enc()),
            )
        },
{
    let g1 = basepoint_g1();
    let g2 = basepoint_g2();
    if secret.voter_secret.len() != 32 {
        return Err(AbvError::ParseError);
    }
    if !point_valid(&param.poll_point) {
        return Err(AbvError::ParseError);
    }
    let weight = response.voter_weight;
    let weight_scalar = scalar_from_u64(weight as u64);
    let weight_point = point_mul(&weight_scalar, &g1)?;
    let blinded_point = point_mul(&secret.voter_secret, &param.poll_point)?;
    let expected_c1 = point_add(&blinded_point, &weight_point)?;
    if !bytes_eq(&expected_c1, &response.ballot.ciphertext1) {
        return Err(AbvError::VerificationError);
    }
    let n = choices.choice.len();
    let mut voted: Vec<CandidateBallot> = Vec::new();
    let mut ballot_proofs: Vec<CandidateBallotProof> = Vec::new();
    let mut blinding_sum = scalar_from_u64(0);
    let mut vote_sum: u64 = 0;
    let ghost mut rs: Seq<Seq<u8>> = Seq::empty();
    let mut i: usize = 0;
    while i < n
        invariant
            0 <= i <= n,
            rs.len() == i,
            all_scalars(rs),
            voted@.len() == i,
            ballot_proofs@.len() == i,
            forall|k: int|
                0 <= k < i ==> #[trigger] voted@[k].ballot.ciphertext1@ == commit(
                    choices.choice@[k].value as int,
                    rs[k],
                    param.poll_point@,
                ),
            forall|k: int|
                0 <= k < i ==> #[trigger] voted@[k].ballot.ciphertext2@ == pt_mul(
                    rs[k],
                    g2_enc(),
                ),
            forall|k: int|
                0 <= k < i ==> #[trigger] voted@[k].candidate@ == choices.choice@[k].candidate@,
            forall|k: int|
                0 <= k < i ==> crate::proofs::format_valid(
                    #[trigger] voted@[k].ballot.ciphertext1@,
                    voted@[k].ballot.ciphertext2@,
                    ballot_proofs@[k].format_proof@,
                    param.poll_point@,
                ),
            blinding_sum@ == sum_scalars(rs),
            is_scalar(blinding_sum@),
            vote_sum == sum_values(choices.choice@.take(i as int)),
            vote_sum <= weight,
        decreases n - i,
    {
        let choice = &choices.choice[i];
        let value = choice.value;
        proof {
            assert(choices.choice@.take(i + 1).drop_last() =~= choices.choice@.take(i as int));
            assert(choices.choice@.take(i + 1).last() == choices.choice@[i as int]);
        }
        let new_sum = vote_sum + (value as u64);
        if new_sum > weight as u64 {
            proof {
                lemma_sum_values_prefix(choices.choice@, i + 1);
            }
            return Err(AbvError::BalanceProofError);
        }
        vote_sum = new_sum;
        let blinding = random_scalar();
        let value_point = point_mul(&scalar_from_u64(value as u64), &g1)?;
        let blinding_point = point_mul(&blinding, &param.poll_point)?;
        let ciphertext1 = point_add(&value_point, &blinding_point)?;
        let ciphertext2 = point_mul(&blinding, &g2)?;
        let format_proof = format_prove(value as u64, &blinding, &param.poll_point)?;
        blinding_sum = scalar_add(&blinding_sum, &blinding)?;
        proof {
            let rs0 = rs;
            rs = rs.push(blinding@);
            assert(rs.drop_last() =~= rs0);
        }
        voted.push(
            CandidateBallot {
                candidate: choice.candidate.clone(),
                ballot: Ballot { ciphertext1, ciphertext2 },
            },
        );
        ballot_proofs.push(
            CandidateBallotProof {
                candidate: choice.candidate.clone(),
                format_proof,
            },
        );
        i += 1;
    }
    proof {
        assert(choices.choice@.take(n as int) =~= choices.choice@);
    }
    let rest_value = weight - (vote_sum as u32);
    let rest_blinding = scalar_sub(&secret.voter_secret, &blinding_sum)?;
    let rest_value_point = point_mul(&scalar_from_u64(rest_value as u64), &g1)?;
    let rest_blinding_point = point_mul(&rest_blinding, &param.poll_point)?;
    let rest_c1 = point_add(&rest_value_point, &rest_blinding_point)?;
    let rest_c2 = point_mul(&rest_blinding, &g2)?;
    let balance_proof = sum_prove(
        vote_sum,
        rest_value as u64,
        &blinding_sum,
        &rest_blinding,
        &secret.voter_secret,
        &param.poll_point,
    )?;
    let vote = VoteStorage {
        signature: copy_bytes(&response.signature),
        blank_ballot: Ballot {
            ciphertext1: copy_bytes(&response.ballot.ciphertext1),
            ciphertext2: copy_bytes(&response.ballot.ciphertext2),
        },
        voted_ballot: voted,
        rest_ballot: Ballot { ciphertext1: rest_c1, ciphertext2: rest_c2 },
    };
    let request = VoteRequest {
        vote,
        range_proof: Vec::new(),
        ballot_proof: ballot_proofs,
        balance_proof,
    };
    proof {
        let pp = param.poll_point@;
        let s = sum_values(choices.choice@);
        assert(voted_c1s(request.vote) =~= commits_of(choices.choice@, rs, pp));
        lemma_sum_commits(choices.choice@, rs, pp);
        assert(sum_points(voted_c1s(request.vote)) == commit(s, blinding_sum@, pp));
        assert(response.ballot.ciphertext1@ == commit(weight as int, secret.voter_secret@, pp))
            by {
            assert(pt_add(
                pt_mul(secret.voter_secret@, pp),
                pt_mul(u64_scalar(weight as int), crate::curve::g1_enc()),
            ) == pt_add(
                pt_mul(u64_scalar(weight as int), crate::curve::g1_enc()),
                pt_mul(secret.voter_secret@, pp),
            ));
        }
        assert(request.vote.rest_ballot.ciphertext1@ == commit(weight - s, rest_blinding@, pp));
        assert(balance_valid(*param, request));
    }
    Ok(request)
}

} // verus!
