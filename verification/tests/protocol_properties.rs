//! Property and error-path tests for the voting core: aggregation
//! commutativity, certification round trips, tamper detection, padding,
//! balance conservation and the end-to-end scenario.

use anonymous_bounded_voting::{
    coordinator, counter, verification, voter, AbvError, CandidateList,
    CounterSystemParametersStorage, RegistrationResponse, SystemParametersStorage, VoteChoice,
    VoteChoices, VoterSecret,
};
use curve25519_dalek::scalar::Scalar;
use wedpr_l_crypto_signature_secp256k1::WedprSecp256k1Recover;
use wedpr_l_crypto_zkp_utils::{bytes_to_point, bytes_to_scalar, point_to_bytes, BASEPOINT_G1};
use wedpr_l_utils::traits::Signature;

fn candidate_list(names: &[&str]) -> CandidateList {
    CandidateList {
        candidate: names.iter().map(|n| n.to_string()).collect(),
    }
}

fn make_parameters(names: &[&str], n_counters: usize) -> SystemParametersStorage {
    let mut storage = CounterSystemParametersStorage {
        counter_parameters_request: vec![],
    };
    for i in 0..n_counters {
        let secret = counter::make_counter_secret();
        let share = counter::make_system_parameters_share(&format!("{}", 1001 + i), &secret).unwrap();
        storage.counter_parameters_request.push(share);
    }
    coordinator::make_system_parameters(&candidate_list(names), &storage).unwrap()
}

fn certify(
    param: &SystemParametersStorage,
    weight: u32,
) -> (Vec<u8>, Vec<u8>, VoterSecret, RegistrationResponse) {
    let (public_key, secret_key) = WedprSecp256k1Recover::default().generate_keypair();
    let vote_secret = voter::make_voter_secret();
    let request = voter::make_bounded_registration_request(&vote_secret, param).unwrap();
    let response = coordinator::certify_bounded_voter(&secret_key, weight, &request).unwrap();
    assert_eq!(
        Ok(true),
        voter::verify_blank_ballot(&request, &response, &public_key)
    );
    (public_key, secret_key, vote_secret, response)
}

fn choices_of(param: &SystemParametersStorage, values: &[u32]) -> VoteChoices {
    VoteChoices {
        choice: param
            .candidates
            .candidate
            .iter()
            .zip(values.iter())
            .map(|(c, v)| VoteChoice {
                candidate: c.clone(),
                value: *v,
            })
            .collect(),
    }
}

#[test]
fn aggregation_is_order_independent() {
    let names = ["a", "b", "c"];
    let mut storage = CounterSystemParametersStorage {
        counter_parameters_request: vec![],
    };
    for id in ["1001", "1002", "1003"] {
        let secret = counter::make_counter_secret();
        let share = counter::make_system_parameters_share(id, &secret).unwrap();
        storage.counter_parameters_request.push(share);
    }
    let forward =
        coordinator::make_system_parameters(&candidate_list(&names), &storage).unwrap();
    storage.counter_parameters_request.reverse();
    let backward =
        coordinator::make_system_parameters(&candidate_list(&names), &storage).unwrap();
    assert_eq!(forward.poll_point, backward.poll_point);
    storage.counter_parameters_request.swap(0, 1);
    let swapped =
        coordinator::make_system_parameters(&candidate_list(&names), &storage).unwrap();
    assert_eq!(forward.poll_point, swapped.poll_point);
}

#[test]
fn aggregation_rejects_malformed_share() {
    let mut storage = CounterSystemParametersStorage {
        counter_parameters_request: vec![],
    };
    let secret = counter::make_counter_secret();
    let mut share = counter::make_system_parameters_share("1001", &secret).unwrap();
    share.poll_point_share = vec![1u8; 31];
    storage.counter_parameters_request.push(share);
    let result = coordinator::make_system_parameters(&candidate_list(&["a"]), &storage);
    assert_eq!(result.err(), Some(AbvError::ParseError));
}

#[test]
fn padding_reaches_the_next_power_of_two() {
    let entry = vec![7u8; 32];
    for (len, expected) in [(3usize, 4usize), (4, 4), (5, 8), (7, 8), (8, 8), (9, 16)] {
        let mut commitments: Vec<Vec<u8>> = (0..len).map(|_| entry.clone()).collect();
        verification::pending_commitment_vec(&mut commitments);
        assert_eq!(expected, commitments.len());
        for i in 0..len {
            assert_eq!(entry, commitments[i]);
        }
        for i in len..expected {
            assert_eq!(vec![0u8; 32], commitments[i]);
        }
    }
}

#[test]
fn certification_recovers_the_committed_weight() {
    let param = make_parameters(&["a", "b"], 3);
    let (_pk, _sk, vote_secret, response) = certify(&param, 100);
    let c1 = bytes_to_point(&response.ballot.ciphertext1).unwrap();
    let x = bytes_to_scalar(&vote_secret.voter_secret).unwrap();
    let poll_point = bytes_to_point(&param.poll_point).unwrap();
    let recovered = c1 - x * poll_point;
    let expected = *BASEPOINT_G1 * Scalar::from(100u64);
    assert_eq!(point_to_bytes(&recovered), point_to_bytes(&expected));
}

#[test]
fn certification_rejects_malformed_request() {
    let param = make_parameters(&["a"], 1);
    let (_pk, secret_key) = WedprSecp256k1Recover::default().generate_keypair();
    let vote_secret = voter::make_voter_secret();
    let mut request = voter::make_bounded_registration_request(&vote_secret, &param).unwrap();
    request.blinding_poll_point = vec![0xffu8; 32];
    let result = coordinator::certify_bounded_voter(&secret_key, 10, &request);
    assert_eq!(result.err(), Some(AbvError::ParseError));
}

#[test]
fn tampered_ballot_fails_blank_verification() {
    let param = make_parameters(&["a", "b"], 2);
    let (public_key, secret_key) = WedprSecp256k1Recover::default().generate_keypair();
    let vote_secret = voter::make_voter_secret();
    let request = voter::make_bounded_registration_request(&vote_secret, &param).unwrap();
    let response = coordinator::certify_bounded_voter(&secret_key, 42, &request).unwrap();
    for index in 0..response.ballot.ciphertext1.len() {
        let mut tampered = response.clone();
        tampered.ballot.ciphertext1[index] ^= 0x01;
        let result = voter::verify_blank_ballot(&request, &tampered, &public_key).unwrap();
        assert_eq!(false, result);
    }
    for index in 0..response.ballot.ciphertext2.len() {
        let mut tampered = response.clone();
        tampered.ballot.ciphertext2[index] ^= 0x01;
        let result = voter::verify_blank_ballot(&request, &tampered, &public_key).unwrap();
        assert_eq!(false, result);
    }
}

#[test]
fn end_to_end_vote_verifies_and_tampering_fails() {
    let param = make_parameters(&["candidate0", "candidate1", "candidate2"], 3);
    let (public_key, _sk, vote_secret, response) = certify(&param, 100);
    let choices = choices_of(&param, &[20, 30, 10]);
    let request = voter::vote_bounded(&vote_secret, &choices, &response, &param).unwrap();
    assert_eq!(Ok(()), verification::verify_bounded_vote_request(&param, &request, &public_key));

    // Balance conservation, concretely: the voted commitments plus the rest
    // commitment sum back to the blank-ballot commitment.
    let mut sum = bytes_to_point(&request.vote.rest_ballot.ciphertext1).unwrap();
    for pair in &request.vote.voted_ballot {
        sum += bytes_to_point(&pair.ballot.ciphertext1).unwrap();
    }
    assert_eq!(
        point_to_bytes(&sum),
        request.vote.blank_ballot.ciphertext1.clone()
    );

    // Raising candidate1's committed value by one without regenerating the
    // proofs must be rejected.
    let mut tampered = request.clone();
    let old_point = bytes_to_point(&tampered.vote.voted_ballot[1].ballot.ciphertext1).unwrap();
    tampered.vote.voted_ballot[1].ballot.ciphertext1 = point_to_bytes(&(old_point + *BASEPOINT_G1));
    assert!(verification::verify_bounded_vote_request(&param, &tampered, &public_key).is_err());

    // A wrong public key fails the signature check.
    let (other_pk, _other_sk) = WedprSecp256k1Recover::default().generate_keypair();
    assert_eq!(
        Err(AbvError::VerificationError),
        verification::verify_bounded_vote_request(&param, &request, &other_pk)
    );

    // A tampered balance proof fails the balance check.
    let mut bad_balance = request.clone();
    let last = bad_balance.balance_proof.len() - 1;
    bad_balance.balance_proof[last] ^= 0x01;
    assert_eq!(
        Err(AbvError::BalanceProofError),
        verification::verify_bounded_vote_request(&param, &bad_balance, &public_key)
    );

    // A missing format proof fails the format check.
    let mut bad_formats = request.clone();
    bad_formats.ballot_proof.pop();
    assert_eq!(
        Err(AbvError::FormatProofError),
        verification::verify_bounded_vote_request(&param, &bad_formats, &public_key)
    );

    // A tampered format proof fails the format check.
    let mut bad_format = request.clone();
    bad_format.ballot_proof[0].format_proof[4] ^= 0x01;
    assert_eq!(
        Err(AbvError::FormatProofError),
        verification::verify_bounded_vote_request(&param, &bad_format, &public_key)
    );

    // A malformed voted commitment is a parse error.
    let mut bad_point = request.clone();
    bad_point.vote.voted_ballot[0].ballot.ciphertext1 = vec![0xffu8; 32];
    assert_eq!(
        Err(AbvError::ParseError),
        verification::verify_bounded_vote_request(&param, &bad_point, &public_key)
    );
}

#[test]
fn vote_exceeding_the_weight_is_rejected() {
    let param = make_parameters(&["a", "b"], 2);
    let (_pk, _sk, vote_secret, response) = certify(&param, 40);
    let choices = choices_of(&param, &[30, 11]);
    let result = voter::vote_bounded(&vote_secret, &choices, &response, &param);
    assert_eq!(result.err(), Some(AbvError::BalanceProofError));
}

#[test]
fn vote_with_foreign_blank_ballot_is_rejected() {
    let param = make_parameters(&["a", "b"], 2);
    let (_pk, _sk, _vote_secret, response) = certify(&param, 40);
    let other_secret = voter::make_voter_secret();
    let choices = choices_of(&param, &[10, 10]);
    let result = voter::vote_bounded(&other_secret, &choices, &response, &param);
    assert_eq!(result.err(), Some(AbvError::VerificationError));
}

#[test]
fn vote_spending_the_whole_weight_verifies() {
    let param = make_parameters(&["a", "b", "c"], 1);
    let (public_key, _sk, vote_secret, response) = certify(&param, 60);
    let choices = choices_of(&param, &[20, 30, 10]);
    let request = voter::vote_bounded(&vote_secret, &choices, &response, &param).unwrap();
    assert_eq!(Ok(()), verification::verify_bounded_vote_request(&param, &request, &public_key));
}

#[test]
fn malformed_poll_point_is_a_parse_error() {
    let mut param = make_parameters(&["a", "b"], 2);
    let (public_key, _sk, vote_secret, response) = certify(&param, 50);
    let choices = choices_of(&param, &[10, 20]);
    let request = voter::vote_bounded(&vote_secret, &choices, &response, &param).unwrap();
    param.poll_point = vec![9u8; 7];
    assert_eq!(
        Err(AbvError::ParseError),
        verification::verify_bounded_vote_request(&param, &request, &public_key)
    );
    let secret = voter::make_voter_secret();
    assert_eq!(
        voter::make_bounded_registration_request(&secret, &param).err(),
        Some(AbvError::ParseError)
    );
    assert_eq!(
        voter::vote_bounded(&vote_secret, &choices, &response, &param).err(),
        Some(AbvError::ParseError)
    );
}

#[test]
fn blank_ballot_check_rejects_malformed_request() {
    let param = make_parameters(&["a"], 1);
    let (public_key, secret_key) = WedprSecp256k1Recover::default().generate_keypair();
    let vote_secret = voter::make_voter_secret();
    let mut request = voter::make_bounded_registration_request(&vote_secret, &param).unwrap();
    let response = coordinator::certify_bounded_voter(&secret_key, 5, &request).unwrap();
    request.blinding_poll_point = vec![2u8; 3];
    assert_eq!(
        voter::verify_blank_ballot(&request, &response, &public_key).err(),
        Some(AbvError::ParseError)
    );
}
