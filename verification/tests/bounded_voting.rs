//! The full protocol flow: counters publish shares, the coordinator
//! aggregates and certifies, voters verify their blank ballots and cast
//! bounded votes.

use anonymous_bounded_voting::{
    coordinator, counter, voter, CandidateList, CounterSecret, CounterSystemParametersStorage,
    VoteChoice, VoteChoices, VoterSecret,
};
use wedpr_l_crypto_signature_secp256k1::WedprSecp256k1Recover;
use wedpr_l_utils::traits::Signature;

#[test]
fn test_bounded_voting() {
    // Generate coordinator's key pair
    let (public_key, secret_key) = WedprSecp256k1Recover::default().generate_keypair();
    let mut candidate_list = CandidateList { candidate: vec![] };
    // Init candidate list
    for candidate in vec!["Kitten", "Doge", "Bunny"] {
        candidate_list.candidate.push(candidate.to_string());
    }
    let counter_id_list = vec!["1001", "1002", "1003"];
    let blank_ballot_count = vec![10, 100, 1000, 10000];

    let mut counter_secret_list: Vec<CounterSecret> = vec![];
    let mut counter_parameters_storage =
        CounterSystemParametersStorage { counter_parameters_request: vec![] };
    // Counter init
    for id in counter_id_list {
        let share_secret = counter::make_counter_secret();
        counter_secret_list.push(share_secret.clone());
        let counter_parameters_request =
            counter::make_system_parameters_share(id, &share_secret).unwrap();
        counter_parameters_storage
            .counter_parameters_request
            .push(counter_parameters_request.clone());
    }
    // coordinator make system parameters
    let system_parameters =
        coordinator::make_system_parameters(&candidate_list, &counter_parameters_storage).unwrap();

    // voter init
    let mut voter_secret_list: Vec<VoterSecret> = vec![];
    let mut response_list = vec![];

    for blank_ballot in blank_ballot_count {
        let vote_secret = voter::make_voter_secret();
        voter_secret_list.push(vote_secret.clone());

        // voter -> coordinator generate blank ballot
        let vote_request =
            voter::make_bounded_registration_request(&vote_secret, &system_parameters).unwrap();
        let response =
            coordinator::certify_bounded_voter(&secret_key, blank_ballot, &vote_request).unwrap();
        response_list.push(response.clone());
        // verify blank ballot
        let result = voter::verify_blank_ballot(&vote_request, &response, &public_key).unwrap();
        assert_eq!(true, result);
    }

    // voter vote
    let make_choice = |x: &Vec<u32>| {
        let mut choices = VoteChoices { choice: vec![] };
        for i in 0..candidate_list.candidate.len() {
            choices.choice.push(VoteChoice {
                candidate: candidate_list.candidate[i].clone(),
                value: x[i],
            });
        }
        choices
    };

    let voting_ballot_count: Vec<Vec<u32>> = vec![
        vec![1, 2, 3],
        vec![10, 20, 30],
        vec![100, 200, 300],
        vec![1000, 2000, 3000],
    ];
    let mut vote_request_list = vec![];
    for index in 0..voting_ballot_count.len() {
        let ballot_choice = make_choice(&voting_ballot_count[index]);
        let vote_request = voter::vote_bounded(
            &voter_secret_list[index],
            &ballot_choice,
            &response_list[index],
            &system_parameters,
        );
        vote_request_list.push(vote_request);
    }
}
