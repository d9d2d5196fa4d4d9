use crypto_simulation::hashing::digest;
use crypto_simulation::pow::first_solution;
use crypto_simulation::pow::meets_difficulty;
use crypto_simulation::pow::proof_of_work;
use crypto_simulation::pow::valid_proof;
use crypto_simulation::pow::PROOF_MAX;
use crypto_simulation::pow::PROOF_MIN;

#[test]
fn difficulty_asks_for_two_leading_zeros() {
    assert!(meets_difficulty("00"));
    assert!(meets_difficulty("00ab"));
    assert!(meets_difficulty("000000"));
    assert!(!meets_difficulty(""));
    assert!(!meets_difficulty("0"));
    assert!(!meets_difficulty("0a0b"));
    assert!(!meets_difficulty("a00b"));
    assert!(!meets_difficulty("10"));
    assert!(!meets_difficulty("\u{e9}00"));
}

#[test]
fn known_proofs_for_the_genesis_puzzle() {
    for proof in [1075u32, 1237, 1328, 1490, 1577, 2066, 2296, 2500, 2660, 3176] {
        assert!(valid_proof(100, proof));
    }
    for proof in 1000u32..1010 {
        assert!(!valid_proof(100, proof));
    }
}

#[test]
fn proof_is_valid_exactly_when_the_digest_of_the_two_numbers_starts_with_zeros() {
    let mut valid: usize = 0;
    for last_proof in [0u32, 100, 1075, 4294967295] {
        for proof in 900u32..1500 {
            let guess = format!("{}{}", last_proof, proof);
            let expected = digest(guess.as_bytes()).starts_with("00");
            assert_eq!(valid_proof(last_proof, proof), expected);
            if expected {
                valid += 1;
            }
        }
    }
    assert!(valid > 0);
}

#[test]
fn the_two_numbers_are_joined_as_text_not_added() {
    // 100 and 1075 are hashed as "1001075".
    assert!(digest(b"1001075").starts_with("00"));
    assert!(valid_proof(100, 1075));
    assert!(!digest(b"1175").starts_with("00"));
}

#[test]
fn search_returns_a_valid_proof_in_range() {
    for last_proof in [100u32, 1075, 0, 9998, 4294967295] {
        let proof = proof_of_work(last_proof).expect("the range holds a proof");
        assert!(PROOF_MIN <= proof && proof <= PROOF_MAX);
        assert!(valid_proof(last_proof, proof));
    }
    assert_eq!(PROOF_MIN, 1000);
    assert_eq!(PROOF_MAX, 9998);
}

#[test]
fn search_draws_its_candidates_at_random() {
    // The genesis puzzle has 34 solutions in the range; forty searches that
    // all end on the same one would mean that nothing is drawn.
    let first = proof_of_work(100).unwrap();
    let mut other = false;
    for _ in 0..40 {
        if proof_of_work(100).unwrap() != first {
            other = true;
        }
    }
    assert!(other);
}

#[test]
fn first_solution_is_the_earliest_candidate_that_solves() {
    assert_eq!(first_solution(100, &[]), None);
    assert_eq!(first_solution(100, &[1000, 1001, 1002]), None);
    assert_eq!(first_solution(100, &[1075]), Some(0));
    assert_eq!(first_solution(100, &[1000, 1237, 1075]), Some(1));
    assert_eq!(first_solution(100, &[1000, 1001, 1075, 1237, 1075]), Some(2));
    assert_eq!(first_solution(100, &[9000, 1003, 1003, 1328]), Some(3));
    // Candidates outside the search range are tested like any other.
    assert_eq!(first_solution(100, &[0, 5, 1075]), Some(2));
}
