use tee_worker::errors::ValidationError;
use tee_worker::hashing::H256;
use tee_worker::light_client::{FinalityMode, ValidatorState};
use tee_worker::primitives::{
    hash_of_header, AuthorityChange, FinalityProof, Header, ParentchainId, ParentchainInitParams,
};

fn zero_hash() -> H256 {
    H256 { w0: 0, w1: 0, w2: 0, w3: 0 }
}

fn genesis_header() -> Header {
    Header { number: 0, parent_hash: zero_hash(), change: None }
}

fn grandpa_state() -> ValidatorState {
    ValidatorState::initialize(ParentchainInitParams::Grandpa {
        id: ParentchainId::Integritee,
        genesis_header: genesis_header(),
        authorities: vec![1, 2, 3],
        authorities_proof: vec![],
    })
    .unwrap()
}

fn child_of(parent: &Header, change: Option<AuthorityChange>) -> Header {
    Header { number: parent.number + 1, parent_hash: hash_of_header(parent), change }
}

#[test]
fn genesis_must_be_number_zero() {
    let bad = Header { number: 3, parent_hash: zero_hash(), change: None };
    let r = ValidatorState::initialize(ParentchainInitParams::Simple {
        id: ParentchainId::TargetA,
        genesis_header: bad,
    });
    assert_eq!(r.err(), Some(ValidationError::InvalidGenesis));
}

#[test]
fn quorum_scenario_two_of_three_then_insufficient_then_skip() {
    let mut state = grandpa_state();
    let header1 = child_of(&genesis_header(), None);

    // A valid 2-of-3 quorum finalizes header #1.
    let r = state.submit_finalized_header(
        header1.clone(),
        FinalityProof { set_id: 0, signers: vec![1, 2] },
    );
    assert_eq!(r, Ok(()));
    assert_eq!(state.latest_finalized_header.number, 1);

    // The same header again, now with 1-of-3: rejected, state unchanged.
    let r = state.submit_finalized_header(
        header1.clone(),
        FinalityProof { set_id: 0, signers: vec![1] },
    );
    assert_eq!(r, Err(ValidationError::InsufficientSignatures));
    assert_eq!(state.latest_finalized_header.number, 1);

    // Header #3, skipping #2: does not connect.
    let header2 = child_of(&header1, None);
    let header3 = child_of(&header2, None);
    let r = state.submit_finalized_header(
        header3,
        FinalityProof { set_id: 0, signers: vec![1, 2, 3] },
    );
    assert_eq!(r, Err(ValidationError::UnknownAncestor));
    assert_eq!(state.latest_finalized_header.number, 1);
}

#[test]
fn ancestry_is_judged_before_the_proof() {
    // A candidate skipping ahead, even one signed under a claimed newer
    // authority set, is sent to fetch its ancestors, not told about sets.
    let mut state = grandpa_state();
    let header1 = child_of(&genesis_header(), None);
    let header2 = child_of(&header1, None);
    let r = state.submit_finalized_header(
        header2,
        FinalityProof { set_id: 7, signers: vec![1] },
    );
    assert_eq!(r, Err(ValidationError::UnknownAncestor));
    assert_eq!(state.latest_finalized_header.number, 0);
}

#[test]
fn a_fully_valid_resubmission_cannot_extend_the_chain() {
    let mut state = grandpa_state();
    let header1 = child_of(&genesis_header(), None);
    let r = state.submit_finalized_header(
        header1.clone(),
        FinalityProof { set_id: 0, signers: vec![1, 2] },
    );
    assert_eq!(r, Ok(()));

    // The same header again with a full quorum: it connects, the proof is
    // fine, but there is nothing left to extend at its height.
    let r = state.submit_finalized_header(
        header1,
        FinalityProof { set_id: 0, signers: vec![1, 2, 3] },
    );
    assert_eq!(r, Err(ValidationError::UnknownAncestor));
    assert_eq!(state.latest_finalized_header.number, 1);
}

#[test]
fn duplicate_signers_do_not_make_a_quorum() {
    let mut state = grandpa_state();
    let header1 = child_of(&genesis_header(), None);
    let r = state.submit_finalized_header(
        header1,
        FinalityProof { set_id: 0, signers: vec![2, 2, 2] },
    );
    assert_eq!(r, Err(ValidationError::InsufficientSignatures));
}

#[test]
fn stale_set_id_is_rejected() {
    let mut state = grandpa_state();
    let header1 = child_of(&genesis_header(), None);
    let r = state.submit_finalized_header(
        header1,
        FinalityProof { set_id: 4, signers: vec![1, 2, 3] },
    );
    assert_eq!(r, Err(ValidationError::StaleSetId));
    assert_eq!(state.latest_finalized_header.number, 0);
}

#[test]
fn monotonic_trust_over_a_run_of_submissions() {
    let mut state = grandpa_state();
    let mut parent = genesis_header();
    let mut last_number = 0u64;
    for _ in 0..5 {
        let candidate = child_of(&parent, None);
        let r = state.submit_finalized_header(
            candidate.clone(),
            FinalityProof { set_id: 0, signers: vec![2, 3] },
        );
        assert_eq!(r, Ok(()));
        assert!(state.latest_finalized_header.number > last_number || last_number == 0);
        assert_eq!(state.latest_finalized_header.number, last_number + 1);
        last_number = state.latest_finalized_header.number;
        parent = candidate;
    }
    assert_eq!(last_number, 5);
}

#[test]
fn authority_change_activates_after_delay() {
    let mut state = grandpa_state();
    // Header #1 schedules a new set two blocks ahead.
    let header1 = child_of(
        &genesis_header(),
        Some(AuthorityChange { next_authorities: vec![7, 8, 9], delay: 2 }),
    );
    let r = state.submit_finalized_header(
        header1.clone(),
        FinalityProof { set_id: 0, signers: vec![1, 2] },
    );
    assert_eq!(r, Ok(()));
    assert_eq!(state.current_authority_set.set_id, 0);
    assert_eq!(state.current_authority_set.authorities, vec![1, 2, 3]);

    // Header #2: still the old set.
    let header2 = child_of(&header1, None);
    let r = state.submit_finalized_header(
        header2.clone(),
        FinalityProof { set_id: 0, signers: vec![2, 3] },
    );
    assert_eq!(r, Ok(()));
    assert_eq!(state.current_authority_set.set_id, 0);

    // Header #3 reaches the activation height: the new set takes over.
    let header3 = child_of(&header2, None);
    let r = state.submit_finalized_header(
        header3.clone(),
        FinalityProof { set_id: 0, signers: vec![1, 3] },
    );
    assert_eq!(r, Ok(()));
    assert_eq!(state.current_authority_set.set_id, 1);
    assert_eq!(state.current_authority_set.authorities, vec![7, 8, 9]);

    // From now on only the new set finalizes, under the new generation.
    let header4 = child_of(&header3, None);
    let r = state.submit_finalized_header(
        header4.clone(),
        FinalityProof { set_id: 0, signers: vec![1, 2] },
    );
    assert_eq!(r, Err(ValidationError::StaleSetId));
    let r = state.submit_finalized_header(
        header4,
        FinalityProof { set_id: 1, signers: vec![7, 9] },
    );
    assert_eq!(r, Ok(()));
    assert_eq!(state.latest_finalized_header.number, 4);
}

#[test]
fn simple_mode_enforces_ancestry_without_signatures() {
    let mut state = ValidatorState::initialize(ParentchainInitParams::Simple {
        id: ParentchainId::TargetA,
        genesis_header: genesis_header(),
    })
    .unwrap();
    assert_eq!(state.finality, FinalityMode::Simple);
    let header1 = child_of(&genesis_header(), None);
    let r = state.submit_finalized_header(
        header1.clone(),
        FinalityProof { set_id: 0, signers: vec![] },
    );
    assert_eq!(r, Ok(()));
    let header2 = child_of(&header1, None);
    let header3 = child_of(&header2, None);
    let r = state.submit_finalized_header(header3, FinalityProof { set_id: 0, signers: vec![] });
    assert_eq!(r, Err(ValidationError::UnknownAncestor));
}
