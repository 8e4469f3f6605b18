use tendermint_finality::environment::{
    repeatable_vote, BlockFinalizationData, Environment, RoundData,
};
use tendermint_finality::finality::{FinalizedCommit, JustificationOrCommit, Phase};
use tendermint_finality::primitives::{AuthoritySet, Prevote, VoterError};
use tendermint_finality::rounds::{CompletedRound, CompletedRounds};
use tendermint_finality::shared::{SharedVoterSetState, VotingTracker};
use tendermint_finality::target::TargetSearch;
use tendermint_finality::vote::{HasVoted, Vote};
use tendermint_finality::voter_state::{CurrentRounds, VoterSetState};

fn authorities() -> AuthoritySet {
    AuthoritySet { current_authorities: vec![[1; 32], [2; 32]], set_id: 9 }
}

fn live() -> VoterSetState {
    VoterSetState::live(4, &authorities(), ([6; 32], 10))
}

fn voted(id: u8) -> HasVoted {
    let prevote = Prevote { target_height: 3, target_hash: Some([3; 32]), round: 5 };
    HasVoted::Yes([id; 32], Vote::Prevote(None, prevote))
}

fn live_with(round: u64, has_voted: HasVoted) -> VoterSetState {
    let mut current_rounds = CurrentRounds::new();
    current_rounds.insert(round, has_voted);
    VoterSetState::Live { completed_rounds: live().completed_rounds(), current_rounds }
}

fn paused() -> VoterSetState {
    VoterSetState::Paused { completed_rounds: live().completed_rounds() }
}

fn environment(state: VoterSetState, has_metrics: bool) -> Environment {
    Environment {
        engine_id: [9, 8, 7, 6],
        voters: vec![[1; 32], [2; 32]],
        set_id: 4,
        justification_period: 512,
        has_metrics,
        voter_set_state: SharedVoterSetState::new(state),
    }
}

fn genesis() -> CompletedRound {
    CompletedRound { number: 0, state: (10, [6; 32]), base: (10, [6; 32]), votes: Vec::new() }
}

#[test]
fn live_state_starts_in_round_one() {
    let state = live();
    assert_eq!(state._last_completed_round(), genesis());
    let completed = state.completed_rounds();
    assert_eq!(completed.set_info().0, 4);
    assert_eq!(completed.set_info().1, &[[1u8; 32], [2u8; 32]][..]);
    let (rounds, current) = state._with_current_round(1).unwrap();
    assert_eq!(rounds, &completed);
    assert_eq!(current.len(), 1);
    assert_eq!(current.get(&1), Some(&HasVoted::No));
}

#[test]
fn untracked_round_is_a_safety_error() {
    assert_eq!(
        live()._with_current_round(2).err(),
        Some(VoterError::Safety("Voter acting on a live round we are not tracking.".to_string()))
    );
}

#[test]
fn paused_voter_acts_on_no_round() {
    assert_eq!(
        paused()._with_current_round(1).err(),
        Some(VoterError::Safety("Voter acting while in paused state.".to_string()))
    );
    assert_eq!(paused()._last_completed_round(), genesis());
    assert_eq!(paused().completed_rounds(), live().completed_rounds());
    assert_eq!(paused().has_voted(1), HasVoted::No);
}

#[test]
fn vote_is_found_in_its_round_only() {
    let state = live_with(5, voted(1));
    assert_eq!(state.has_voted(5), voted(1));
    assert_eq!(state.has_voted(6), HasVoted::No);
    let shared = SharedVoterSetState::from(state);
    assert_eq!(shared.has_voted(5), voted(1));
    assert_eq!(shared.has_voted(6), HasVoted::No);
}

#[test]
fn tracker_knows_started_rounds_until_finished() {
    let mut tracker = VotingTracker::new();
    assert_eq!(tracker.voting_on(3), None);
    tracker.started_voting_on(3, [7; 32]);
    tracker.started_voting_on(4, [8; 32]);
    assert_eq!(tracker.voting_on(3), Some([7; 32]));
    tracker.finished_voting_on(3);
    assert_eq!(tracker.voting_on(3), None);
    assert_eq!(tracker.voting_on(4), Some([8; 32]));
}

#[test]
fn owners_share_state_and_tracker() {
    let shared = SharedVoterSetState::new(live());
    let other = shared.clone();
    shared.started_voting_on(3, [7; 32]);
    assert_eq!(other._voting_on(3), Some([7; 32]));
    assert_eq!(other._voting_on(4), None);
    other._finished_voting_on(3);
    assert_eq!(shared._voting_on(3), None);
    let env = Environment { voter_set_state: shared, ..environment(live(), false) };
    let updated = env.update_voter_set_state(|state| {
        assert!(matches!(state, VoterSetState::Live { .. }));
        Ok(Some(paused()))
    });
    assert_eq!(updated, Ok(None));
    assert!(other.read(|state| matches!(state, VoterSetState::Paused { .. })));
}

#[test]
fn update_replaces_state_and_tells_highest_round() {
    let env = environment(live(), true);
    let published = env.update_voter_set_state(|state| {
        let mut completed = state.completed_rounds();
        completed._push(CompletedRound { number: 8, ..genesis() });
        Ok(Some(VoterSetState::Live {
            completed_rounds: completed,
            current_rounds: CurrentRounds::new(),
        }))
    });
    assert_eq!(published, Ok(Some(8)));
    assert_eq!(env.voter_set_state.read(|state| state._last_completed_round().number), 8);
}

#[test]
fn update_can_carry_the_completed_rounds_over() {
    let env = environment(live(), true);
    let published = env.update_voter_set_state(|state| {
        Ok(Some(VoterSetState::Live {
            completed_rounds: state.completed_rounds(),
            current_rounds: CurrentRounds::new(),
        }))
    });
    assert_eq!(published, Ok(Some(0)));
    assert_eq!(env.voter_set_state.read(|state| state._last_completed_round()), genesis());
    assert!(env.voter_set_state.read(|state| state._with_current_round(1).is_err()));
}

#[test]
fn later_update_finds_what_the_earlier_one_left() {
    let env = environment(live(), true);
    for number in 1..4 {
        let published = env.update_voter_set_state(|state| {
            assert_eq!(state._last_completed_round().number, number - 1);
            let mut completed = state.completed_rounds();
            completed._push(CompletedRound { number, ..genesis() });
            Ok(Some(VoterSetState::Live {
                completed_rounds: completed,
                current_rounds: CurrentRounds::new(),
            }))
        });
        assert_eq!(published, Ok(Some(number)));
    }
}

#[test]
fn update_to_paused_or_without_metrics_tells_nothing() {
    let env = environment(live(), true);
    assert_eq!(env.update_voter_set_state(|_| Ok(Some(paused()))), Ok(None));
    assert!(env.voter_set_state.read(|state| *state == paused()));
    let quiet = environment(paused(), false);
    assert_eq!(quiet.update_voter_set_state(|_| Ok(Some(live()))), Ok(None));
    assert!(quiet.voter_set_state.read(|state| *state == live()));
}

#[test]
fn update_without_result_leaves_state() {
    let env = environment(live(), true);
    assert_eq!(env.update_voter_set_state(|_| Ok(None)), Ok(None));
    let error = env.update_voter_set_state(|_| Err(VoterError::Client("gone".to_string())));
    assert_eq!(error, Err(VoterError::Client("gone".to_string())));
    assert!(env.voter_set_state.read(|state| *state == live()));
}

#[test]
fn update_of_a_state_in_place() {
    let mut state = live();
    assert_eq!(state.update(Ok(Some(paused())), true), Ok(None));
    assert_eq!(state, paused());
    assert_eq!(state.update(Ok(Some(live())), true), Ok(Some(0)));
    assert_eq!(state, live());
}

#[test]
fn round_starts_with_own_votes_only() {
    let env = environment(live_with(5, voted(1)), false);
    let own = env.init_round(5, Some([1; 32]), true);
    assert_eq!(own.has_voted, voted(1));
    assert_eq!(own.local_id, [1; 32]);
    assert_eq!(own.signer, Some([1; 32]));
    assert_eq!(env.voter_set_state._voting_on(5), Some([1; 32]));
    let foreign = env.init_round(5, Some([2; 32]), false);
    assert_eq!(foreign.has_voted, HasVoted::No);
    assert_eq!(foreign.signer, None);
    assert_eq!(env.voter_set_state._voting_on(5), Some([2; 32]));
    let later = env.init_round(6, Some([1; 32]), true);
    assert_eq!(later.has_voted, HasVoted::No);
}

#[test]
fn entering_a_round_leaves_other_rounds_and_votes_alone() {
    let env = environment(live_with(5, voted(1)), false);
    env.init_round(5, Some([1; 32]), true);
    env.init_round(6, Some([2; 32]), true);
    assert_eq!(env.voter_set_state._voting_on(5), Some([1; 32]));
    assert_eq!(env.voter_set_state._voting_on(6), Some([2; 32]));
    env.voter_set_state._finished_voting_on(5);
    assert_eq!(env.voter_set_state._voting_on(5), None);
    assert_eq!(env.voter_set_state._voting_on(6), Some([2; 32]));
    assert_eq!(env.voter_set_state.has_voted(5), voted(1));
}

#[test]
fn votes_without_local_id_are_not_repeated() {
    assert_eq!(repeatable_vote(voted(1), &None), HasVoted::No);
    assert_eq!(repeatable_vote(voted(1), &Some([1; 32])), voted(1));
    assert_eq!(repeatable_vote(HasVoted::No, &Some([1; 32])), HasVoted::No);
}

#[test]
fn messages_are_signed_with_a_keystore_only() {
    let env = environment(live(), false);
    assert_eq!(env.enter_round(5, voted(1), [1; 32], true).signer, Some([1; 32]));
    let without = env.enter_round(5, voted(1), [1; 32], false);
    assert_eq!(without.signer, None);
    assert_eq!(without.has_voted, voted(1));
}

#[test]
fn network_is_given_round_set_and_voters() {
    let env = environment(live(), false);
    assert_eq!(
        env.init_round(7, Some([2; 32]), true),
        RoundData {
            local_id: [2; 32],
            signer: Some([2; 32]),
            round: 7,
            set_id: 4,
            voters: &vec![[1; 32], [2; 32]],
            has_voted: HasVoted::No,
        }
    );
}

#[test]
fn voter_starts_under_its_id() {
    assert_eq!(environment(live(), false).init_voter(Some([3; 32])).local_id, [3; 32]);
}

#[test]
fn nothing_is_proposed_for_another_set() {
    let env = environment(live(), false);
    assert_eq!(env.propose(1, [5; 32], 4), TargetSearch::Base { block: [5; 32] });
    assert_eq!(env.propose(1, [5; 32], 5), TargetSearch::Finished { found: Ok(None) });
}

#[test]
fn finalization_rests_on_the_commits_of_the_round() {
    let commit =
        || FinalizedCommit { target_hash: [5; 32], target_number: 12, commits: Vec::new() };
    let data = BlockFinalizationData {
        target_hash: [5; 32],
        target_number: 12,
        round: 3,
        commits: commit(),
    };
    let finalization = environment(live(), false).finalize_block(data);
    assert_eq!(finalization.engine_id, [9, 8, 7, 6]);
    assert_eq!(finalization.hash, [5; 32]);
    assert_eq!(finalization.number, 12);
    assert_eq!(finalization.justification_period, Some(512));
    assert!(!finalization.initial_sync);
    let source = JustificationOrCommit::Commit((3, commit()));
    assert_eq!(finalization.phase, Phase::Status { source });
}

#[test]
fn clone_of_rounds_is_equal() {
    let completed: CompletedRounds = live().completed_rounds();
    assert_eq!(completed.clone(), completed);
}
