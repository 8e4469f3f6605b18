//! The state of the current voter set.
use crate::primitives::{AuthoritySet, BlockHash, BlockNumber, RoundNumber, SetId, VoterError};
use crate::rounds::{CompletedRound, CompletedRoundView, CompletedRounds, CompletedRoundsView};
use crate::vote::HasVoted;
use std::collections::BTreeMap;
use vstd::prelude::*;

verus! {

broadcast use vstd::std_specs::btree::group_btree_axioms;

/// A map with voter status information for currently live rounds,
/// which votes have we cast and what are they.
pub type CurrentRounds = BTreeMap<RoundNumber, HasVoted>;

/// The state of the current voter set, whether it is currently active or not
/// and information related to the previously completed rounds. Current round
/// voting status is used when restarting the voter, i.e. it will re-use the
/// previous votes for a given round if appropriate (same round and same local
/// key).
#[derive(Debug, PartialEq)]
pub enum VoterSetState {
    /// The voter is live, i.e. participating in rounds.
    Live {
        /// The previously completed rounds.
        completed_rounds: CompletedRounds,
        /// Voter status for the currently live rounds.
        current_rounds: CurrentRounds,
    },
    /// The voter is paused, i.e. not casting or importing any votes.
    Paused {
        /// The previously completed rounds.
        completed_rounds: CompletedRounds,
    },
}

/// What the state of a voter set holds: the completed rounds, and the live ones while the voter
/// is not paused.
#[verifier::ext_equal]
pub struct VoterSetStateView {
    pub completed: CompletedRoundsView,
    pub current: Option<Map<RoundNumber, HasVoted>>,
}

impl View for VoterSetState {
    type V = VoterSetStateView;

    open spec fn view(&self) -> VoterSetStateView {
        match *self {
            VoterSetState::Live { completed_rounds, current_rounds } => VoterSetStateView {
                completed: completed_rounds@,
                current: Some(current_rounds@),
            },
            VoterSetState::Paused { completed_rounds } => VoterSetStateView {
                completed: completed_rounds@,
                current: None,
            },
        }
    }
}

impl VoterSetStateView {
    /// Whether a round is completed; the genesis always is.
    pub open spec fn has_round(self) -> bool {
        self.completed.rounds.len() > 0
    }

    /// Whether the voter is live and takes part in the round.
    pub open spec fn tracks(self, round: RoundNumber) -> bool {
        self.current matches Some(current) && current.contains_key(round)
    }

    /// What the voter has voted in the round; nothing in a round that it does not take part in.
    pub open spec fn vote_in(self, round: RoundNumber) -> HasVoted {
        if self.tracks(round) {
            self.current->0[round]
        } else {
            HasVoted::No
        }
    }
}

/// The state of a voter set that has just come in: the genesis is completed as round 0, nothing
/// is voted in round 1.
pub open spec fn fresh_state(
    set_id: SetId,
    authority_set: AuthoritySet,
    genesis_state: (BlockHash, BlockNumber),
) -> VoterSetStateView {
    let genesis = (genesis_state.1, genesis_state.0);
    VoterSetStateView {
        completed: CompletedRoundsView {
            rounds: seq![
                CompletedRoundView { number: 0, state: genesis, base: genesis, votes: seq![] },
            ],
            set_id,
            voters: authority_set.current_authorities@,
        },
        current: Some(map![1 => HasVoted::No]),
    }
}

/// What an update leaves in place of the state: what it came to, if it came to anything.
pub open spec fn state_after(
    state: VoterSetStateView,
    outcome: Result<Option<VoterSetState>, VoterError>,
) -> VoterSetStateView {
    match outcome {
        Ok(Some(new_state)) => new_state@,
        _ => state,
    }
}

/// Whether a round is completed in what the update came to, if it came to anything.
pub open spec fn keeps_round(outcome: Result<Option<VoterSetState>, VoterError>) -> bool {
    outcome matches Ok(Some(state)) ==> state@.has_round()
}

/// Whether a highest completed round can be told, if the update came to a live state.
pub open spec fn can_publish(outcome: Result<Option<VoterSetState>, VoterError>) -> bool {
    outcome matches Ok(Some(state)) ==> state is Live ==> state@.has_round()
}

/// What is told of an update: its error; or, if it came to a live state and that is to be
/// published, the highest completed round.
pub open spec fn is_published(
    outcome: Result<Option<VoterSetState>, VoterError>,
    publish: bool,
    published: Result<Option<RoundNumber>, VoterError>,
) -> bool {
    match (outcome, published) {
        (Err(error), Err(told)) => told == error,
        (Ok(Some(state)), Ok(told)) => {
            &&& told is Some <==> publish && state is Live
            &&& told matches Some(highest) ==> state@.completed.is_highest(highest)
        },
        (Ok(None), Ok(told)) => told is None,
        _ => false,
    }
}

impl VoterSetState {
    /// Create a new live VoterSetState with round 0 as a completed round using
    /// the given genesis state and the given authorities. Round 1 is added as a
    /// current round (with state `HasVoted::No`).
    pub fn live(
        set_id: SetId,
        authority_set: &AuthoritySet,
        genesis_state: (BlockHash, BlockNumber),
    ) -> (state: VoterSetState)
        ensures
            state@ == fresh_state(set_id, *authority_set, genesis_state),
            state@.completed.wf(),
            match state {
                VoterSetState::Live { completed_rounds, current_rounds } => {
                    &&& completed_rounds@.set_id == set_id
                    &&& completed_rounds@.voters == authority_set.current_authorities@
                    &&& completed_rounds@.rounds.len() == 1
                    &&& completed_rounds@.rounds[0].number == 0
                    &&& completed_rounds@.rounds[0].state == (genesis_state.1, genesis_state.0)
                    &&& completed_rounds@.rounds[0].base == (genesis_state.1, genesis_state.0)
                    &&& completed_rounds@.rounds[0].votes.len() == 0
                    &&& forall|round: RoundNumber| #[trigger]
                        current_rounds@.contains_key(round) <==> round == 1
                    &&& current_rounds@[1] == HasVoted::No
                },
                VoterSetState::Paused { .. } => false,
            },
    {
        let state = (genesis_state.1, genesis_state.0);
        let completed_rounds = CompletedRounds::new(
            CompletedRound {
                number: 0,
                state,
                base: (genesis_state.1, genesis_state.0),
                votes: Vec::new(),
            },
            set_id,
            authority_set,
        );
        assert(completed_rounds@.rounds =~= fresh_state(
            set_id,
            *authority_set,
            genesis_state,
        ).completed.rounds);
        let mut current_rounds = CurrentRounds::new();
        let _ = current_rounds.insert(1, HasVoted::No);
        assert(current_rounds@ =~= map![1 => HasVoted::No]);
        VoterSetState::Live { completed_rounds, current_rounds }
    }

    /// Returns the last completed rounds.
    pub fn completed_rounds(&self) -> (completed: CompletedRounds)
        ensures
            completed@ == self@.completed,
            match *self {
                VoterSetState::Live { completed_rounds, .. } => completed@ == completed_rounds@,
                VoterSetState::Paused { completed_rounds } => completed@ == completed_rounds@,
            },
    {
        match self {
            VoterSetState::Live { completed_rounds, .. } => completed_rounds.clone(),
            VoterSetState::Paused { completed_rounds } => completed_rounds.clone(),
        }
    }

    /// Returns the last completed round.
    pub fn _last_completed_round(&self) -> (latest: CompletedRound)
        requires
            self@.completed.rounds.len() > 0,
        ensures
            latest@ == self@.completed.rounds[0],
            match *self {
                VoterSetState::Live { completed_rounds, .. } => latest@
                    == completed_rounds@.rounds[0],
                VoterSetState::Paused { completed_rounds } => latest@
                    == completed_rounds@.rounds[0],
            },
    {
        match self {
            VoterSetState::Live { completed_rounds, .. } => completed_rounds.last().clone(),
            VoterSetState::Paused { completed_rounds } => completed_rounds.last().clone(),
        }
    }

    /// Returns the voter set state validating that it includes the given round
    /// in current rounds and that the voter isn't paused.
    pub fn _with_current_round(&self, round: RoundNumber) -> (found: Result<
        (&CompletedRounds, &CurrentRounds),
        VoterError,
    >)
        ensures
            match found {
                Ok((completed, current)) => {
                    &&& self@.tracks(round)
                    &&& completed@ == self@.completed
                    &&& Some(current@) == self@.current
                },
                Err(VoterError::Safety(message)) => {
                    &&& !self@.tracks(round)
                    &&& message@ == if self@.current is Some {
                        "Voter acting on a live round we are not tracking."@
                    } else {
                        "Voter acting while in paused state."@
                    }
                },
                Err(_) => false,
            },
            match *self {
                VoterSetState::Live { completed_rounds, current_rounds } => {
                    &&& found is Ok <==> current_rounds@.contains_key(round)
                    &&& found matches Ok((completed, current)) ==> completed@ == completed_rounds@
                        && current@ == current_rounds@
                },
                VoterSetState::Paused { .. } => found is Err,
            },
    {
        match self {
            VoterSetState::Live { completed_rounds, current_rounds } => {
                if current_rounds.contains_key(&round) {
                    Ok((completed_rounds, current_rounds))
                } else {
                    let msg = "Voter acting on a live round we are not tracking.";
                    Err(VoterError::Safety(msg.to_string()))
                }
            },
            VoterSetState::Paused { .. } => {
                let msg = "Voter acting while in paused state.";
                Err(VoterError::Safety(msg.to_string()))
            },
        }
    }

    /// What the voter has voted in the round.
    pub fn has_voted(&self, round: RoundNumber) -> (has_voted: HasVoted)
        ensures
            has_voted == self@.vote_in(round),
            match *self {
                VoterSetState::Live { current_rounds, .. } => {
                    &&& current_rounds@.contains_key(round) ==> has_voted == current_rounds@[round]
                    &&& !current_rounds@.contains_key(round) ==> has_voted is No
                },
                VoterSetState::Paused { .. } => has_voted is No,
            },
    {
        match self {
            VoterSetState::Live { current_rounds, .. } => match current_rounds.get(&round) {
                Some(has_voted) => *has_voted,
                None => HasVoted::No,
            },
            VoterSetState::Paused { .. } => HasVoted::No,
        }
    }

    /// Takes over the state that an update came to, if it came to one. Tells then, if the voter
    /// is live and `publish` asks for it, the highest completed round.
    pub fn update(
        &mut self,
        outcome: Result<Option<VoterSetState>, VoterError>,
        publish: bool,
    ) -> (published: Result<Option<RoundNumber>, VoterError>)
        requires
            publish ==> can_publish(outcome),
        ensures
            match outcome {
                Ok(Some(state)) => *final(self) == state,
                _ => *final(self) == *old(self),
            },
            is_published(outcome, publish, published),
            match outcome {
                Err(error) => published == Err::<Option<RoundNumber>, VoterError>(error),
                Ok(Some(VoterSetState::Live { completed_rounds, .. })) if publish => {
                    &&& published matches Ok(Some(_))
                    &&& forall|i: int|
                        0 <= i < completed_rounds@.rounds.len() ==> (
                        #[trigger] completed_rounds@.rounds[i]).number <= published->Ok_0->0
                    &&& exists|i: int|
                        0 <= i < completed_rounds@.rounds.len() && (
                        #[trigger] completed_rounds@.rounds[i]).number == published->Ok_0->0
                },
                Ok(_) => published == Ok::<Option<RoundNumber>, VoterError>(None),
            },
    {
        match outcome {
            Ok(Some(state)) => {
                *self = state;
                match self {
                    VoterSetState::Live { completed_rounds, .. } => if publish {
                        Ok(Some(completed_rounds.highest_round()))
                    } else {
                        Ok(None)
                    },
                    VoterSetState::Paused { .. } => Ok(None),
                }
            },
            Ok(None) => Ok(None),
            Err(error) => Err(error),
        }
    }
}

/// A fresh voter set has completed round 0 and nothing else, takes part in round 1 and in no
/// other, and has voted in none.
pub proof fn fresh_state_is_in_round_one(
    set_id: SetId,
    authority_set: AuthoritySet,
    genesis_state: (BlockHash, BlockNumber),
    round: RoundNumber,
)
    ensures
        fresh_state(set_id, authority_set, genesis_state).completed.wf(),
        fresh_state(set_id, authority_set, genesis_state).completed.is_highest(0),
        fresh_state(set_id, authority_set, genesis_state).tracks(round) <==> round == 1,
        fresh_state(set_id, authority_set, genesis_state).vote_in(round) == HasVoted::No,
{
    let fresh = fresh_state(set_id, authority_set, genesis_state);
    assert(fresh.completed.rounds[0].number == 0);
}

/// A fresh voter set is that of the given number, with the authorities that are in charge in their
/// order. It has completed the genesis: round 0 is that block, of which number and hash are both
/// state and base, and nobody voted on it. It is live, in round 1 alone, and has not voted there.
pub proof fn fresh_state_records_genesis_and_voters(
    set_id: SetId,
    authority_set: AuthoritySet,
    hash: BlockHash,
    number: BlockNumber,
)
    ensures
        ({
            let fresh = fresh_state(set_id, authority_set, (hash, number));
            &&& fresh.completed.set_id == set_id
            &&& fresh.completed.voters.len() == authority_set.current_authorities@.len()
            &&& forall|i: int|
                0 <= i < authority_set.current_authorities@.len()
                    ==> #[trigger] fresh.completed.voters[i]
                    == authority_set.current_authorities@[i]
            &&& fresh.completed.rounds.len() == 1
            &&& fresh.completed.rounds[0].number == 0
            &&& fresh.completed.rounds[0].state == (number, hash)
            &&& fresh.completed.rounds[0].base == (number, hash)
            &&& fresh.completed.rounds[0].votes.len() == 0
            &&& fresh.current is Some
            &&& forall|round: RoundNumber| #[trigger]
                fresh.current->0.contains_key(round) <==> round == 1
            &&& fresh.current->0[1] == HasVoted::No
        }),
{
}

/// A live voter has voted in a round what its map says, and takes part in just the rounds of that
/// map; whether it is live or paused, its completed rounds are those that it holds.
pub proof fn state_is_what_it_holds(
    completed_rounds: CompletedRounds,
    current_rounds: CurrentRounds,
    round: RoundNumber,
)
    ensures
        ({
            let live = VoterSetState::Live { completed_rounds, current_rounds };
            let paused = VoterSetState::Paused { completed_rounds };
            &&& live@.completed == completed_rounds@
            &&& paused@.completed == completed_rounds@
            &&& live@.current == Some(current_rounds@)
            &&& paused@.current is None
            &&& live@.tracks(round) <==> current_rounds@.contains_key(round)
            &&& !paused@.tracks(round)
            &&& current_rounds@.contains_key(round) ==> live@.vote_in(round)
                == current_rounds@[round]
            &&& !current_rounds@.contains_key(round) ==> live@.vote_in(round) is No
            &&& paused@.vote_in(round) is No
            &&& live@.has_round() <==> completed_rounds@.rounds.len() != 0
            &&& paused@.has_round() <==> completed_rounds@.rounds.len() != 0
        }),
{
}

/// An update leaves what it came to; if it came to nothing or failed, it leaves what it found.
pub proof fn update_leaves_what_it_came_to(
    found: VoterSetStateView,
    state: VoterSetState,
    error: VoterError,
)
    ensures
        state_after(found, Ok(Some(state))) == state@,
        state_after(found, Ok(None)) == found,
        state_after(found, Err(error)) == found,
{
}

/// What is told of an update is fixed, up to the state that it came to: its own error; the
/// highest completed round if the voter is live and that is to be published; nothing otherwise.
pub proof fn told_of_an_update(
    completed_rounds: CompletedRounds,
    current_rounds: CurrentRounds,
    error: VoterError,
    publish: bool,
    told: Result<Option<RoundNumber>, VoterError>,
)
    ensures
        ({
            let live = VoterSetState::Live { completed_rounds, current_rounds };
            let paused = VoterSetState::Paused { completed_rounds };
            let rounds = completed_rounds@.rounds;
            let nothing = Ok::<Option<RoundNumber>, VoterError>(None);
            &&& is_published(Err(error), publish, told) <==> told == Err::<
                Option<RoundNumber>,
                VoterError,
            >(error)
            &&& is_published(Ok(None), publish, told) <==> told == nothing
            &&& is_published(Ok(Some(paused)), publish, told) <==> told == nothing
            &&& is_published(Ok(Some(live)), false, told) <==> told == nothing
            &&& is_published(Ok(Some(live)), true, told) <==> {
                &&& told matches Ok(Some(_))
                &&& exists|i: int|
                    0 <= i < rounds.len() && (#[trigger] rounds[i]).number == told->Ok_0->0
                &&& forall|i: int|
                    0 <= i < rounds.len() ==> (#[trigger] rounds[i]).number <= told->Ok_0->0
            }
        }),
{
}

/// A highest round can be told of every update but one to a live state without completed rounds;
/// and a round is kept by every update but one to a state without any.
pub proof fn only_states_without_rounds_are_ruled_out(
    completed_rounds: CompletedRounds,
    current_rounds: CurrentRounds,
    error: VoterError,
)
    ensures
        ({
            let live = VoterSetState::Live { completed_rounds, current_rounds };
            let paused = VoterSetState::Paused { completed_rounds };
            let some = completed_rounds@.rounds.len() != 0;
            &&& can_publish(Err(error)) && can_publish(Ok(None)) && can_publish(Ok(Some(paused)))
            &&& can_publish(Ok(Some(live))) <==> some
            &&& keeps_round(Err(error)) && keeps_round(Ok(None))
            &&& keeps_round(Ok(Some(live))) <==> some
            &&& keeps_round(Ok(Some(paused))) <==> some
        }),
{
}

/// A paused voter takes part in no round, and no vote of it is to be repeated.
pub proof fn paused_voter_is_in_no_round(state: VoterSetState, round: RoundNumber)
    requires
        state is Paused,
    ensures
        !state@.tracks(round),
        state@.vote_in(round) == HasVoted::No,
{
}

} // verus!
