//! The environment that the voter runs in: what it does at the start of a round, when it is its
//! turn to propose, and when a block is to be finalized.
use crate::finality::{finalize_block, Finalization, FinalizedCommit, JustificationOrCommit, Phase};
use crate::primitives::{
    same_bytes, AuthorityId, AuthorityList, BlockHash, BlockNumber, EngineId, RoundNumber, SetId,
    VoterError,
};
use crate::shared::{is_section, section_at, SharedVoterSetState};
use crate::target::{next_target, TargetSearch};
use crate::vote::{HasVoted, Vote};
use crate::voter_state::{
    can_publish, is_published, keeps_round, state_after, VoterSetState, VoterSetStateView,
};
use vstd::prelude::*;

verus! {

/// The environment that the voter runs in.
pub struct Environment {
    /// Under which id justifications are stored.
    pub engine_id: EngineId,
    /// The voters of the set that the voter was started with.
    pub voters: AuthorityList,
    /// The number of the voter set that the voter was started with.
    pub set_id: SetId,
    /// After how many blocks a justification is stored.
    pub justification_period: u32,
    /// Whether anyone wants to know of the highest completed round.
    pub has_metrics: bool,
    pub voter_set_state: SharedVoterSetState,
}

/// What is known of the voter when it starts.
#[derive(Clone, Copy, Debug, PartialEq, Eq)]
pub struct VoterData {
    /// The id of the local voter.
    pub local_id: AuthorityId,
}

/// With what the voter enters a round: the id of the local voter, and what the network is given
/// to join the round.
#[derive(Clone, Copy, Debug, PartialEq)]
pub struct RoundData<'a> {
    /// The id of the local voter.
    pub local_id: AuthorityId,
    /// Under which id messages are signed, if there is a key to sign with.
    pub signer: Option<AuthorityId>,
    pub round: RoundNumber,
    /// The number of the voter set.
    pub set_id: SetId,
    /// The voters of the set.
    pub voters: &'a AuthorityList,
    /// The votes of a prior run that are to be repeated.
    pub has_voted: HasVoted,
}

/// A block that the voters have come to finalize.
#[derive(Debug, PartialEq, Eq)]
pub struct BlockFinalizationData {
    pub target_hash: BlockHash,
    pub target_number: BlockNumber,
    pub round: RoundNumber,
    pub commits: FinalizedCommit,
}

/// The votes of a prior run that are to be repeated: only those of the local voter.
pub open spec fn repeatable(has_voted: HasVoted, local_id: Option<AuthorityId>) -> HasVoted {
    match has_voted {
        HasVoted::Yes(id, _) => if local_id == Some(id) {
            has_voted
        } else {
            HasVoted::No
        },
        HasVoted::No => HasVoted::No,
    }
}

/// The votes of a prior run that are to be repeated: only those of the local voter.
pub fn repeatable_vote(has_voted: HasVoted, local_id: &Option<AuthorityId>) -> (repeated: HasVoted)
    ensures
        repeated == repeatable(has_voted, *local_id),
        match has_voted {
            HasVoted::Yes(id, _) if *local_id == Some(id) => repeated == has_voted,
            _ => repeated is No,
        },
{
    match (has_voted, local_id) {
        (HasVoted::Yes(id, vote), Some(local_id)) => if same_bytes(local_id, &id) {
            HasVoted::Yes(id, vote)
        } else {
            HasVoted::No
        },
        _ => HasVoted::No,
    }
}

impl Environment {
    /// With what the voter enters a round, given what it has voted in it before. Messages are
    /// signed only if there is a keystore to sign with.
    pub open spec fn entry(
        &self,
        round: RoundNumber,
        has_voted: HasVoted,
        local_id: AuthorityId,
        has_keystore: bool,
    ) -> RoundData<'_> {
        RoundData {
            local_id,
            signer: if has_keystore {
                Some(local_id)
            } else {
                None
            },
            round,
            set_id: self.set_id,
            voters: &self.voters,
            has_voted: repeatable(has_voted, Some(local_id)),
        }
    }

    /// With what the voter enters a round, given what it has voted in it before.
    pub fn enter_round(
        &self,
        round: RoundNumber,
        has_voted: HasVoted,
        local_id: AuthorityId,
        has_keystore: bool,
    ) -> (data: RoundData<'_>)
        ensures
            data == self.entry(round, has_voted, local_id, has_keystore),
            data.local_id == local_id,
            data.signer == if has_keystore {
                Some(local_id)
            } else {
                None
            },
            data.round == round,
            data.set_id == self.set_id,
            data.voters@ == self.voters@,
            match has_voted {
                HasVoted::Yes(id, _) if id == local_id => data.has_voted == has_voted,
                _ => data.has_voted is No,
            },
    {
        RoundData {
            local_id,
            signer: if has_keystore {
                Some(local_id)
            } else {
                None
            },
            round,
            set_id: self.set_id,
            voters: &self.voters,
            has_voted: repeatable_vote(has_voted, &Some(local_id)),
        }
    }

    /// Updates the voter set state using the given closure. The write lock is
    /// held during evaluation of the closure and the environment's voter set
    /// state is set to its result if successful. Tells the highest completed round if that is
    /// to be published.
    ///
    /// The closure must not come back to the shared state, through this environment or another
    /// owner: it would wait for itself. Nor may it take the last completed round away: there is
    /// always one (genesis).
    pub fn update_voter_set_state<F>(&self, f: F) -> (published: Result<
        Option<RoundNumber>,
        VoterError,
    >) where F: FnOnce(&VoterSetState) -> Result<Option<VoterSetState>, VoterError>
        requires
            forall|state: &VoterSetState|
                self.voter_set_state.states().contains(state@) ==> #[trigger] call_requires(
                    f,
                    (state,),
                ),
            forall|state: &VoterSetState, outcome: Result<Option<VoterSetState>, VoterError>|
                self.voter_set_state.states().contains(state@) && #[trigger] call_ensures(
                    f,
                    (state,),
                    outcome,
                ) ==> {
                    &&& state@.has_round() ==> keeps_round(outcome)
                    &&& self.has_metrics ==> can_publish(outcome)
                },
        ensures
            exists|
                state: &VoterSetState,
                outcome: Result<Option<VoterSetState>, VoterError>,
            | #[trigger]
                call_ensures(f, (state,), outcome) && is_published(
                    outcome,
                    self.has_metrics,
                    published,
                ) && is_section(
                    self.voter_set_state.states(),
                    state@,
                    state_after(state@, outcome),
                ),
    {
        let publish = self.has_metrics;
        let ghost states = self.voter_set_state.states();
        let update = |state: &mut VoterSetState| -> (published: Result<
            Option<RoundNumber>,
            VoterError,
        >)
            requires
                states.contains(old(state)@),
            ensures
                exists|outcome: Result<Option<VoterSetState>, VoterError>| #[trigger]
                    call_ensures(f, (&*old(state),), outcome) && is_published(
                        outcome,
                        publish,
                        published,
                    ) && *final(state) == match outcome {
                        Ok(Some(new_state)) => new_state,
                        _ => *old(state),
                    }
            {
                let outcome = f(&*state);
                state.update(outcome, publish)
            };
        self.voter_set_state.with(update)
    }

    /// Starts the voter, which has to have a local id.
    pub fn init_voter(&self, local_id: Option<AuthorityId>) -> (data: VoterData)
        requires
            local_id is Some,
        ensures
            Some(data.local_id) == local_id,
    {
        VoterData { local_id: local_id.unwrap() }
    }

    /// Enters a round under the local id, and notes that we vote on it. The votes of a prior
    /// run are repeated if the local voter cast them in this round.
    ///
    /// The local id is read before the call and kept for the whole round: the keys in the
    /// keystore can change while the round goes on, and the voter must not.
    pub fn init_round(
        &self,
        round: RoundNumber,
        local_id: Option<AuthorityId>,
        has_keystore: bool,
    ) -> (data: RoundData<'_>)
        requires
            local_id is Some,
        ensures
            data.local_id == local_id->0,
            data.signer == if has_keystore {
                local_id
            } else {
                None
            },
            data.round == round,
            data.set_id == self.set_id,
            data.voters@ == self.voters@,
            data.has_voted matches HasVoted::Yes(id, _) ==> id == local_id->0,
            exists|state: VoterSetStateView| #[trigger]
                self.voter_set_state.states().contains(state) && data == self.entry(
                    round,
                    state.vote_in(round),
                    local_id->0,
                    has_keystore,
                ),
            exists|tracker: Map<RoundNumber, AuthorityId>| #[trigger]
                is_section(
                    self.voter_set_state.trackers(),
                    tracker,
                    tracker.insert(round, local_id->0),
                ),
    {
        let id = local_id.unwrap();
        let has_voted = self.voter_set_state.has_voted(round);
        self.voter_set_state.started_voting_on(round, id);
        self.enter_round(round, has_voted, id, has_keystore)
    }

    /// Starts the search for a block to propose on top of the given one. There is nothing to
    /// propose if the authority set has moved on since the voter was started: the voter is told
    /// of that later, and must not vote in the meantime.
    pub fn propose(
        &self,
        _round: RoundNumber,
        block: BlockHash,
        current_set_id: SetId,
    ) -> (search: TargetSearch)
        ensures
            search == if self.set_id == current_set_id {
                TargetSearch::Base { block }
            } else {
                TargetSearch::Finished { found: Ok(None) }
            },
    {
        if self.set_id != current_set_id {
            TargetSearch::Finished { found: Ok(None) }
        } else {
            next_target(block)
        }
    }

    /// Starts the finalization of a block that the voters have come to finalize.
    pub fn finalize_block(&self, data: BlockFinalizationData) -> (finalization: Finalization)
        ensures
            finalization == (Finalization {
                engine_id: self.engine_id,
                hash: data.target_hash,
                number: data.target_number,
                justification_period: Some(self.justification_period as BlockNumber),
                initial_sync: false,
                phase: Phase::Status {
                    source: JustificationOrCommit::Commit((data.round, data.commits)),
                },
            }),
    {
        finalize_block(
            self.engine_id,
            data.target_hash,
            data.target_number,
            Some(self.justification_period as BlockNumber),
            JustificationOrCommit::from((data.round, data.commits)),
            false,
        )
    }
}

/// Two updates of a shared state, with no other change of it (so that it holds three states in
/// all), come one after the other in some order, and none is lost: the second closure is given
/// what the first came to, and the state in the end is what the second came to.
pub proof fn no_update_is_lost(
    states: Seq<VoterSetStateView>,
    one: int,
    given_to_one: VoterSetStateView,
    outcome_of_one: Result<Option<VoterSetState>, VoterError>,
    other: int,
    given_to_other: VoterSetStateView,
    outcome_of_other: Result<Option<VoterSetState>, VoterError>,
)
    requires
        one != other,
        section_at(states, one, given_to_one, state_after(given_to_one, outcome_of_one)),
        section_at(states, other, given_to_other, state_after(given_to_other, outcome_of_other)),
        states.len() == 3,
    ensures
        ({
            let after_one = state_after(given_to_one, outcome_of_one);
            let after_other = state_after(given_to_other, outcome_of_other);
            ||| {
                &&& given_to_one == states.first()
                &&& given_to_other == after_one
                &&& states.last() == after_other
            }
            ||| {
                &&& given_to_other == states.first()
                &&& given_to_one == after_other
                &&& states.last() == after_one
            }
        }),
{
}

/// The voter enters a round with the vote that its state holds for the round, of whatever kind, if
/// that was cast under the local id, and with none otherwise; under the local id, which signs if
/// there is a keystore; in the given round, with the number and the voters of its set.
pub proof fn voter_enters_with_its_own_vote(
    env: &Environment,
    state: VoterSetState,
    round: RoundNumber,
    local_id: AuthorityId,
    has_keystore: bool,
    vote: Vote,
)
    ensures
        ({
            let data = env.entry(round, state@.vote_in(round), local_id, has_keystore);
            &&& data.has_voted == HasVoted::Yes(local_id, vote) <==> {
                &&& state matches VoterSetState::Live { current_rounds, .. }
                &&& current_rounds@.contains_key(round)
                &&& current_rounds@[round] == HasVoted::Yes(local_id, vote)
            }
            &&& data.has_voted matches HasVoted::Yes(id, _) ==> id == local_id
            &&& data.local_id == local_id
            &&& data.signer is Some <==> has_keystore
            &&& data.signer matches Some(signer) ==> signer == local_id
            &&& data.round == round
            &&& data.set_id == env.set_id
            &&& data.voters@ == env.voters@
        }),
{
}

/// A vote of a prior run is repeated, whole and of whatever kind, just by the voter who cast it.
pub proof fn vote_is_repeated_by_its_voter(
    env: &Environment,
    round: RoundNumber,
    id: AuthorityId,
    vote: Vote,
    local_id: AuthorityId,
    has_keystore: bool,
)
    ensures
        ({
            let cast = HasVoted::Yes(id, vote);
            &&& repeatable(cast, Some(id)) == cast
            &&& local_id != id ==> repeatable(cast, Some(local_id)) is No
            &&& repeatable(cast, None) is No
            &&& repeatable(HasVoted::No, Some(local_id)) is No
            &&& repeatable(HasVoted::No, None) is No
            &&& env.entry(round, cast, id, has_keystore).has_voted == cast
            &&& local_id != id ==> env.entry(round, cast, local_id, has_keystore).has_voted is No
            &&& env.entry(round, HasVoted::No, local_id, has_keystore).has_voted is No
        }),
{
}

/// On a restart the voter enters a round with a vote just if it takes part in that round and
/// cast that vote in it under its local id; a voter without a local id enters with none.
pub proof fn restart_repeats_own_votes(
    state: VoterSetState,
    round: RoundNumber,
    local_id: Option<AuthorityId>,
    id: AuthorityId,
    vote: Vote,
)
    ensures
        repeatable(state@.vote_in(round), local_id) == HasVoted::Yes(id, vote) <==> {
            &&& local_id == Some(id)
            &&& state@.tracks(round)
            &&& state@.current->0[round] == HasVoted::Yes(id, vote)
        },
        local_id is None ==> repeatable(state@.vote_in(round), local_id) is No,
{
}

} // verus!
