//! The state of the voter set as several owners share it.
use crate::locks::{
    lock_state, lock_tracker, read_state, read_tracker, state_course, tracker_course, write_state,
    write_tracker,
};
use crate::primitives::{AuthorityId, RoundNumber};
use crate::vote::HasVoted;
use crate::voter_state::{VoterSetState, VoterSetStateView};
use std::collections::HashMap;
use std::sync::Arc;
use vstd::prelude::*;

verus! {

broadcast use vstd::std_specs::hash::group_hash_axioms;

/// A tracker for the rounds that we are actively participating on (i.e. voting)
/// and the authority id under which we are doing it.
pub struct VotingTracker {
    rounds: HashMap<RoundNumber, AuthorityId>,
}

impl View for VotingTracker {
    type V = Map<RoundNumber, AuthorityId>;

    closed spec fn view(&self) -> Map<RoundNumber, AuthorityId> {
        self.rounds@
    }
}

/// The id under which the round is voted on, if any.
pub open spec fn id_in(tracker: Map<RoundNumber, AuthorityId>, round: RoundNumber) -> Option<
    AuthorityId,
> {
    if tracker.contains_key(round) {
        Some(tracker[round])
    } else {
        None
    }
}

impl VotingTracker {
    /// A tracker of no rounds.
    pub fn new() -> (tracker: Self)
        ensures
            tracker@ == Map::<RoundNumber, AuthorityId>::empty(),
    {
        VotingTracker { rounds: HashMap::new() }
    }

    /// Get the authority id that we are using to vote on the given round, if any.
    pub fn voting_on(&self, round: RoundNumber) -> (id: Option<AuthorityId>)
        ensures
            id == id_in(self@, round),
    {
        match self.rounds.get(&round) {
            Some(id) => Some(*id),
            None => None,
        }
    }

    /// Note that we started voting on the give round with the given authority id.
    pub fn started_voting_on(&mut self, round: RoundNumber, local_id: AuthorityId)
        ensures
            final(self)@ == old(self)@.insert(round, local_id),
    {
        let _ = self.rounds.insert(round, local_id);
    }

    /// Note that we have finished voting on the given round. If we were voting on
    /// the given round, the authority id that we were using to do it will be
    /// cleared.
    pub fn finished_voting_on(&mut self, round: RoundNumber)
        ensures
            final(self)@ == old(self)@.remove(round),
    {
        let _ = self.rounds.remove(&round);
    }
}

/// Whoever starts voting on a round votes on it under the given id until it is finished; other
/// rounds are left alone.
pub proof fn voting_lasts_until_finished(
    tracker: Map<RoundNumber, AuthorityId>,
    round: RoundNumber,
    local_id: AuthorityId,
    other: RoundNumber,
)
    requires
        other != round,
    ensures
        id_in(tracker.insert(round, local_id), round) == Some(local_id),
        id_in(tracker.remove(round), round) is None,
        id_in(tracker.insert(round, local_id), other) == id_in(tracker, other),
        id_in(tracker.remove(round), other) == id_in(tracker, other),
        id_in(tracker, round) is None ==> tracker.insert(round, local_id).remove(round) == tracker,
{
    if id_in(tracker, round) is None {
        assert(tracker.insert(round, local_id).remove(round) =~= tracker);
    }
}

/// Whether a write section stands at the place in the course of a shared value: it finds the one
/// value there and leaves the other as the next.
pub open spec fn section_at<V>(course: Seq<V>, place: int, found: V, left: V) -> bool {
    &&& 0 <= place
    &&& place + 1 < course.len()
    &&& course[place] == found
    &&& course[place + 1] == left
}

/// Whether a write section in the course of a shared value finds the one value and leaves the
/// other.
pub open spec fn is_section<V>(course: Seq<V>, found: V, left: V) -> bool {
    exists|place: int| #[trigger] section_at(course, place, found, left)
}

/// A write section is two neighbours in the course, so that both of its values are in the course,
/// and each value but the first is left by a section that finds the one before it.
pub proof fn sections_are_neighbours<V>(course: Seq<V>, place: int, found: V, left: V)
    ensures
        section_at(course, place, found, left) <==> {
            &&& 0 <= place < course.len() - 1
            &&& found == course[place]
            &&& left == course[place + 1]
        },
        is_section(course, found, left) ==> course.contains(found) && course.contains(left),
        0 < place < course.len() ==> is_section(course, course[place - 1], course[place]),
{
    if 0 < place < course.len() {
        assert(section_at(course, place - 1, course[place - 1], course[place]));
    }
    if is_section(course, found, left) {
        let at = choose|at: int| #[trigger] section_at(course, at, found, left);
        assert(course[at] == found && course[at + 1] == left);
    }
}

/// A round is completed in each of some states just if there is no state among them without one.
pub proof fn every_state_has_a_round(states: Seq<VoterSetStateView>, i: int)
    requires
        0 <= i < states.len(),
    ensures
        all_have_round(states) ==> states[i].completed.rounds.len() != 0,
        !all_have_round(states) ==> exists|j: int|
            0 <= j < states.len() && (#[trigger] states[j]).completed.rounds.len() == 0,
{
    assert(states.contains(states[i]));
    if !all_have_round(states) {
        let state = choose|state: VoterSetStateView| #[trigger]
            states.contains(state) && !state.has_round();
        let j = choose|j: int| 0 <= j < states.len() && states[j] == state;
        assert(states[j].completed.rounds.len() == 0);
    }
}

/// The changes of a shared value come one after another, and none is lost: a later one finds what
/// an earlier one left, or what the changes between the two have made of that, each of which
/// finds what the one before it left.
pub proof fn changes_come_one_after_another<V>(
    course: Seq<V>,
    earlier: int,
    found: V,
    left: V,
    later: int,
    found_later: V,
    left_later: V,
)
    requires
        section_at(course, earlier, found, left),
        section_at(course, later, found_later, left_later),
        earlier < later,
    ensures
        later == earlier + 1 ==> found_later == left,
        section_at(course, earlier + 1, left, course[earlier + 2]),
        section_at(course, later - 1, course[later - 1], found_later),
        forall|place: int|
            earlier <= place <= later ==> #[trigger] section_at(
                course,
                place,
                course[place],
                course[place + 1],
            ),
{
}

/// Whether a round is completed in each of the states.
pub open spec fn all_have_round(states: Seq<VoterSetStateView>) -> bool {
    forall|state: VoterSetStateView| #[trigger] states.contains(state) ==> state.has_round()
}

/// A voter set state meant to be shared safely across multiple owners.
///
/// Other owners can change state and tracker between any two calls. So each contract here says
/// what a call makes of one of the values in the course of the shared one, and what it leaves as
/// the next; which one it finds depends on what was written last.
///
/// Where a round is completed in the state to begin with, one is in all that are ever shared.
pub struct SharedVoterSetState {
    /// The inner shared `VoterSetState`.
    inner: Arc<parking_lot::RwLock<VoterSetState>>,
    /// A tracker for the rounds that we are actively participating on (i.e. voting)
    /// and the authority id under which we are doing it.
    voting: Arc<parking_lot::RwLock<VotingTracker>>,
}

impl Clone for SharedVoterSetState {
    /// Another owner of the same state and the same tracker.
    fn clone(&self) -> (other: Self)
        ensures
            other == *self,
    {
        SharedVoterSetState { inner: self.inner.clone(), voting: self.voting.clone() }
    }
}

impl SharedVoterSetState {
    /// The states that are shared here, one after the other: the first, and then what each change
    /// leaves.
    pub closed spec fn states(self) -> Seq<VoterSetStateView> {
        state_course(*self.inner)
    }

    /// Whether a round is completed in all states that are ever shared here.
    pub open spec fn always_has_round(self) -> bool {
        all_have_round(self.states())
    }

    /// The trackers that are shared here, one after the other: the first, and then what each
    /// change leaves.
    pub closed spec fn trackers(self) -> Seq<Map<RoundNumber, AuthorityId>> {
        tracker_course(*self.voting)
    }

    /// Create a new shared voter set tracker with the given state.
    pub fn new(set_state: VoterSetState) -> (shared: Self)
        ensures
            shared.states().len() > 0,
            shared.states()[0] == set_state@,
            set_state@.has_round() ==> shared.always_has_round(),
            shared.trackers().len() > 0,
            shared.trackers()[0] == Map::<RoundNumber, AuthorityId>::empty(),
    {
        SharedVoterSetState {
            inner: Arc::new(lock_state(set_state)),
            voting: Arc::new(lock_tracker(VotingTracker::new())),
        }
    }

    /// Read the inner voter set state. The read lock is held while `f` runs, so `f` must not come
    /// back to this state or to another owner of it: it could wait for itself.
    pub fn read<F, U>(&self, f: F) -> (result: U) where F: FnOnce(&VoterSetState) -> U
        requires
            forall|state: &VoterSetState|
                self.states().contains(state@) ==> #[trigger] call_requires(f, (state,)),
        ensures
            exists|state: &VoterSetState| #[trigger]
                call_ensures(f, (state,), result) && self.states().contains(state@),
    {
        read_state(&self.inner, f)
    }

    /// Get the authority id that we are using to vote on the given round, if any.
    pub fn _voting_on(&self, round: RoundNumber) -> (id: Option<AuthorityId>)
        ensures
            exists|tracker: Map<RoundNumber, AuthorityId>| #[trigger]
                self.trackers().contains(tracker) && id == id_in(tracker, round),
    {
        assert(self.trackers() == tracker_course(*self.voting));
        read_tracker(
            &self.voting,
            |tracker: &VotingTracker| -> (id: Option<AuthorityId>)
                ensures
                    id == id_in(tracker@, round)
                { tracker.voting_on(round) },
        )
    }

    /// Note that we started voting on the give round with the given authority id.
    pub fn started_voting_on(&self, round: RoundNumber, local_id: AuthorityId)
        ensures
            exists|tracker: Map<RoundNumber, AuthorityId>| #[trigger]
                is_section(
                    self.trackers(),
                    tracker,
                    tracker.insert(round, local_id),
                ),
    {
        assert(self.trackers() == tracker_course(*self.voting));
        write_tracker(
            &self.voting,
            |tracker: &mut VotingTracker|
                ensures
                    final(tracker)@ == old(tracker)@.insert(round, local_id)
                { tracker.started_voting_on(round, local_id) },
        )
    }

    /// Note that we have finished voting on the given round. If we were voting on
    /// the given round, the authority id that we were using to do it will be
    /// cleared.
    pub fn _finished_voting_on(&self, round: RoundNumber)
        ensures
            exists|tracker: Map<RoundNumber, AuthorityId>| #[trigger]
                is_section(
                    self.trackers(),
                    tracker,
                    tracker.remove(round),
                ),
    {
        assert(self.trackers() == tracker_course(*self.voting));
        write_tracker(
            &self.voting,
            |tracker: &mut VotingTracker|
                ensures
                    final(tracker)@ == old(tracker)@.remove(round)
                { tracker.finished_voting_on(round) },
        )
    }

    /// Return vote status information for the current round.
    pub fn has_voted(&self, round: RoundNumber) -> (has_voted: HasVoted)
        ensures
            exists|state: VoterSetStateView| #[trigger]
                self.states().contains(state) && has_voted == state.vote_in(round),
    {
        assert(self.states() == state_course(*self.inner));
        read_state(
            &self.inner,
            |state: &VoterSetState| -> (has_voted: HasVoted)
                ensures
                    has_voted == state@.vote_in(round)
                { state.has_voted(round) },
        )
    }

    /// Runs `f` on the state while no one else can read or write it; `f` must not take the last
    /// completed round away. Owners elsewhere change the state only through the environment.
    pub(crate) fn with<F, U>(&self, f: F) -> (result: U) where F: FnOnce(&mut VoterSetState) -> U
        requires
            forall|state: &mut VoterSetState|
                self.states().contains(state@) ==> #[trigger] call_requires(f, (state,)),
            forall|state: &mut VoterSetState, result: U|
                self.states().contains(state@) && state@.has_round() && #[trigger] call_ensures(
                    f,
                    (state,),
                    result,
                ) ==> final(state)@.has_round(),
        ensures
            exists|state: &mut VoterSetState| #[trigger]
                call_ensures(f, (state,), result) && is_section(
                    self.states(),
                    state@,
                    final(state)@,
                ),
    {
        write_state(&self.inner, f)
    }
}

impl From<VoterSetState> for SharedVoterSetState {
    fn from(set_state: VoterSetState) -> (shared: Self)
        ensures
            shared.states().len() > 0,
            shared.states()[0] == set_state@,
            set_state@.has_round() ==> shared.always_has_round(),
            shared.trackers().len() > 0,
            shared.trackers()[0] == Map::<RoundNumber, AuthorityId>::empty(),
    {
        SharedVoterSetState::new(set_state)
    }
}

impl vstd::std_specs::convert::FromSpecImpl<VoterSetState> for SharedVoterSetState {
    open spec fn obeys_from_spec() -> bool {
        false
    }

    open spec fn from_spec(set_state: VoterSetState) -> Self {
        arbitrary()
    }
}

} // verus!
