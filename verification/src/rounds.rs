//! The last rounds that a voter set has completed.
use crate::codec::{
    decode_parts, encode_parts, round_tuples, scale_decoding, scale_encoding, RoundParts,
    RoundTuple, VoteParts,
};
use crate::primitives::{
    copy_authorities, AuthorityId, AuthoritySet, BlockHash, BlockNumber, Precommit, RoundNumber,
    SetId, SignedCommit, VoterError,
};
use vstd::prelude::*;

verus! {

/// How many completed rounds are kept.
pub const NUM_LAST_COMPLETED_VIEWS: usize = 2;

/// Data about a completed round. The set of votes that is stored must be
/// minimal, i.e. at most one equivocation is stored per voter.
#[derive(Debug, PartialEq)]
pub struct CompletedRound {
    /// The round number.
    pub number: RoundNumber,
    /// The round state (prevote ghost, estimate, finalized, etc.)
    pub state: (BlockNumber, BlockHash),
    /// The target block base used for voting in the round.
    pub base: (BlockNumber, BlockHash),
    /// All the votes observed in the round.
    pub votes: Vec<SignedCommit>,
}

/// What a completed round holds.
#[verifier::ext_equal]
pub struct CompletedRoundView {
    pub number: RoundNumber,
    pub state: (BlockNumber, BlockHash),
    pub base: (BlockNumber, BlockHash),
    pub votes: Seq<SignedCommit>,
}

impl View for CompletedRound {
    type V = CompletedRoundView;

    open spec fn view(&self) -> CompletedRoundView {
        CompletedRoundView {
            number: self.number,
            state: self.state,
            base: self.base,
            votes: self.votes@,
        }
    }
}

impl Clone for CompletedRound {
    fn clone(&self) -> (copy: Self)
        ensures
            copy@ == self@,
    {
        let votes = self.votes.clone();
        assert(votes@ =~= self.votes@);
        CompletedRound { number: self.number, state: self.state, base: self.base, votes }
    }
}

/// Data about last completed rounds within a single voter set. Stores
/// [`NUM_LAST_COMPLETED_VIEWS`] and always contains data about at least one round
/// (genesis).
#[derive(Debug, PartialEq)]
pub struct CompletedRounds {
    rounds: Vec<CompletedRound>,
    set_id: SetId,
    voters: Vec<AuthorityId>,
}

/// What a record of completed rounds holds: the rounds, latest first, and the voter set.
#[verifier::ext_equal]
pub struct CompletedRoundsView {
    pub rounds: Seq<CompletedRoundView>,
    pub set_id: SetId,
    pub voters: Seq<AuthorityId>,
}

/// What the rounds of a sequence hold.
pub open spec fn round_views(rounds: Seq<CompletedRound>) -> Seq<CompletedRoundView> {
    rounds.map_values(|round: CompletedRound| round@)
}

impl View for CompletedRounds {
    type V = CompletedRoundsView;

    closed spec fn view(&self) -> CompletedRoundsView {
        CompletedRoundsView {
            rounds: round_views(self.rounds@),
            set_id: self.set_id,
            voters: self.voters@,
        }
    }
}

impl Clone for CompletedRounds {
    fn clone(&self) -> (copy: Self)
        ensures
            copy@ == self@,
    {
        let rounds = self.rounds.clone();
        let voters = copy_authorities(self.voters.as_slice());
        assert(round_views(rounds@) =~= round_views(self.rounds@)) by {
            assert forall|i: int| 0 <= i < rounds@.len() implies rounds@[i]@
                == self.rounds@[i]@ by {
                assert(cloned(self.rounds@[i], rounds@[i]));
            }
        }
        CompletedRounds { rounds, set_id: self.set_id, voters }
    }
}

/// Whether the rounds stand from the latest to the oldest, each number once.
pub open spec fn latest_first(rounds: Seq<CompletedRoundView>) -> bool {
    forall|i: int, j: int|
        0 <= i < j < rounds.len() ==> (#[trigger] rounds[i]).number > (#[trigger] rounds[j]).number
}

/// How many rounds at the start of the sequence are later than the given one: where that one
/// belongs among rounds that stand latest first.
pub open spec fn place_of(rounds: Seq<CompletedRoundView>, number: RoundNumber) -> int
    decreases rounds.len(),
{
    if rounds.len() == 0 || rounds[0].number <= number {
        0
    } else {
        1 + place_of(rounds.drop_first(), number)
    }
}

/// The rounds with one more put in its place, instead of the one with the same number if there
/// is one.
pub open spec fn filed(
    rounds: Seq<CompletedRoundView>,
    round: CompletedRoundView,
) -> Seq<CompletedRoundView> {
    let place = place_of(rounds, round.number);
    if place < rounds.len() && rounds[place].number == round.number {
        rounds.update(place, round)
    } else {
        rounds.insert(place, round)
    }
}

impl CompletedRoundsView {
    /// At least one round, no more than are to be kept, the latest first.
    pub open spec fn wf(self) -> bool {
        &&& 1 <= self.rounds.len() <= NUM_LAST_COMPLETED_VIEWS
        &&& latest_first(self.rounds)
    }

    /// Whether the number is that of a completed round, and none has a higher one.
    pub open spec fn is_highest(self, number: RoundNumber) -> bool {
        &&& exists|i: int|
            0 <= i < self.rounds.len() && (#[trigger] self.rounds[i]).number == number
        &&& forall|i: int|
            0 <= i < self.rounds.len() ==> (#[trigger] self.rounds[i]).number <= number
    }

    /// The rounds as tuples.
    pub open spec fn tuples(self) -> Seq<RoundTuple> {
        self.rounds.map_values(|round: CompletedRoundView| round_to_tuple(round))
    }

    /// The bytes that the record is stored as.
    pub open spec fn encoding(self) -> Seq<u8> {
        scale_encoding(self.tuples(), self.set_id, self.voters)
    }

    /// Whether no list in the record has more items than an encoding can count.
    pub open spec fn is_encodable(self) -> bool {
        &&& self.rounds.len() <= u32::MAX
        &&& self.voters.len() <= u32::MAX
        &&& forall|i: int|
            0 <= i < self.rounds.len() ==> (#[trigger] self.rounds[i]).votes.len() <= u32::MAX
    }

    /// The record with one more round: that round is filed, and the last in the row gives way
    /// if there are then too many.
    pub open spec fn with_round(self, round: CompletedRoundView) -> CompletedRoundsView {
        let rounds = filed(self.rounds, round);
        CompletedRoundsView {
            rounds: if rounds.len() > NUM_LAST_COMPLETED_VIEWS {
                rounds.drop_last()
            } else {
                rounds
            },
            ..self
        }
    }
}

/// A signed precommit as a tuple.
pub open spec fn vote_to_tuple(vote: SignedCommit) -> VoteParts {
    (
        (vote.precommit.target_height, vote.precommit.target_hash, vote.precommit.round),
        vote.signature,
        vote.id,
    )
}

/// The signed precommit that a tuple stands for.
pub open spec fn vote_of_tuple(parts: VoteParts) -> SignedCommit {
    SignedCommit {
        precommit: Precommit {
            target_height: parts.0.0,
            target_hash: parts.0.1,
            round: parts.0.2,
        },
        signature: parts.1,
        id: parts.2,
    }
}

/// A completed round as a tuple.
pub open spec fn round_to_tuple(round: CompletedRoundView) -> RoundTuple {
    (
        round.number,
        round.state,
        round.base,
        round.votes.map_values(|vote: SignedCommit| vote_to_tuple(vote)),
    )
}

/// The completed round that a tuple stands for.
pub open spec fn round_of_tuple(parts: RoundTuple) -> CompletedRoundView {
    CompletedRoundView {
        number: parts.0,
        state: parts.1,
        base: parts.2,
        votes: parts.3.map_values(|vote: VoteParts| vote_of_tuple(vote)),
    }
}

/// The record that tuples, set number and voters stand for.
pub open spec fn record_of_tuples(
    rounds: Seq<RoundTuple>,
    set_id: SetId,
    voters: Seq<AuthorityId>,
) -> CompletedRoundsView {
    CompletedRoundsView {
        rounds: rounds.map_values(|round: RoundTuple| round_of_tuple(round)),
        set_id,
        voters,
    }
}

/// The record that stands encoded at the start of the bytes, and how many bytes it takes; the
/// error of the codec where there is none.
pub open spec fn decoded_record(bytes: Seq<u8>) -> Result<
    (CompletedRoundsView, int),
    parity_scale_codec::Error,
> {
    match scale_decoding(bytes) {
        Ok(((rounds, set_id, voters), read)) => Ok(
            (record_of_tuples(rounds, set_id, voters), read),
        ),
        Err(error) => Err(error),
    }
}

/// The place of a round is within the sequence, after all that are later.
proof fn place_splits(rounds: Seq<CompletedRoundView>, number: RoundNumber)
    ensures
        0 <= place_of(rounds, number) <= rounds.len(),
        forall|i: int|
            0 <= i < place_of(rounds, number) ==> (#[trigger] rounds[i]).number > number,
        place_of(rounds, number) < rounds.len() ==> rounds[place_of(rounds, number)].number
            <= number,
    decreases rounds.len(),
{
    if rounds.len() == 0 || rounds[0].number <= number {
    } else {
        let rest = rounds.drop_first();
        place_splits(rest, number);
        assert forall|i: int| 0 <= i < place_of(rounds, number) implies (
        #[trigger] rounds[i]).number > number by {
            if i > 0 {
                assert(rest[i - 1] == rounds[i]);
            }
        }
        if place_of(rounds, number) < rounds.len() {
            assert(rest[place_of(rest, number)] == rounds[place_of(rounds, number)]);
        }
    }
}

/// An index before which all rounds are later, and which is the end or holds one that is not,
/// is the place.
proof fn place_is(rounds: Seq<CompletedRoundView>, number: RoundNumber, index: int)
    requires
        0 <= index <= rounds.len(),
        forall|i: int| 0 <= i < index ==> (#[trigger] rounds[i]).number > number,
        index < rounds.len() ==> rounds[index].number <= number,
    ensures
        place_of(rounds, number) == index,
{
    place_splits(rounds, number);
    let place = place_of(rounds, number);
    if place < index {
        assert(rounds[place].number > number);
    } else if index < place {
        assert(rounds[index].number > number);
    }
}

impl CompletedRounds {
    /// Create a new completed rounds tracker with the capacity for
    /// [`NUM_LAST_COMPLETED_VIEWS`].
    pub fn new(genesis: CompletedRound, set_id: SetId, voters: &AuthoritySet) -> (tracker: Self)
        ensures
            tracker@ == (CompletedRoundsView {
                rounds: seq![genesis@],
                set_id,
                voters: voters.current_authorities@,
            }),
            tracker@.wf(),
    {
        let mut rounds: Vec<CompletedRound> = Vec::with_capacity(NUM_LAST_COMPLETED_VIEWS);
        rounds.push(genesis);
        assert(round_views(rounds@) =~= seq![genesis@]);
        let voters = copy_authorities(voters.current_authorities.as_slice());
        CompletedRounds { rounds, set_id, voters }
    }

    /// Get the set-id and voter set of the completed rounds.
    pub fn set_info(&self) -> (info: (SetId, &[AuthorityId]))
        ensures
            info.0 == self@.set_id,
            info.1@ == self@.voters,
    {
        (self.set_id, self.voters.as_slice())
    }

    /// All completed rounds, from the oldest to the latest.
    pub fn iter(&self) -> (all: Vec<&CompletedRound>)
        ensures
            all@.map_values(|round: &CompletedRound| round@) == self@.rounds.reverse(),
    {
        let mut all: Vec<&CompletedRound> = Vec::new();
        let mut left: usize = self.rounds.len();
        while left > 0
            invariant
                left <= self.rounds@.len(),
                all@.len() == self.rounds@.len() - left,
                forall|i: int|
                    0 <= i < all@.len() ==> *(#[trigger] all@[i]) == self.rounds@[self.rounds@.len()
                        - 1 - i],
            decreases left,
        {
            left -= 1;
            all.push(&self.rounds[left]);
        }
        assert(all@.map_values(|round: &CompletedRound| round@) =~= self@.rounds.reverse());
        all
    }

    /// Returns the last (latest) completed round.
    pub fn last(&self) -> (latest: &CompletedRound)
        requires
            self@.rounds.len() > 0,
        ensures
            latest@ == self@.rounds[0],
    {
        &self.rounds[0]
    }

    /// The highest number of a completed round.
    pub fn highest_round(&self) -> (highest: RoundNumber)
        requires
            self@.rounds.len() > 0,
        ensures
            self@.is_highest(highest),
            exists|i: int|
                0 <= i < self@.rounds.len() && (#[trigger] self@.rounds[i]).number == highest,
            forall|i: int|
                0 <= i < self@.rounds.len() ==> (#[trigger] self@.rounds[i]).number <= highest,
    {
        let mut highest: RoundNumber = self.rounds[0].number;
        let mut i: usize = 1;
        assert(self@.rounds[0].number == highest);
        while i < self.rounds.len()
            invariant
                1 <= i <= self.rounds@.len(),
                exists|j: int| 0 <= j < i && (#[trigger] self@.rounds[j]).number == highest,
                forall|j: int| 0 <= j < i ==> (#[trigger] self@.rounds[j]).number <= highest,
            decreases self.rounds@.len() - i,
        {
            if self.rounds[i].number > highest {
                highest = self.rounds[i].number;
            }
            assert(self@.rounds[i as int].number == self.rounds@[i as int].number);
            i += 1;
        }
        highest
    }

    /// Push a new completed round, oldest round is evicted if number of rounds
    /// is higher than [`NUM_LAST_COMPLETED_VIEWS`].
    pub fn _push(&mut self, completed_round: CompletedRound)
        ensures
            final(self)@ == old(self)@.with_round(completed_round@),
            old(self)@.wf() ==> final(self)@.wf(),
    {
        let ghost before = self@.rounds;
        let mut place: usize = 0;
        while place < self.rounds.len() && self.rounds[place].number > completed_round.number
            invariant
                place <= self.rounds@.len(),
                *self == *old(self),
                forall|i: int|
                    0 <= i < place ==> (#[trigger] self.rounds@[i]).number > completed_round.number,
            decreases self.rounds@.len() - place,
        {
            place += 1;
        }
        proof {
            assert forall|i: int| 0 <= i < place implies (#[trigger] before[i]).number
                > completed_round.number by {
                assert(self.rounds@[i].number > completed_round.number);
            }
            place_is(before, completed_round.number, place as int);
        }
        let ghost round = completed_round@;
        if place < self.rounds.len() && self.rounds[place].number == completed_round.number {
            self.rounds[place] = completed_round;
            assert(round_views(self.rounds@) =~= before.update(place as int, round));
        } else {
            self.rounds.insert(place, completed_round);
            assert(round_views(self.rounds@) =~= before.insert(place as int, round));
        }
        assert(round_views(self.rounds@) =~= filed(before, round));
        if self.rounds.len() > NUM_LAST_COMPLETED_VIEWS {
            let ghost full = self.rounds@;
            let _ = self.rounds.pop();
            assert(round_views(self.rounds@) =~= round_views(full).drop_last());
        }
        proof {
            if old(self)@.wf() {
                push_keeps_wf(old(self)@, round);
            }
        }
    }
}

/// The votes as tuples.
fn votes_to_parts(votes: &Vec<SignedCommit>) -> (parts: Vec<VoteParts>)
    ensures
        parts@ == votes@.map_values(|vote: SignedCommit| vote_to_tuple(vote)),
{
    let mut parts: Vec<VoteParts> = Vec::with_capacity(votes.len());
    let mut i: usize = 0;
    while i < votes.len()
        invariant
            i <= votes@.len(),
            parts@.len() == i,
            forall|j: int| 0 <= j < i ==> #[trigger] parts@[j] == vote_to_tuple(votes@[j]),
        decreases votes@.len() - i,
    {
        let vote = votes[i];
        let precommit = vote.precommit;
        parts.push(
            (
                (precommit.target_height, precommit.target_hash, precommit.round),
                vote.signature,
                vote.id,
            ),
        );
        i += 1;
    }
    assert(parts@ =~= votes@.map_values(|vote: SignedCommit| vote_to_tuple(vote)));
    parts
}

/// The votes that tuples stand for.
fn votes_of_parts(parts: &Vec<VoteParts>) -> (votes: Vec<SignedCommit>)
    ensures
        votes@ == parts@.map_values(|vote: VoteParts| vote_of_tuple(vote)),
{
    let mut votes: Vec<SignedCommit> = Vec::with_capacity(parts.len());
    let mut i: usize = 0;
    while i < parts.len()
        invariant
            i <= parts@.len(),
            votes@.len() == i,
            forall|j: int| 0 <= j < i ==> #[trigger] votes@[j] == vote_of_tuple(parts@[j]),
        decreases parts@.len() - i,
    {
        let ((target_height, target_hash, round), signature, id) = parts[i];
        votes.push(
            SignedCommit {
                precommit: Precommit { target_height, target_hash, round },
                signature,
                id,
            },
        );
        i += 1;
    }
    assert(votes@ =~= parts@.map_values(|vote: VoteParts| vote_of_tuple(vote)));
    votes
}

impl CompletedRounds {
    /// The rounds as tuples, the latest first.
    pub fn to_parts(&self) -> (parts: Vec<RoundParts>)
        ensures
            round_tuples(parts@) == self@.tuples(),
    {
        let mut parts: Vec<RoundParts> = Vec::with_capacity(self.rounds.len());
        let mut i: usize = 0;
        while i < self.rounds.len()
            invariant
                i <= self.rounds@.len(),
                parts@.len() == i,
                forall|j: int|
                    0 <= j < i ==> round_tuples(parts@)[j] == round_to_tuple(
                        (#[trigger] self.rounds@[j])@,
                    ),
            decreases self.rounds@.len() - i,
        {
            let round = &self.rounds[i];
            let ghost before = round_tuples(parts@);
            parts.push((round.number, round.state, round.base, votes_to_parts(&round.votes)));
            assert(round_tuples(parts@) =~= before.push(round_to_tuple(round@)));
            i += 1;
        }
        assert(round_tuples(parts@) =~= self@.tuples());
        parts
    }

    /// The record that tuples, set number and voters stand for, in the order of the tuples.
    pub fn from_parts(
        parts: &Vec<RoundParts>,
        set_id: SetId,
        voters: Vec<AuthorityId>,
    ) -> (record: CompletedRounds)
        ensures
            record@ == record_of_tuples(round_tuples(parts@), set_id, voters@),
    {
        let mut rounds: Vec<CompletedRound> = Vec::with_capacity(parts.len());
        let mut i: usize = 0;
        while i < parts.len()
            invariant
                i <= parts@.len(),
                rounds@.len() == i,
                forall|j: int|
                    0 <= j < i ==> (#[trigger] rounds@[j])@ == round_of_tuple(
                        round_tuples(parts@)[j],
                    ),
            decreases parts@.len() - i,
        {
            let round = &parts[i];
            rounds.push(
                CompletedRound {
                    number: round.0,
                    state: round.1,
                    base: round.2,
                    votes: votes_of_parts(&round.3),
                },
            );
            i += 1;
        }
        let record = CompletedRounds { rounds, set_id, voters };
        assert(record@.rounds =~= record_of_tuples(
            round_tuples(parts@),
            set_id,
            record.voters@,
        ).rounds);
        record
    }

    /// The bytes to store the record as. Decoding gives the record back from them, and takes
    /// just these bytes, whatever follows.
    pub fn encode(&self) -> (bytes: Vec<u8>)
        requires
            self@.is_encodable(),
        ensures
            bytes@ == self@.encoding(),
            forall|rest: Seq<u8>| #[trigger]
                decoded_record(bytes@ + rest) == Ok::<_, parity_scale_codec::Error>(
                    (self@, bytes@.len() as int),
                ),
    {
        let parts = self.to_parts();
        assert(parts@.len() == round_tuples(parts@).len());
        assert forall|i: int| 0 <= i < parts@.len() implies (#[trigger] parts@[i]).3@.len()
            <= u32::MAX by {
            assert(round_tuples(parts@)[i] == round_to_tuple(self@.rounds[i]));
        }
        let bytes = encode_parts(&parts, &self.set_id, &self.voters);
        proof {
            tuples_give_record_back(self@);
            assert forall|rest: Seq<u8>| #[trigger]
                decoded_record(bytes@ + rest) == Ok::<_, parity_scale_codec::Error>(
                    (self@, bytes@.len() as int),
                ) by {
                assert(scale_decoding(bytes@ + rest) is Ok);
            }
        }
        bytes
    }

    /// Reads a record from the start of the input, which moves on behind it. An error is that of
    /// the codec.
    pub fn decode(input: &mut &[u8]) -> (record: Result<CompletedRounds, VoterError>)
        ensures
            match record {
                Ok(record) => {
                    let read = old(input)@.len() - final(input)@.len();
                    &&& 0 <= read
                    &&& final(input)@ == old(input)@.skip(read)
                    &&& decoded_record(old(input)@) == Ok::<_, parity_scale_codec::Error>(
                        (record@, read),
                    )
                },
                Err(VoterError::Codec(error)) => decoded_record(old(input)@) == Err::<
                    (CompletedRoundsView, int),
                    parity_scale_codec::Error,
                >(error),
                Err(_) => false,
            },
    {
        match decode_parts(input) {
            Ok((parts, set_id, voters)) => Ok(CompletedRounds::from_parts(&parts, set_id, voters)),
            Err(error) => Err(VoterError::Codec(error)),
        }
    }
}

/// The tuples of a record, with its set number and voters, stand for that record.
pub proof fn tuples_give_record_back(record: CompletedRoundsView)
    ensures
        record_of_tuples(record.tuples(), record.set_id, record.voters) == record,
{
    let back = record_of_tuples(record.tuples(), record.set_id, record.voters);
    assert forall|i: int| 0 <= i < record.rounds.len() implies #[trigger] back.rounds[i]
        == record.rounds[i] by {
        assert(back.rounds[i].votes =~= record.rounds[i].votes);
    }
    assert(back.rounds =~= record.rounds);
}

/// Filing keeps rounds latest first, keeps every round of another number, and adds the round.
proof fn filed_keeps_order(rounds: Seq<CompletedRoundView>, round: CompletedRoundView)
    requires
        latest_first(rounds),
    ensures
        latest_first(filed(rounds, round)),
        rounds.len() <= filed(rounds, round).len() <= rounds.len() + 1,
        filed(rounds, round).len() > 0,
        forall|c: CompletedRoundView| #[trigger]
            filed(rounds, round).contains(c) <==> c == round || (rounds.contains(c) && c.number
                != round.number),
{
    place_splits(rounds, round.number);
    let place = place_of(rounds, round.number);
    let after = filed(rounds, round);
    let replaces = place < rounds.len() && rounds[place].number == round.number;
    assert forall|i: int, j: int| 0 <= i < j < after.len() implies (#[trigger] after[i]).number > (
    #[trigger] after[j]).number by {
        if replaces {
            assert(after[i].number == rounds[i].number);
            assert(after[j].number == rounds[j].number);
        } else {
            let old_i = if i < place { i } else { i - 1 };
            let old_j = if j < place { j } else { j - 1 };
            assert(i != place ==> after[i] == rounds[old_i]);
            assert(j != place ==> after[j] == rounds[old_j]);
            if i == place {
                assert(place < rounds.len());
                assert(rounds[place].number < round.number);
                assert(old_j > place ==> rounds[place].number > rounds[old_j].number);
            }
        }
    }
    assert forall|c: CompletedRoundView| #[trigger] after.contains(c) implies c == round || (
    rounds.contains(c) && c.number != round.number) by {
        let i = choose|i: int| 0 <= i < after.len() && after[i] == c;
        if replaces {
            if i != place {
                assert(rounds[i] == c);
                if i < place {
                    assert(rounds[i].number > rounds[place].number);
                } else {
                    assert(rounds[place].number > rounds[i].number);
                }
            }
        } else if i != place {
            let old_i = if i < place { i } else { i - 1 };
            assert(rounds[old_i] == c);
            if old_i >= place {
                assert(old_i > place ==> rounds[place].number > rounds[old_i].number);
            }
        }
    }
    assert(after[place] == round);
    assert forall|c: CompletedRoundView|
        c == round || (rounds.contains(c) && c.number != round.number) implies #[trigger]
    after.contains(c) by {
        if c != round {
            let i = choose|i: int| 0 <= i < rounds.len() && rounds[i] == c;
            if replaces {
                assert(after[i] == c);
            } else {
                assert(after[if i < place { i } else { i + 1 }] == c);
            }
        }
    }
}

/// A push keeps the record well formed and leaves the voter set as it is.
pub proof fn push_keeps_wf(record: CompletedRoundsView, round: CompletedRoundView)
    requires
        record.wf(),
    ensures
        record.with_round(round).wf(),
        record.with_round(round).set_id == record.set_id,
        record.with_round(round).voters == record.voters,
{
    filed_keeps_order(record.rounds, round);
}

/// A push keeps the latest rounds: what it keeps is the new round and old ones of other
/// numbers, and one of these is left out only where the record is full of later ones.
pub proof fn push_keeps_the_latest(record: CompletedRoundsView, round: CompletedRoundView)
    requires
        record.wf(),
    ensures
        forall|c: CompletedRoundView| #[trigger]
            record.with_round(round).rounds.contains(c) ==> c == round || (record.rounds.contains(c)
                && c.number != round.number),
        forall|c: CompletedRoundView|
            (c == round || (record.rounds.contains(c) && c.number != round.number))
                && !#[trigger] record.with_round(round).rounds.contains(c) ==> {
                let kept = record.with_round(round).rounds;
                &&& kept.len() == NUM_LAST_COMPLETED_VIEWS
                &&& forall|i: int| 0 <= i < kept.len() ==> (#[trigger] kept[i]).number > c.number
            },
{
    filed_keeps_order(record.rounds, round);
    let all = filed(record.rounds, round);
    let kept = record.with_round(round).rounds;
    assert forall|c: CompletedRoundView| #[trigger] kept.contains(c) implies all.contains(c) by {
        let i = choose|i: int| 0 <= i < kept.len() && kept[i] == c;
        assert(all[i] == c);
    }
    assert forall|c: CompletedRoundView|
        all.contains(c) && !#[trigger] kept.contains(c) implies kept.len()
        == NUM_LAST_COMPLETED_VIEWS && forall|i: int|
        0 <= i < kept.len() ==> (#[trigger] kept[i]).number > c.number by {
        let i = choose|i: int| 0 <= i < all.len() && all[i] == c;
        if i < kept.len() {
            assert(kept[i] == c);
        }
        assert forall|k: int| 0 <= k < kept.len() implies (#[trigger] kept[k]).number
            > c.number by {
            assert(all[k].number > all[i].number);
        }
    }
}

/// The first round of the record, which `last` returns, is the latest; after a push it is the
/// later of the former latest and the new round.
pub proof fn last_is_latest(record: CompletedRoundsView, round: CompletedRoundView)
    requires
        record.wf(),
    ensures
        record.is_highest(record.rounds[0].number),
        record.with_round(round).rounds[0] == if round.number >= record.rounds[0].number {
            round
        } else {
            record.rounds[0]
        },
{
    place_splits(record.rounds, round.number);
}

/// `iter` goes from the oldest round to the latest.
pub proof fn iter_is_oldest_first(record: CompletedRoundsView)
    requires
        record.wf(),
    ensures
        forall|i: int, j: int|
            0 <= i < j < record.rounds.len() ==> (#[trigger] record.rounds.reverse()[i]).number < (
            #[trigger] record.rounds.reverse()[j]).number,
{
}

/// To push a round twice is to push it once.
pub proof fn push_is_idempotent(record: CompletedRoundsView, round: CompletedRoundView)
    requires
        record.wf(),
    ensures
        record.with_round(round).with_round(round) == record.with_round(round),
{
    let once = record.with_round(round);
    let place = place_of(record.rounds, round.number);
    place_splits(record.rounds, round.number);
    filed_keeps_order(record.rounds, round);
    let all = filed(record.rounds, round);
    assert(all[place] == round);
    if place < once.rounds.len() {
        assert(once.rounds[place] == round);
        assert forall|i: int| 0 <= i < place implies (#[trigger] once.rounds[i]).number
            > round.number by {
            assert(all[i].number > all[place].number);
        }
        place_is(once.rounds, round.number, place);
        assert(filed(once.rounds, round) =~= once.rounds);
    } else {
        assert(once.rounds =~= record.rounds);
    }
    assert(once.with_round(round).rounds =~= once.rounds);
}

/// A round that is older than all of a full record is not taken up.
pub proof fn older_round_is_not_taken(record: CompletedRoundsView, round: CompletedRoundView)
    requires
        record.wf(),
        record.rounds.len() == NUM_LAST_COMPLETED_VIEWS,
        forall|i: int|
            0 <= i < record.rounds.len() ==> (#[trigger] record.rounds[i]).number > round.number,
    ensures
        record.with_round(round) == record,
{
    place_is(record.rounds, round.number, record.rounds.len() as int);
    assert(record.with_round(round).rounds =~= record.rounds);
}

/// A round holds its number, state, base and votes.
pub proof fn round_is_what_it_holds(round: CompletedRound)
    ensures
        round@.number == round.number,
        round@.state == round.state,
        round@.base == round.base,
        round@.votes == round.votes@,
{
}

/// Whatever the record, a push files the round where it belongs. Of the new round and the old ones
/// of other numbers all are kept as long as they are no more than are to be kept, else all but
/// one that is older than the others; the kept ones stand latest first, and the voter set stays.
pub proof fn push_files_the_round(record: CompletedRoundsView, round: CompletedRoundView)
    requires
        forall|i: int, j: int|
            0 <= i < j < record.rounds.len() ==> (#[trigger] record.rounds[i]).number > (
            #[trigger] record.rounds[j]).number,
    ensures
        ({
            let kept = record.with_round(round).rounds;
            let known = exists|i: int|
                0 <= i < record.rounds.len() && (#[trigger] record.rounds[i]).number
                    == round.number;
            let all = record.rounds.len() + if known {
                0int
            } else {
                1int
            };
            &&& kept.len() == if all > 2 {
                all - 1
            } else {
                all
            }
            &&& forall|i: int, j: int|
                0 <= i < j < kept.len() ==> (#[trigger] kept[i]).number > (
                #[trigger] kept[j]).number
            &&& forall|i: int|
                0 <= i < kept.len() ==> #[trigger] kept[i] == round || (record.rounds.contains(
                    kept[i],
                ) && kept[i].number != round.number)
            &&& forall|c: CompletedRoundView|
                (c == round || (record.rounds.contains(c) && c.number != round.number))
                    && !#[trigger] kept.contains(c) ==> forall|i: int|
                    0 <= i < kept.len() ==> (#[trigger] kept[i]).number > c.number
            &&& record.with_round(round).set_id == record.set_id
            &&& record.with_round(round).voters == record.voters
        }),
{
    filed_keeps_order(record.rounds, round);
    place_splits(record.rounds, round.number);
    let place = place_of(record.rounds, round.number);
    let all = filed(record.rounds, round);
    let kept = record.with_round(round).rounds;
    assert forall|i: int| 0 <= i < record.rounds.len() && (
    #[trigger] record.rounds[i]).number == round.number implies i == place by {
        if i < place {
            assert(record.rounds[i].number > round.number);
        }
        if place < i {
            assert(record.rounds[place].number > record.rounds[i].number);
        }
    }
    assert forall|i: int| 0 <= i < kept.len() implies #[trigger] kept[i] == round || (
    record.rounds.contains(kept[i]) && kept[i].number != round.number) by {
        assert(all[i] == kept[i]);
        assert(all.contains(kept[i]));
    }
    assert forall|c: CompletedRoundView|
        (c == round || (record.rounds.contains(c) && c.number != round.number))
            && !#[trigger] kept.contains(c) implies forall|i: int|
        0 <= i < kept.len() ==> (#[trigger] kept[i]).number > c.number by {
        assert(all.contains(c));
        let at = choose|at: int| 0 <= at < all.len() && all[at] == c;
        if at < kept.len() {
            assert(kept[at] == c);
        }
        assert forall|i: int| 0 <= i < kept.len() implies (#[trigger] kept[i]).number
            > c.number by {
            assert(all[i].number > all[at].number);
        }
    }
}

/// In whatever order the rounds of a record stand, a push takes up no other round than the new one,
/// moves none but by one place, loses at most one, and keeps the voter set.
pub proof fn push_keeps_the_rest(record: CompletedRoundsView, round: CompletedRoundView, i: int)
    ensures
        ({
            let kept = record.with_round(round).rounds;
            &&& kept.len() > 0
            &&& record.rounds.len() - 1 <= kept.len() <= record.rounds.len() + 1
            &&& record.rounds.len() <= 2 ==> record.rounds.len() <= kept.len() <= 2
            &&& 0 <= i < kept.len() ==> kept[i] == round || (i < record.rounds.len() && kept[i]
                == record.rounds[i]) || (i > 0 && kept[i] == record.rounds[i - 1])
            &&& record.with_round(round).set_id == record.set_id
            &&& record.with_round(round).voters == record.voters
        }),
{
    place_splits(record.rounds, round.number);
}

/// A record is well formed just if it holds one round, or two of which the first is later.
pub proof fn well_formed_record_holds_one_or_two(record: CompletedRoundsView)
    ensures
        record.wf() <==> record.rounds.len() == 1 || (record.rounds.len() == 2
            && record.rounds[0].number > record.rounds[1].number),
{
}

/// A number is the highest just if it is that of a round and no round has a higher one; so there
/// is at most one such number, and one just if there is a round.
pub proof fn highest_is_one(
    record: CompletedRoundsView,
    number: RoundNumber,
    other: RoundNumber,
    i: int,
)
    ensures
        record.is_highest(number) && record.is_highest(other) ==> number == other,
        record.is_highest(number) && 0 <= i < record.rounds.len() ==> record.rounds[i].number
            <= number,
        record.is_highest(number) ==> exists|j: int|
            0 <= j < record.rounds.len() && (#[trigger] record.rounds[j]).number == number,
        0 <= i < record.rounds.len() && (forall|j: int|
            0 <= j < record.rounds.len() ==> (#[trigger] record.rounds[j]).number
                <= record.rounds[i].number) ==> record.is_highest(record.rounds[i].number),
{
    if 0 <= i < record.rounds.len() {
        assert(record.rounds[i].number == record.rounds[i].number);
    }
}

/// The encoding of a record is that of all its rounds in their order, each with all its fields
/// and votes, and of set number and voters.
pub proof fn record_is_encoded_in_full(record: CompletedRoundsView, i: int, j: int)
    requires
        0 <= i < record.rounds.len(),
    ensures
        record.encoding() == scale_encoding(record.tuples(), record.set_id, record.voters),
        record.tuples().len() == record.rounds.len(),
        record.tuples()[i].0 == record.rounds[i].number,
        record.tuples()[i].1 == record.rounds[i].state,
        record.tuples()[i].2 == record.rounds[i].base,
        record.tuples()[i].3.len() == record.rounds[i].votes.len(),
        0 <= j < record.rounds[i].votes.len() ==> {
            let vote = record.rounds[i].votes[j];
            &&& record.tuples()[i].3[j].0.0 == vote.precommit.target_height
            &&& record.tuples()[i].3[j].0.1 == vote.precommit.target_hash
            &&& record.tuples()[i].3[j].0.2 == vote.precommit.round
            &&& record.tuples()[i].3[j].1 == vote.signature
            &&& record.tuples()[i].3[j].2 == vote.id
        },
{
}

/// The encoding of a record without rounds is that of no rounds, with set number and voters.
pub proof fn empty_record_is_encoded(record: CompletedRoundsView)
    requires
        record.rounds.len() == 0,
    ensures
        record.tuples().len() == 0,
        record.encoding() == scale_encoding(record.tuples(), record.set_id, record.voters),
{
}

/// A record is decoded just if the codec reads its parts; the rounds are then those that it reads,
/// in their order and whole, and so are set number and voters. Its error is handed on.
pub proof fn record_is_decoded_in_full(
    bytes: Seq<u8>,
    rounds: Seq<RoundTuple>,
    set_id: SetId,
    voters: Seq<AuthorityId>,
    read: int,
    error: parity_scale_codec::Error,
    i: int,
    j: int,
)
    ensures
        scale_decoding(bytes) == Err::<
            ((Seq<RoundTuple>, SetId, Seq<AuthorityId>), int),
            parity_scale_codec::Error,
        >(error) <==> decoded_record(bytes) == Err::<
            (CompletedRoundsView, int),
            parity_scale_codec::Error,
        >(error),
        scale_decoding(bytes) == Ok::<_, parity_scale_codec::Error>(
            ((rounds, set_id, voters), read),
        ) ==> {
            let record = decoded_record(bytes)->Ok_0.0;
            &&& decoded_record(bytes) is Ok
            &&& decoded_record(bytes)->Ok_0.1 == read
            &&& record.set_id == set_id
            &&& record.voters == voters
            &&& record.rounds.len() == rounds.len()
            &&& 0 <= i < rounds.len() ==> {
                let round = record.rounds[i];
                &&& round.number == rounds[i].0
                &&& round.state == rounds[i].1
                &&& round.base == rounds[i].2
                &&& round.votes.len() == rounds[i].3.len()
                &&& 0 <= j < rounds[i].3.len() ==> {
                    &&& round.votes[j].precommit.target_height == rounds[i].3[j].0.0
                    &&& round.votes[j].precommit.target_hash == rounds[i].3[j].0.1
                    &&& round.votes[j].precommit.round == rounds[i].3[j].0.2
                    &&& round.votes[j].signature == rounds[i].3[j].1
                    &&& round.votes[j].id == rounds[i].3[j].2
                }
            }
        },
{
}

/// The record that parts stand for has all of them, in their order.
pub proof fn record_has_all_parts(
    rounds: Seq<RoundTuple>,
    set_id: SetId,
    voters: Seq<AuthorityId>,
    i: int,
    j: int,
)
    ensures
        ({
            let record = record_of_tuples(rounds, set_id, voters);
            &&& record.set_id == set_id
            &&& record.voters == voters
            &&& record.rounds.len() == rounds.len()
            &&& 0 <= i < rounds.len() ==> {
                &&& record.rounds[i].number == rounds[i].0
                &&& record.rounds[i].state == rounds[i].1
                &&& record.rounds[i].base == rounds[i].2
                &&& record.rounds[i].votes.len() == rounds[i].3.len()
                &&& 0 <= j < rounds[i].3.len() ==> {
                    let vote = record.rounds[i].votes[j];
                    &&& vote.precommit.target_height == rounds[i].3[j].0.0
                    &&& vote.precommit.target_hash == rounds[i].3[j].0.1
                    &&& vote.precommit.round == rounds[i].3[j].0.2
                    &&& vote.signature == rounds[i].3[j].1
                    &&& vote.id == rounds[i].3[j].2
                }
            }
        }),
{
}

/// Only a list that is too long for its length to be counted keeps a record from being encoded.
pub proof fn only_too_long_lists_cannot_be_encoded(record: CompletedRoundsView)
    ensures
        !record.is_encodable() ==> {
            ||| record.rounds.len() > u32::MAX
            ||| record.voters.len() > u32::MAX
            ||| exists|i: int|
                0 <= i < record.rounds.len() && (#[trigger] record.rounds[i]).votes.len()
                    > u32::MAX
        },
{
}

} // verus!
