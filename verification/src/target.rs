//! The search for the block to propose on top of a base block.
//!
//! The search asks for one thing at a time ([`TargetSearch::action`]): the header of a block, or
//! the best block to finalize. Whoever runs it gets that from the chain and hands it back
//! ([`TargetSearch::advance`]), until the search is finished.
use crate::primitives::{BlockHash, BlockNumber, VoterError};
use vstd::prelude::*;

verus! {

/// What the search needs to know of a block.
#[derive(Clone, Copy, Debug, PartialEq, Eq)]
pub struct Header {
    pub number: BlockNumber,
    pub hash: BlockHash,
    pub parent_hash: BlockHash,
}

/// How far the search has come.
#[derive(Debug, PartialEq)]
pub enum TargetSearch {
    /// The header of the base block is to be read.
    Base { block: BlockHash },
    /// The best block on top of the base block is to be chosen.
    Choice { block: BlockHash, base: BlockNumber },
    /// The header of the best block is to be read.
    Target { base: BlockNumber, target: BlockHash },
    /// The header of the parent of a block is to be read, to see how high it stands.
    Parent { base: BlockNumber, current: Header },
    /// The parent stands too high still: its header is to be read, to go on from it.
    Descend { base: BlockNumber, current: Header },
    /// The search is over.
    Finished { found: Result<Option<(BlockNumber, BlockHash)>, VoterError> },
}

/// What the search asks for.
#[derive(Clone, Copy, Debug, PartialEq, Eq)]
pub enum TargetAction {
    /// Read the header of the block.
    ReadHeader(BlockHash),
    /// Choose the best block on top of the block.
    ChooseTarget(BlockHash),
    /// Nothing more.
    Stop,
}

/// What is handed to the search.
#[derive(Debug, PartialEq)]
pub enum TargetEvent {
    /// The header that was asked for; `None` where the chain does not know the block.
    Header(Result<Option<Header>, VoterError>),
    /// The best block.
    Chosen(Result<BlockHash, VoterError>),
}

impl TargetSearch {
    /// What the search asks for next.
    pub open spec fn next_action(self) -> TargetAction {
        match self {
            TargetSearch::Base { block } => TargetAction::ReadHeader(block),
            TargetSearch::Choice { block, .. } => TargetAction::ChooseTarget(block),
            TargetSearch::Target { target, .. } => TargetAction::ReadHeader(target),
            TargetSearch::Parent { current, .. } => TargetAction::ReadHeader(current.parent_hash),
            TargetSearch::Descend { current, .. } => TargetAction::ReadHeader(current.parent_hash),
            TargetSearch::Finished { .. } => TargetAction::Stop,
        }
    }

    /// Whether the event answers what the search asks for, and can be in a chain that knows the
    /// ancestors of the best block down to the base block, one for each number.
    pub open spec fn is_answered_by(self, event: TargetEvent) -> bool {
        match (self, event) {
            (TargetSearch::Base { .. }, TargetEvent::Header(_)) => true,
            (TargetSearch::Choice { .. }, TargetEvent::Chosen(_)) => true,
            (TargetSearch::Target { .. }, TargetEvent::Header(header)) => header
                != Ok::<Option<Header>, VoterError>(None),
            (TargetSearch::Descend { .. }, TargetEvent::Header(header)) => header
                != Ok::<Option<Header>, VoterError>(None),
            (TargetSearch::Parent { base, .. }, TargetEvent::Header(header)) => match header {
                Ok(Some(parent)) => parent.number >= base,
                Ok(None) => false,
                Err(_) => true,
            },
            _ => false,
        }
    }

    /// The search after an event. An unknown base block, a failure to choose, and a failure to
    /// read any later header leave nothing to propose; only a failure to read the header of the
    /// base block is an error.
    pub open spec fn after(self, event: TargetEvent) -> TargetSearch {
        let nothing = TargetSearch::Finished { found: Ok(None) };
        match (self, event) {
            (TargetSearch::Base { block }, TargetEvent::Header(header)) => match header {
                Ok(Some(base)) => TargetSearch::Choice { block, base: base.number },
                Ok(None) => nothing,
                Err(error) => TargetSearch::Finished { found: Err(error) },
            },
            (TargetSearch::Choice { base, .. }, TargetEvent::Chosen(Ok(target))) => {
                TargetSearch::Target { base, target }
            },
            (TargetSearch::Target { base, .. }, TargetEvent::Header(Ok(Some(target)))) => {
                if target.number == base {
                    TargetSearch::Finished { found: Ok(Some((target.number, target.hash))) }
                } else {
                    TargetSearch::Parent { base, current: target }
                }
            },
            (TargetSearch::Parent { base, current }, TargetEvent::Header(Ok(Some(parent)))) => {
                if parent.number == base {
                    TargetSearch::Finished { found: Ok(Some((current.number, current.hash))) }
                } else {
                    TargetSearch::Descend { base, current }
                }
            },
            (TargetSearch::Descend { base, .. }, TargetEvent::Header(Ok(Some(parent)))) => {
                TargetSearch::Parent { base, current: parent }
            },
            _ => nothing,
        }
    }

    /// What the search asks for next.
    pub fn action(&self) -> (action: TargetAction)
        ensures
            action == self.next_action(),
    {
        match self {
            TargetSearch::Base { block } => TargetAction::ReadHeader(*block),
            TargetSearch::Choice { block, .. } => TargetAction::ChooseTarget(*block),
            TargetSearch::Target { target, .. } => TargetAction::ReadHeader(*target),
            TargetSearch::Parent { current, .. } => TargetAction::ReadHeader(current.parent_hash),
            TargetSearch::Descend { current, .. } => TargetAction::ReadHeader(current.parent_hash),
            TargetSearch::Finished { .. } => TargetAction::Stop,
        }
    }

    /// Whether the search can go on with the event.
    pub fn accepts(&self, event: &TargetEvent) -> (accepted: bool)
        ensures
            accepted == self.is_answered_by(*event),
    {
        match (self, event) {
            (TargetSearch::Base { .. }, TargetEvent::Header(_)) => true,
            (TargetSearch::Choice { .. }, TargetEvent::Chosen(_)) => true,
            (TargetSearch::Target { .. }, TargetEvent::Header(Ok(None))) => false,
            (TargetSearch::Target { .. }, TargetEvent::Header(_)) => true,
            (TargetSearch::Descend { .. }, TargetEvent::Header(Ok(None))) => false,
            (TargetSearch::Descend { .. }, TargetEvent::Header(_)) => true,
            (TargetSearch::Parent { base, .. }, TargetEvent::Header(Ok(Some(parent)))) => {
                parent.number >= *base
            },
            (TargetSearch::Parent { .. }, TargetEvent::Header(Ok(None))) => false,
            (TargetSearch::Parent { .. }, TargetEvent::Header(Err(_))) => true,
            _ => false,
        }
    }

    /// Goes on with the event.
    pub fn advance(self, event: TargetEvent) -> (search: TargetSearch)
        requires
            self.is_answered_by(event),
        ensures
            search == self.after(event),
    {
        match (self, event) {
            (TargetSearch::Base { block }, TargetEvent::Header(header)) => match header {
                Ok(Some(base)) => TargetSearch::Choice { block, base: base.number },
                Ok(None) => TargetSearch::Finished { found: Ok(None) },
                Err(error) => TargetSearch::Finished { found: Err(error) },
            },
            (TargetSearch::Choice { base, .. }, TargetEvent::Chosen(Ok(target))) => {
                TargetSearch::Target { base, target }
            },
            (TargetSearch::Target { base, .. }, TargetEvent::Header(Ok(Some(target)))) => {
                if target.number == base {
                    TargetSearch::Finished { found: Ok(Some((target.number, target.hash))) }
                } else {
                    TargetSearch::Parent { base, current: target }
                }
            },
            (TargetSearch::Parent { base, current }, TargetEvent::Header(Ok(Some(parent)))) => {
                if parent.number == base {
                    TargetSearch::Finished { found: Ok(Some((current.number, current.hash))) }
                } else {
                    TargetSearch::Descend { base, current }
                }
            },
            (TargetSearch::Descend { base, .. }, TargetEvent::Header(Ok(Some(parent)))) => {
                TargetSearch::Parent { base, current: parent }
            },
            _ => TargetSearch::Finished { found: Ok(None) },
        }
    }
}

/// Starts the search for the block to propose on top of the given one.
pub fn next_target(block: BlockHash) -> (search: TargetSearch)
    ensures
        search == (TargetSearch::Base { block }),
{
    TargetSearch::Base { block }
}

/// Whether the chain, given as headers by hash, knows the block and its ancestors down to the
/// given number, each of them one lower than its child. What stands below that number or on
/// other branches does not matter, nor whether it is known.
pub open spec fn reaches(
    chain: Map<BlockHash, Header>,
    hash: BlockHash,
    number: BlockNumber,
) -> bool
    decreases chain[hash].number,
{
    let parent = chain[hash].parent_hash;
    &&& chain.contains_key(hash)
    &&& chain[hash].hash == hash
    &&& chain[hash].number == number || (chain[hash].number > number && chain[parent].number + 1
        == chain[hash].number && reaches(chain, parent, number))
}

/// The block or the ancestor of it that has the given number.
pub open spec fn ancestor_at(
    chain: Map<BlockHash, Header>,
    hash: BlockHash,
    number: BlockNumber,
) -> BlockHash
    decreases chain[hash].number,
    when reaches(chain, hash, number)
{
    if chain[hash].number == number {
        hash
    } else {
        ancestor_at(chain, chain[hash].parent_hash, number)
    }
}

/// What the chain, with `choice` as the best block, hands to a search that asks for `action`.
pub open spec fn answer(
    chain: Map<BlockHash, Header>,
    choice: Result<BlockHash, VoterError>,
    action: TargetAction,
) -> TargetEvent {
    match action {
        TargetAction::ReadHeader(hash) => TargetEvent::Header(
            Ok(
                if chain.contains_key(hash) {
                    Some(chain[hash])
                } else {
                    None
                },
            ),
        ),
        _ => TargetEvent::Chosen(choice),
    }
}

/// The search after at most the given number of answers.
pub open spec fn searched(
    search: TargetSearch,
    chain: Map<BlockHash, Header>,
    choice: Result<BlockHash, VoterError>,
    steps: nat,
) -> TargetSearch
    decreases steps,
{
    if steps == 0 || search is Finished {
        search
    } else {
        searched(
            search.after(answer(chain, choice, search.next_action())),
            chain,
            choice,
            (steps - 1) as nat,
        )
    }
}

/// Whether the search can go on with each of the first answers.
pub open spec fn never_stuck(
    search: TargetSearch,
    chain: Map<BlockHash, Header>,
    choice: Result<BlockHash, VoterError>,
    steps: nat,
) -> bool
    decreases steps,
{
    steps == 0 || search is Finished || {
        let event = answer(chain, choice, search.next_action());
        &&& search.is_answered_by(event)
        &&& never_stuck(search.after(event), chain, choice, (steps - 1) as nat)
    }
}

/// A block that reaches down to a number reaches down to each number from there up to its own,
/// and its ancestor with the number just above is the child of the one with that number.
proof fn reaches_between(
    chain: Map<BlockHash, Header>,
    hash: BlockHash,
    low: BlockNumber,
    high: BlockNumber,
)
    requires
        reaches(chain, hash, low),
        low <= high <= chain[hash].number,
    ensures
        reaches(chain, hash, high),
        chain.contains_key(ancestor_at(chain, hash, high)),
        chain[ancestor_at(chain, hash, high)].number == high,
        high == low + 1 ==> chain[ancestor_at(chain, hash, high)].parent_hash == ancestor_at(
            chain,
            hash,
            low,
        ),
    decreases chain[hash].number,
{
    let parent = chain[hash].parent_hash;
    if chain[hash].number > high {
        reaches_between(chain, parent, low, high);
    } else if high == low + 1 {
        assert(ancestor_at(chain, hash, low) == ancestor_at(chain, parent, low));
    }
}

/// From a block above the base number the search comes down to the block one above it.
proof fn search_descends(
    chain: Map<BlockHash, Header>,
    choice: Result<BlockHash, VoterError>,
    base: BlockNumber,
    hash: BlockHash,
    steps: nat,
)
    requires
        reaches(chain, hash, base),
        chain[hash].number > base,
        steps >= 2 * (chain[hash].number - base),
    ensures
        ({
            let found = ancestor_at(chain, hash, (base + 1) as BlockNumber);
            let start = TargetSearch::Parent { base, current: chain[hash] };
            &&& never_stuck(start, chain, choice, steps)
            &&& searched(start, chain, choice, steps) == (TargetSearch::Finished {
                found: Ok(Some(((base + 1) as BlockNumber, found))),
            })
        }),
    decreases chain[hash].number,
{
    reveal_with_fuel(searched, 3);
    reveal_with_fuel(never_stuck, 3);
    let next = (base + 1) as BlockNumber;
    let parent = chain[hash].parent_hash;
    reaches_between(chain, hash, base, next);
    assert(reaches(chain, parent, base));
    if chain[hash].number > next {
        search_descends(chain, choice, base, parent, (steps - 2) as nat);
    }
}

/// On a chain that knows the base block and a best block with its ancestors down to the base
/// number, the search never gets stuck and ends, whatever is pruned below. It finds the best
/// block itself if that has the number of the base block, else the ancestor of the best block
/// that stands one above the base number: the child of the base block on the way to the best
/// block, if the best block descends from the base block.
pub proof fn search_finds_the_next_block(
    chain: Map<BlockHash, Header>,
    block: BlockHash,
    best: BlockHash,
)
    requires
        chain.contains_key(block),
        reaches(chain, best, chain[block].number),
    ensures
        ({
            let base = chain[block].number;
            let steps = (3 + 2 * (chain[best].number - base)) as nat;
            let choice = Ok::<BlockHash, VoterError>(best);
            let start = TargetSearch::Base { block };
            &&& never_stuck(start, chain, choice, steps)
            &&& searched(start, chain, choice, steps) == (TargetSearch::Finished {
                found: Ok(
                    Some(
                        if chain[best].number == base {
                            (base, best)
                        } else {
                            let next = (base + 1) as BlockNumber;
                            (next, ancestor_at(chain, best, next))
                        },
                    ),
                ),
            })
            &&& chain[best].number > base && ancestor_at(chain, best, base) == block
                ==> chain[ancestor_at(chain, best, (base + 1) as BlockNumber)].parent_hash == block
        }),
{
    reveal_with_fuel(searched, 4);
    reveal_with_fuel(never_stuck, 4);
    let base = chain[block].number;
    let choice = Ok::<BlockHash, VoterError>(best);
    if chain[best].number > base {
        reaches_between(chain, best, base, (base + 1) as BlockNumber);
        search_descends(chain, choice, base, best, (2 * (chain[best].number - base)) as nat);
    }
}

/// Where the chain does not know the base block, or no best block can be chosen, there is
/// nothing to propose.
pub proof fn search_can_find_nothing(
    chain: Map<BlockHash, Header>,
    block: BlockHash,
    choice: Result<BlockHash, VoterError>,
)
    requires
        !chain.contains_key(block) || choice is Err,
    ensures
        never_stuck(TargetSearch::Base { block }, chain, choice, 2),
        searched(TargetSearch::Base { block }, chain, choice, 2) == (TargetSearch::Finished {
            found: Ok(None),
        }),
{
    reveal_with_fuel(searched, 3);
    reveal_with_fuel(never_stuck, 3);
}

/// A search goes on with just those events that answer what it asks for: a header, or a failure to
/// read one, where it asks for a header, and a choice, or a failure to choose, where it asks for
/// a choice. It cannot go on without a header but at the base block, nor with a parent that
/// stands below the base block.
pub proof fn answer_is_of_the_kind_asked_for(search: TargetSearch, event: TargetEvent)
    ensures
        search.is_answered_by(event) <==> match (search.next_action(), event) {
            (TargetAction::ReadHeader(_), TargetEvent::Header(Ok(Some(header)))) => {
                search matches TargetSearch::Parent { base, .. } ==> header.number >= base
            },
            (TargetAction::ReadHeader(_), TargetEvent::Header(Ok(None))) => search is Base,
            (TargetAction::ReadHeader(_), TargetEvent::Header(Err(_))) => true,
            (TargetAction::ChooseTarget(_), TargetEvent::Chosen(_)) => true,
            _ => false,
        },
        search.next_action() is Stop <==> search is Finished,
{
}

/// A failure ends the search: in that failure if it is one to read the header of the base block,
/// and with nothing to propose otherwise, as an unknown base block does.
pub proof fn failure_ends_the_search(search: TargetSearch, event: TargetEvent)
    requires
        search.is_answered_by(event),
    ensures
        match event {
            TargetEvent::Header(Err(error)) => search.after(event) == (TargetSearch::Finished {
                found: if search is Base {
                    Err(error)
                } else {
                    Ok(None)
                },
            }),
            TargetEvent::Header(Ok(None)) => search.after(event) == (TargetSearch::Finished {
                found: Ok(None),
            }),
            TargetEvent::Chosen(Err(_)) => search.after(event) == (TargetSearch::Finished {
                found: Ok(None),
            }),
            _ => !(search.after(event) matches TargetSearch::Finished { found: Ok(None) })
                && !(search.after(event) matches TargetSearch::Finished { found: Err(_) }),
        },
{
}

/// The header that an event hands over.
spec fn header_in(event: TargetEvent) -> Header {
    event->Header_0->Ok_0->0
}

/// The search after the first `k` events of a run.
spec fn search_at(block: BlockHash, events: Seq<TargetEvent>, k: int) -> TargetSearch {
    let base = header_in(events[0]).number;
    let before = header_in(events[k - 1]);
    let current = header_in(events[k - 2]);
    if k == 0 {
        TargetSearch::Base { block }
    } else if k == 1 {
        TargetSearch::Choice { block, base }
    } else if k == 2 {
        TargetSearch::Target { base, target: events[1]->Chosen_0->Ok_0 }
    } else if k == 3 && before.number == base {
        TargetSearch::Finished { found: Ok(Some((before.number, before.hash))) }
    } else if k % 2 == 1 {
        TargetSearch::Parent { base, current: before }
    } else if before.number == base {
        TargetSearch::Finished { found: Ok(Some((current.number, current.hash))) }
    } else {
        TargetSearch::Descend { base, current }
    }
}

/// A run has come to where its first events lead.
proof fn run_has_come_to(
    block: BlockHash,
    run: Seq<TargetSearch>,
    events: Seq<TargetEvent>,
    k: int,
)
    requires
        run.len() == events.len() + 1,
        run[0] == (TargetSearch::Base { block }),
        forall|i: int|
            0 <= i < events.len() ==> run[i].is_answered_by(#[trigger] events[i]) && run[i + 1]
                == run[i].after(events[i]),
        forall|i: int|
            0 <= i < events.len() ==> {
                ||| #[trigger] events[i] matches TargetEvent::Header(Ok(Some(_)))
                ||| events[i] matches TargetEvent::Chosen(Ok(_))
            },
        0 <= k < run.len(),
    ensures
        run[k] == search_at(block, events, k),
    decreases k,
{
    if k > 0 {
        run_has_come_to(block, run, events, k - 1);
        assert(run[k - 1].is_answered_by(events[k - 1]));
        assert(run[k] == run[k - 1].after(events[k - 1]));
    }
}

/// The course of a search as long as nothing fails: it reads the header of the base block, has the
/// best block on top of it chosen, and reads the header of that. If that has the number of the
/// base block, it is found. Otherwise, with it as the first current block, the search reads the
/// header of the parent of the current block; if the parent has the number of the base block, the
/// current block is found, else the parent is read once more and becomes the current block.
pub proof fn search_goes_down_from_the_best_block(
    block: BlockHash,
    run: Seq<TargetSearch>,
    events: Seq<TargetEvent>,
    k: int,
)
    requires
        run.len() == events.len() + 1,
        run[0] == (TargetSearch::Base { block }),
        forall|i: int|
            0 <= i < events.len() ==> run[i].is_answered_by(#[trigger] events[i]) && run[i + 1]
                == run[i].after(events[i]),
        forall|i: int|
            0 <= i < events.len() ==> {
                ||| #[trigger] events[i] matches TargetEvent::Header(Ok(Some(_)))
                ||| events[i] matches TargetEvent::Chosen(Ok(_))
            },
        0 <= k < run.len(),
    ensures
        ({
            let action = run[k].next_action();
            let base = events[0]->Header_0->Ok_0->0;
            let before = events[k - 1]->Header_0->Ok_0->0;
            let current = events[k - 2]->Header_0->Ok_0->0;
            &&& k == 0 ==> action == TargetAction::ReadHeader(block)
            &&& k == 1 ==> action == TargetAction::ChooseTarget(block)
            &&& k == 2 ==> action == TargetAction::ReadHeader(events[1]->Chosen_0->Ok_0)
            &&& k == 3 && before.number == base.number ==> run[k] == (TargetSearch::Finished {
                found: Ok(Some((before.number, before.hash))),
            })
            &&& k == 3 && before.number != base.number ==> action == TargetAction::ReadHeader(
                before.parent_hash,
            )
            &&& k > 3 && k % 2 == 0 && before.number == base.number ==> run[k] == (
            TargetSearch::Finished { found: Ok(Some((current.number, current.hash))) })
            &&& k > 3 && k % 2 == 0 && before.number != base.number ==> action
                == TargetAction::ReadHeader(current.parent_hash)
            &&& k > 3 && k % 2 == 1 ==> action == TargetAction::ReadHeader(before.parent_hash)
        }),
{
    run_has_come_to(block, run, events, k);
}

} // verus!
