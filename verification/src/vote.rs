//! What this voter has already voted in a round.
use crate::primitives::{AuthorityId, Precommit, Prevote, Proposal};
use vstd::prelude::*;

verus! {

/// The votes cast by this voter already during a prior run of the program.
#[derive(Clone, Copy, Debug, PartialEq)]
pub enum Vote {
    /// Has cast a proposal.
    Proposal(Proposal),
    /// Has cast a prevote.
    Prevote(Option<Proposal>, Prevote),
    /// Has cast a precommit (implies prevote.)
    Precommit(Option<Proposal>, Prevote, Precommit),
}

/// Whether we've voted already during a prior run of the program.
#[derive(Clone, Copy, Debug, PartialEq)]
pub enum HasVoted {
    /// Has not voted already in this round.
    No,
    /// Has voted in this round.
    Yes(AuthorityId, Vote),
}

impl HasVoted {
    /// The proposal that was cast.
    pub open spec fn cast_proposal(self) -> Option<Proposal> {
        match self {
            HasVoted::No => None,
            HasVoted::Yes(_, Vote::Proposal(proposal)) => Some(proposal),
            HasVoted::Yes(_, Vote::Prevote(proposal, _)) => proposal,
            HasVoted::Yes(_, Vote::Precommit(proposal, _, _)) => proposal,
        }
    }

    /// The prevote that was cast.
    pub open spec fn cast_prevote(self) -> Option<Prevote> {
        match self {
            HasVoted::Yes(_, Vote::Prevote(_, prevote)) => Some(prevote),
            HasVoted::Yes(_, Vote::Precommit(_, prevote, _)) => Some(prevote),
            _ => None,
        }
    }

    /// The precommit that was cast.
    pub open spec fn cast_precommit(self) -> Option<Precommit> {
        match self {
            HasVoted::Yes(_, Vote::Precommit(_, _, precommit)) => Some(precommit),
            _ => None,
        }
    }

    /// Returns the proposal we should vote with (if any.)
    pub fn proposal(&self) -> (found: Option<&Proposal>)
        ensures
            match found {
                Some(proposal) => self.cast_proposal() == Some(*proposal),
                None => self.cast_proposal() is None,
            },
            match *self {
                HasVoted::Yes(_, Vote::Proposal(proposal)) => found == Some(&proposal),
                HasVoted::Yes(_, Vote::Prevote(Some(proposal), _)) => found == Some(&proposal),
                HasVoted::Yes(_, Vote::Precommit(Some(proposal), _, _)) => found == Some(&proposal),
                _ => found is None,
            },
    {
        match self {
            HasVoted::Yes(_, Vote::Proposal(proposal)) => Some(proposal),
            HasVoted::Yes(_, Vote::Prevote(proposal, _)) => proposal.as_ref(),
            HasVoted::Yes(_, Vote::Precommit(proposal, _, _)) => proposal.as_ref(),
            HasVoted::No => None,
        }
    }

    /// Returns the prevote we should vote with (if any.)
    pub fn prevote(&self) -> (found: Option<&Prevote>)
        ensures
            match found {
                Some(prevote) => self.cast_prevote() == Some(*prevote),
                None => self.cast_prevote() is None,
            },
            match *self {
                HasVoted::Yes(_, Vote::Prevote(_, prevote)) => found == Some(&prevote),
                HasVoted::Yes(_, Vote::Precommit(_, prevote, _)) => found == Some(&prevote),
                _ => found is None,
            },
    {
        match self {
            HasVoted::Yes(_, Vote::Prevote(_, prevote)) => Some(prevote),
            HasVoted::Yes(_, Vote::Precommit(_, prevote, _)) => Some(prevote),
            _ => None,
        }
    }

    /// Returns the precommit we should vote with (if any.)
    pub fn precommit(&self) -> (found: Option<&Precommit>)
        ensures
            match found {
                Some(precommit) => self.cast_precommit() == Some(*precommit),
                None => self.cast_precommit() is None,
            },
            match *self {
                HasVoted::Yes(_, Vote::Precommit(_, _, precommit)) => found == Some(&precommit),
                _ => found is None,
            },
    {
        match self {
            HasVoted::Yes(_, Vote::Precommit(_, _, precommit)) => Some(precommit),
            _ => None,
        }
    }

    /// Returns true if the voter can still propose, false otherwise.
    pub fn can_proposal(&self) -> (can: bool)
        ensures
            can == (self.cast_proposal() is None),
            !can <==> {
                ||| *self matches HasVoted::Yes(_, Vote::Proposal(_))
                ||| *self matches HasVoted::Yes(_, Vote::Prevote(Some(_), _))
                ||| *self matches HasVoted::Yes(_, Vote::Precommit(Some(_), _, _))
            },
    {
        self.proposal().is_none()
    }

    /// Returns true if the voter can still prevote, false otherwise.
    pub fn can_prevote(&self) -> (can: bool)
        ensures
            can == (self.cast_prevote() is None),
            !can <==> {
                ||| *self matches HasVoted::Yes(_, Vote::Prevote(_, _))
                ||| *self matches HasVoted::Yes(_, Vote::Precommit(_, _, _))
            },
    {
        self.prevote().is_none()
    }

    /// Returns true if the voter can still precommit, false otherwise.
    pub fn can_commit(&self) -> (can: bool)
        ensures
            can == (self.cast_precommit() is None),
            !can <==> (*self matches HasVoted::Yes(_, Vote::Precommit(_, _, _))),
    {
        self.precommit().is_none()
    }
}

/// What was cast is what the vote holds, whoever cast it: a precommit, its prevote and the
/// proposal before them, a prevote and the proposal before it, a proposal alone, or nothing.
pub proof fn cast_is_what_the_vote_holds(
    id: AuthorityId,
    before: Option<Proposal>,
    proposal: Proposal,
    prevote: Prevote,
    precommit: Precommit,
)
    ensures
        ({
            let proposed = HasVoted::Yes(id, Vote::Proposal(proposal));
            let prevoted = HasVoted::Yes(id, Vote::Prevote(before, prevote));
            let precommitted = HasVoted::Yes(id, Vote::Precommit(before, prevote, precommit));
            &&& proposed.cast_proposal() == Some(proposal)
            &&& proposed.cast_prevote() is None
            &&& proposed.cast_precommit() is None
            &&& prevoted.cast_proposal() == before
            &&& prevoted.cast_prevote() == Some(prevote)
            &&& prevoted.cast_precommit() is None
            &&& precommitted.cast_proposal() == before
            &&& precommitted.cast_prevote() == Some(prevote)
            &&& precommitted.cast_precommit() == Some(precommit)
            &&& HasVoted::No.cast_proposal() is None
            &&& HasVoted::No.cast_prevote() is None
            &&& HasVoted::No.cast_precommit() is None
        }),
{
}

/// Who has cast a precommit has cast a prevote too, so that it can do neither again.
pub proof fn precommit_implies_prevote(has_voted: HasVoted)
    ensures
        has_voted.cast_precommit() is Some ==> has_voted.cast_prevote() is Some,
{
}

/// Not to have voted is to have cast nothing: a voter that has voted can find a proposal or a
/// prevote of its own to repeat.
pub proof fn no_vote_iff_nothing_cast(has_voted: HasVoted)
    ensures
        has_voted is No <==> {
            &&& has_voted.cast_proposal() is None
            &&& has_voted.cast_prevote() is None
            &&& has_voted.cast_precommit() is None
        },
{
}

} // verus!
