//! The finalization of a block.
//!
//! 1. Check if the block is already finalized and has the expected hash.
//! 2. Apply authority set changes.
//! 3. Apply finality to the block, and store the justification where one is due.
//! 4. Update the best justification.
//! 5. Generate a new authority set if a change was enacted.
//!
//! A [`Finalization`] asks for one thing at a time ([`Finalization::action`]). Whoever runs it
//! does that and hands back what came of it ([`Finalization::advance`]), until it is finished.
use crate::primitives::{
    same_bytes, AuthorityList, BlockHash, BlockNumber, EngineId, RoundNumber, SetId, SignedCommit,
    VoterError,
};
use vstd::prelude::*;

verus! {

/// A proof of finality in the form in which it is stored and sent.
#[derive(Debug, PartialEq, Eq)]
pub struct TendermintJustification {
    pub encoded: Vec<u8>,
}

/// The precommits that finalize a block.
#[derive(Debug, PartialEq, Eq)]
pub struct FinalizedCommit {
    pub target_hash: BlockHash,
    pub target_number: BlockNumber,
    pub commits: Vec<SignedCommit>,
}

/// On what the finalization rests: a justification, or the precommits of a round.
#[derive(Debug, PartialEq, Eq)]
pub enum JustificationOrCommit {
    Justification(TendermintJustification),
    Commit((RoundNumber, FinalizedCommit)),
}

impl From<(RoundNumber, FinalizedCommit)> for JustificationOrCommit {
    fn from(commit: (RoundNumber, FinalizedCommit)) -> (source: JustificationOrCommit)
        ensures
            source == JustificationOrCommit::Commit(commit),
    {
        JustificationOrCommit::Commit(commit)
    }
}

impl vstd::std_specs::convert::FromSpecImpl<(RoundNumber, FinalizedCommit)>
    for JustificationOrCommit {
    open spec fn obeys_from_spec() -> bool {
        true
    }

    open spec fn from_spec(commit: (RoundNumber, FinalizedCommit)) -> JustificationOrCommit {
        JustificationOrCommit::Commit(commit)
    }
}

impl From<TendermintJustification> for JustificationOrCommit {
    fn from(justification: TendermintJustification) -> (source: JustificationOrCommit)
        ensures
            source == JustificationOrCommit::Justification(justification),
    {
        JustificationOrCommit::Justification(justification)
    }
}

impl vstd::std_specs::convert::FromSpecImpl<TendermintJustification> for JustificationOrCommit {
    open spec fn obeys_from_spec() -> bool {
        true
    }

    open spec fn from_spec(justification: TendermintJustification) -> JustificationOrCommit {
        JustificationOrCommit::Justification(justification)
    }
}

/// What became of the authority set when its changes were applied.
#[derive(Clone, Copy, Debug, PartialEq, Eq)]
pub struct ChangeStatus {
    /// Whether anything in it has changed.
    pub changed: bool,
    /// The block that enacted a new set, if one did.
    pub new_set_block: Option<(BlockHash, BlockNumber)>,
}

/// A new authority set and the block that enacted it.
#[derive(Debug, PartialEq, Eq)]
pub struct NewAuthoritySet {
    pub canon_hash: BlockHash,
    pub canon_number: BlockNumber,
    pub set_id: SetId,
    pub authorities: AuthorityList,
}

/// What the voter is told to do.
#[derive(Debug, PartialEq, Eq)]
pub enum VoterCommand {
    /// Go on with a new authority set.
    ChangeAuthorities(NewAuthoritySet),
}

/// Why the voter cannot simply go on.
#[derive(Debug, PartialEq, Eq)]
pub enum CommandOrError {
    Error(VoterError),
    VoterCommand(VoterCommand),
}

/// How far the finalization has come.
#[derive(Debug, PartialEq)]
pub enum Phase {
    /// The number of the last finalized block is to be read.
    Status { source: JustificationOrCommit },
    /// The hash that the chain has at the number of the block is to be read, or, for a block above
    /// the last finalized one, the hash of that.
    Canonical { source: JustificationOrCommit, finalized_number: BlockNumber },
    /// An import is to be opened, in which all that follows is gathered.
    Begin { source: JustificationOrCommit },
    /// The authority set changes are to be applied.
    Changes { source: JustificationOrCommit },
    /// The number of the last finalized block is to be read again, to see if a justification is
    /// due.
    LastFinalized {
        round: RoundNumber,
        commit: FinalizedCommit,
        period: BlockNumber,
        change: ChangeStatus,
    },
    /// A justification is to be made from the precommits.
    Build { round: RoundNumber, commit: FinalizedCommit, change: ChangeStatus, due: bool },
    /// Those who wait for justifications are to be told.
    Notify { justification: TendermintJustification, change: ChangeStatus, due: bool },
    /// Finality is to be applied to the block.
    Apply { justification: TendermintJustification, change: ChangeStatus, due: bool },
    /// The justification is to be stored as the best one.
    Best { justification: TendermintJustification, change: ChangeStatus },
    /// The authorities of the new set are to be read.
    Current { canon_hash: BlockHash, canon_number: BlockNumber, changed: bool },
    /// The authority set is to be written.
    Write { new_set: Option<NewAuthoritySet> },
    /// What was gathered is to be committed to the database.
    Commit { new_set: Option<NewAuthoritySet> },
    /// The finalization is over; `restore` says whether the authority set is to be put back to
    /// what it was before its changes were applied.
    Finished { result: Result<(), CommandOrError>, restore: bool },
}

/// The finalization of a block.
#[derive(Debug, PartialEq)]
pub struct Finalization {
    /// Under which id a justification is stored.
    pub engine_id: EngineId,
    pub hash: BlockHash,
    pub number: BlockNumber,
    /// After how many blocks a justification is due, if it is due by number at all.
    pub justification_period: Option<BlockNumber>,
    pub initial_sync: bool,
    pub phase: Phase,
}

/// What the finalization asks for.
#[derive(Debug, PartialEq)]
pub enum FinalityAction<'a> {
    /// Read the number of the last finalized block.
    ReadFinalizedNumber,
    /// Read the hash of the block with the number.
    ReadHash(BlockNumber),
    /// Keep a copy of the authority set, and open an import.
    BeginImport,
    /// Apply the changes of the authority set up to the block.
    ApplyChanges { hash: BlockHash, number: BlockNumber, initial_sync: bool },
    /// Make a justification from the precommits.
    BuildJustification { round: RoundNumber, commit: &'a FinalizedCommit },
    /// Tell those who wait for justifications.
    Notify(&'a TendermintJustification),
    /// Apply finality to the block, and store the justification with it under the engine id if
    /// there is one; `notify` says whether those who follow finality are to be told.
    ApplyFinality {
        hash: BlockHash,
        justification: Option<(EngineId, &'a TendermintJustification)>,
        notify: bool,
    },
    /// Store the justification as the best one.
    StoreBest(&'a TendermintJustification),
    /// Read the authority set.
    ReadAuthorities,
    /// Write the authority set, and the new one if there is one.
    WriteAuthorities(Option<&'a NewAuthoritySet>),
    /// Commit what was gathered to the database.
    CommitImport,
    /// Put the authority set back if `restore` says so; nothing more.
    Stop { restore: bool },
}

/// What is handed to the finalization.
#[derive(Debug, PartialEq)]
pub enum FinalityEvent {
    /// The number of the last finalized block.
    FinalizedNumber(BlockNumber),
    /// The hash that was asked for; `None` where there is no block with the number.
    BlockHash(Result<Option<BlockHash>, VoterError>),
    /// What became of the authority set, or why its changes do not apply.
    Changes(Result<ChangeStatus, String>),
    /// The justification that was made.
    Justification(Result<TendermintJustification, VoterError>),
    /// Those who wait for justifications have been told.
    Notified,
    /// The import was opened, or finality applied, or the best justification stored, or the
    /// authority set written, or all of it committed.
    Done(Result<(), VoterError>),
    /// The number of the authority set and its authorities.
    Authorities(SetId, AuthorityList),
}

/// Whether a justification is due by number: the block is in another period than the last
/// finalized block. As long as only the genesis is finalized, it is due at the end of the first
/// period and nowhere else.
pub open spec fn due_by_number(
    period: BlockNumber,
    last_finalized: BlockNumber,
    number: BlockNumber,
) -> bool {
    &&& last_finalized != 0 || number == period
    &&& last_finalized / period != number / period
}

/// Whether it can be told if a justification is due by number: a period of no blocks is good
/// only as long as the genesis alone is finalized, for a block other than that.
pub open spec fn period_is_usable(
    period: BlockNumber,
    last_finalized: BlockNumber,
    number: BlockNumber,
) -> bool {
    period != 0 || (last_finalized == 0 && number != 0)
}

/// Whether a justification is due by number.
pub fn justification_due(
    period: BlockNumber,
    last_finalized: BlockNumber,
    number: BlockNumber,
) -> (due: bool)
    requires
        period_is_usable(period, last_finalized, number),
    ensures
        due == due_by_number(period, last_finalized, number),
{
    (last_finalized != 0 || number == period) && last_finalized / period != number / period
}

/// The number at which the hash is looked up: that of the block or that of the last finalized
/// block, whichever is lower.
pub open spec fn looked_up(number: BlockNumber, finalized_number: BlockNumber) -> BlockNumber {
    if number <= finalized_number {
        number
    } else {
        finalized_number
    }
}

/// Whether the block is finalized already: it is not above the last finalized block, and is the
/// one that the chain has at its number.
///
/// This can happen after a forced change, when finality has stalled: the voter is then started
/// again at a block that can be lower than the last finalized one.
pub open spec fn is_finalized(
    hash: BlockHash,
    number: BlockNumber,
    finalized_number: BlockNumber,
    canonical_hash: Option<BlockHash>,
) -> bool {
    number <= finalized_number && canonical_hash == Some(hash)
}

/// Whether the block is finalized already, given the hash that the chain has at its number.
pub fn already_finalized(
    hash: &BlockHash,
    number: BlockNumber,
    finalized_number: BlockNumber,
    canonical_hash: &Option<BlockHash>,
) -> (already: bool)
    ensures
        already == is_finalized(*hash, number, finalized_number, *canonical_hash),
        already <==> number <= finalized_number && *canonical_hash == Some(*hash),
{
    match canonical_hash {
        Some(canonical_hash) => number <= finalized_number && same_bytes(hash, canonical_hash),
        None => false,
    }
}

/// The end in an error, after the authority set changes were to be applied.
pub open spec fn failed(error: VoterError) -> Phase {
    Phase::Finished { result: Err(CommandOrError::Error(error)), restore: true }
}

/// What the voter is told in the end.
pub open spec fn concluded(new_set: Option<NewAuthoritySet>) -> Phase {
    Phase::Finished {
        result: match new_set {
            Some(new_set) => Err(
                CommandOrError::VoterCommand(VoterCommand::ChangeAuthorities(new_set)),
            ),
            None => Ok(()),
        },
        restore: false,
    }
}

/// The writing of the authority set if it has changed, else the commit.
pub open spec fn write_if(changed: bool, new_set: Option<NewAuthoritySet>) -> Phase {
    if changed {
        Phase::Write { new_set }
    } else {
        Phase::Commit { new_set }
    }
}

impl Finalization {
    /// Whether the event answers what the finalization asks for.
    pub open spec fn is_answered_by(self, event: FinalityEvent) -> bool {
        match (self.phase, event) {
            (Phase::Status { .. }, FinalityEvent::FinalizedNumber(_)) => true,
            (Phase::Canonical { .. }, FinalityEvent::BlockHash(_)) => true,
            (Phase::Begin { .. }, FinalityEvent::Done(_)) => true,
            (Phase::Changes { .. }, FinalityEvent::Changes(_)) => true,
            (Phase::LastFinalized { period, .. }, FinalityEvent::FinalizedNumber(last)) => {
                period_is_usable(period, last, self.number)
            },
            (Phase::Build { .. }, FinalityEvent::Justification(_)) => true,
            (Phase::Notify { .. }, FinalityEvent::Notified) => true,
            (Phase::Apply { .. }, FinalityEvent::Done(_)) => true,
            (Phase::Best { .. }, FinalityEvent::Done(_)) => true,
            (Phase::Current { .. }, FinalityEvent::Authorities(_, _)) => true,
            (Phase::Write { .. }, FinalityEvent::Done(_)) => true,
            (Phase::Commit { .. }, FinalityEvent::Done(_)) => true,
            _ => false,
        }
    }

    /// What the finalization asks for next.
    pub open spec fn next_action(&self) -> FinalityAction<'_> {
        match &self.phase {
            Phase::Status { .. } => FinalityAction::ReadFinalizedNumber,
            Phase::Canonical { finalized_number, .. } => FinalityAction::ReadHash(
                looked_up(self.number, *finalized_number),
            ),
            Phase::Begin { .. } => FinalityAction::BeginImport,
            Phase::Changes { .. } => FinalityAction::ApplyChanges {
                hash: self.hash,
                number: self.number,
                initial_sync: self.initial_sync,
            },
            Phase::LastFinalized { .. } => FinalityAction::ReadFinalizedNumber,
            Phase::Build { round, commit, .. } => FinalityAction::BuildJustification {
                round: *round,
                commit,
            },
            Phase::Notify { justification, .. } => FinalityAction::Notify(justification),
            Phase::Apply { justification, due, .. } => FinalityAction::ApplyFinality {
                hash: self.hash,
                justification: if *due {
                    Some((self.engine_id, justification))
                } else {
                    None
                },
                notify: true,
            },
            Phase::Best { justification, .. } => FinalityAction::StoreBest(justification),
            Phase::Current { .. } => FinalityAction::ReadAuthorities,
            Phase::Write { new_set } => FinalityAction::WriteAuthorities(
                match new_set {
                    Some(new_set) => Some(new_set),
                    None => None,
                },
            ),
            Phase::Commit { .. } => FinalityAction::CommitImport,
            Phase::Finished { restore, .. } => FinalityAction::Stop { restore: *restore },
        }
    }

    /// What follows once it is known what became of the authority set.
    pub open spec fn after_changes(
        self,
        source: JustificationOrCommit,
        change: ChangeStatus,
    ) -> Phase {
        match source {
            JustificationOrCommit::Justification(justification) => {
                Phase::Notify { justification, change, due: true }
            },
            JustificationOrCommit::Commit((round, commit)) => match self.justification_period {
                Some(period) if change.new_set_block is None => {
                    Phase::LastFinalized { round, commit, period, change }
                },
                _ => Phase::Build { round, commit, change, due: change.new_set_block is Some },
            },
        }
    }

    /// The phase after an event.
    pub open spec fn phase_after(self, event: FinalityEvent) -> Phase {
        match (self.phase, event) {
            (Phase::Status { source }, FinalityEvent::FinalizedNumber(finalized_number)) => {
                Phase::Canonical { source, finalized_number }
            },
            (Phase::Canonical { source, finalized_number }, FinalityEvent::BlockHash(found)) => {
                match found {
                    Err(error) => Phase::Finished {
                        result: Err(CommandOrError::Error(error)),
                        restore: false,
                    },
                    Ok(canonical_hash) => if is_finalized(
                        self.hash,
                        self.number,
                        finalized_number,
                        canonical_hash,
                    ) {
                        Phase::Finished { result: Ok(()), restore: false }
                    } else {
                        Phase::Begin { source }
                    },
                }
            },
            (Phase::Begin { source }, FinalityEvent::Done(done)) => match done {
                Ok(()) => Phase::Changes { source },
                Err(error) => failed(error),
            },
            (Phase::Changes { source }, FinalityEvent::Changes(applied)) => match applied {
                Ok(change) => self.after_changes(source, change),
                Err(message) => failed(VoterError::Safety(message)),
            },
            (
                Phase::LastFinalized { round, commit, period, change },
                FinalityEvent::FinalizedNumber(last),
            ) => {
                let due = due_by_number(period, last, self.number);
                Phase::Build { round, commit, change, due }
            },
            (Phase::Build { change, due, .. }, FinalityEvent::Justification(made)) => match made {
                Ok(justification) => Phase::Notify { justification, change, due },
                Err(error) => failed(error),
            },
            (Phase::Notify { justification, change, due }, FinalityEvent::Notified) => {
                Phase::Apply { justification, change, due }
            },
            (Phase::Apply { justification, change, .. }, FinalityEvent::Done(done)) => match done {
                Ok(()) => Phase::Best { justification, change },
                Err(error) => failed(error),
            },
            (Phase::Best { change, .. }, FinalityEvent::Done(done)) => match done {
                Ok(()) => match change.new_set_block {
                    Some((canon_hash, canon_number)) => {
                        Phase::Current { canon_hash, canon_number, changed: change.changed }
                    },
                    None => write_if(change.changed, None),
                },
                Err(error) => failed(error),
            },
            (
                Phase::Current { canon_hash, canon_number, changed },
                FinalityEvent::Authorities(set_id, authorities),
            ) => {
                let new_set = NewAuthoritySet { canon_hash, canon_number, set_id, authorities };
                write_if(changed, Some(new_set))
            },
            (Phase::Write { new_set }, FinalityEvent::Done(done)) => match done {
                Ok(()) => Phase::Commit { new_set },
                Err(error) => failed(error),
            },
            (Phase::Commit { new_set }, FinalityEvent::Done(done)) => match done {
                Ok(()) => concluded(new_set),
                Err(error) => failed(error),
            },
            (phase, _) => phase,
        }
    }

    /// The finalization after an event.
    pub open spec fn after(self, event: FinalityEvent) -> Finalization {
        Finalization { phase: self.phase_after(event), ..self }
    }
}

/// Starts the finalization of the block.
pub fn finalize_block(
    engine_id: EngineId,
    hash: BlockHash,
    number: BlockNumber,
    justification_period: Option<BlockNumber>,
    source: JustificationOrCommit,
    initial_sync: bool,
) -> (finalization: Finalization)
    ensures
        finalization == (Finalization {
            engine_id,
            hash,
            number,
            justification_period,
            initial_sync,
            phase: Phase::Status { source },
        }),
{
    let phase = Phase::Status { source };
    Finalization { engine_id, hash, number, justification_period, initial_sync, phase }
}

/// The end in an error, after the authority set changes were to be applied.
fn fail(error: VoterError) -> (phase: Phase)
    ensures
        phase == failed(error),
{
    Phase::Finished { result: Err(CommandOrError::Error(error)), restore: true }
}

/// What the voter is told in the end.
fn conclude(new_set: Option<NewAuthoritySet>) -> (phase: Phase)
    ensures
        phase == concluded(new_set),
{
    let result = match new_set {
        Some(new_set) => Err(
            CommandOrError::VoterCommand(VoterCommand::ChangeAuthorities(new_set)),
        ),
        None => Ok(()),
    };
    Phase::Finished { result, restore: false }
}

/// The writing of the authority set if it has changed, else the commit.
fn write_or_commit(changed: bool, new_set: Option<NewAuthoritySet>) -> (phase: Phase)
    ensures
        phase == write_if(changed, new_set),
{
    if changed {
        Phase::Write { new_set }
    } else {
        Phase::Commit { new_set }
    }
}

impl Finalization {
    /// What the finalization asks for next.
    pub fn action(&self) -> (action: FinalityAction<'_>)
        ensures
            action == self.next_action(),
    {
        match &self.phase {
            Phase::Status { .. } => FinalityAction::ReadFinalizedNumber,
            Phase::Canonical { finalized_number, .. } => FinalityAction::ReadHash(
                if self.number <= *finalized_number {
                    self.number
                } else {
                    *finalized_number
                },
            ),
            Phase::Begin { .. } => FinalityAction::BeginImport,
            Phase::Changes { .. } => FinalityAction::ApplyChanges {
                hash: self.hash,
                number: self.number,
                initial_sync: self.initial_sync,
            },
            Phase::LastFinalized { .. } => FinalityAction::ReadFinalizedNumber,
            Phase::Build { round, commit, .. } => FinalityAction::BuildJustification {
                round: *round,
                commit,
            },
            Phase::Notify { justification, .. } => FinalityAction::Notify(justification),
            Phase::Apply { justification, due, .. } => FinalityAction::ApplyFinality {
                hash: self.hash,
                justification: if *due {
                    Some((self.engine_id, justification))
                } else {
                    None
                },
                notify: true,
            },
            Phase::Best { justification, .. } => FinalityAction::StoreBest(justification),
            Phase::Current { .. } => FinalityAction::ReadAuthorities,
            Phase::Write { new_set } => FinalityAction::WriteAuthorities(new_set.as_ref()),
            Phase::Commit { .. } => FinalityAction::CommitImport,
            Phase::Finished { restore, .. } => FinalityAction::Stop { restore: *restore },
        }
    }

    /// Whether the finalization can go on with the event.
    pub fn accepts(&self, event: &FinalityEvent) -> (accepted: bool)
        ensures
            accepted == self.is_answered_by(*event),
    {
        match (&self.phase, event) {
            (Phase::Status { .. }, FinalityEvent::FinalizedNumber(_)) => true,
            (Phase::Canonical { .. }, FinalityEvent::BlockHash(_)) => true,
            (Phase::Begin { .. }, FinalityEvent::Done(_)) => true,
            (Phase::Changes { .. }, FinalityEvent::Changes(_)) => true,
            (Phase::LastFinalized { period, .. }, FinalityEvent::FinalizedNumber(last)) => {
                *period != 0 || (*last == 0 && self.number != 0)
            },
            (Phase::Build { .. }, FinalityEvent::Justification(_)) => true,
            (Phase::Notify { .. }, FinalityEvent::Notified) => true,
            (Phase::Apply { .. }, FinalityEvent::Done(_)) => true,
            (Phase::Best { .. }, FinalityEvent::Done(_)) => true,
            (Phase::Current { .. }, FinalityEvent::Authorities(_, _)) => true,
            (Phase::Write { .. }, FinalityEvent::Done(_)) => true,
            (Phase::Commit { .. }, FinalityEvent::Done(_)) => true,
            _ => false,
        }
    }

    /// Goes on with the event.
    pub fn advance(self, event: FinalityEvent) -> (finalization: Finalization)
        requires
            self.is_answered_by(event),
        ensures
            finalization == self.after(event),
    {
        let Finalization { engine_id, hash, number, justification_period, initial_sync, phase } =
            self;
        let phase = match (phase, event) {
            (Phase::Status { source }, FinalityEvent::FinalizedNumber(finalized_number)) => {
                Phase::Canonical { source, finalized_number }
            },
            (Phase::Canonical { source, finalized_number }, FinalityEvent::BlockHash(found)) => {
                match found {
                    Err(error) => Phase::Finished {
                        result: Err(CommandOrError::Error(error)),
                        restore: false,
                    },
                    Ok(canonical_hash) => if already_finalized(
                        &hash,
                        number,
                        finalized_number,
                        &canonical_hash,
                    ) {
                        Phase::Finished { result: Ok(()), restore: false }
                    } else {
                        Phase::Begin { source }
                    },
                }
            },
            (Phase::Begin { source }, FinalityEvent::Done(done)) => match done {
                Ok(()) => Phase::Changes { source },
                Err(error) => fail(error),
            },
            (Phase::Changes { source }, FinalityEvent::Changes(applied)) => match applied {
                Ok(change) => match source {
                    JustificationOrCommit::Justification(justification) => {
                        Phase::Notify { justification, change, due: true }
                    },
                    JustificationOrCommit::Commit((round, commit)) => {
                        let enacted = change.new_set_block.is_some();
                        match justification_period {
                            Some(period) if !enacted => {
                                Phase::LastFinalized { round, commit, period, change }
                            },
                            _ => Phase::Build { round, commit, change, due: enacted },
                        }
                    },
                },
                Err(message) => fail(VoterError::Safety(message)),
            },
            (
                Phase::LastFinalized { round, commit, period, change },
                FinalityEvent::FinalizedNumber(last),
            ) => {
                let due = justification_due(period, last, number);
                Phase::Build { round, commit, change, due }
            },
            (Phase::Build { change, due, .. }, FinalityEvent::Justification(made)) => match made {
                Ok(justification) => Phase::Notify { justification, change, due },
                Err(error) => fail(error),
            },
            (Phase::Notify { justification, change, due }, FinalityEvent::Notified) => {
                Phase::Apply { justification, change, due }
            },
            (Phase::Apply { justification, change, .. }, FinalityEvent::Done(done)) => match done {
                Ok(()) => Phase::Best { justification, change },
                Err(error) => fail(error),
            },
            (Phase::Best { change, .. }, FinalityEvent::Done(done)) => match done {
                Ok(()) => match change.new_set_block {
                    Some((canon_hash, canon_number)) => {
                        Phase::Current { canon_hash, canon_number, changed: change.changed }
                    },
                    None => write_or_commit(change.changed, None),
                },
                Err(error) => fail(error),
            },
            (
                Phase::Current { canon_hash, canon_number, changed },
                FinalityEvent::Authorities(set_id, authorities),
            ) => {
                let new_set = NewAuthoritySet { canon_hash, canon_number, set_id, authorities };
                write_or_commit(changed, Some(new_set))
            },
            (Phase::Write { new_set }, FinalityEvent::Done(done)) => match done {
                Ok(()) => Phase::Commit { new_set },
                Err(error) => fail(error),
            },
            (Phase::Commit { new_set }, FinalityEvent::Done(done)) => match done {
                Ok(()) => conclude(new_set),
                Err(error) => fail(error),
            },
            (phase, _) => phase,
        };
        Finalization { engine_id, hash, number, justification_period, initial_sync, phase }
    }
}

/// What chain, authority set and database give back when asked in the course of a finalization.
pub struct Replies {
    pub finalized_number: BlockNumber,
    pub canonical_hash: Result<Option<BlockHash>, VoterError>,
    pub begun: Result<(), VoterError>,
    pub changes: Result<ChangeStatus, String>,
    pub last_finalized: BlockNumber,
    pub made: Result<TendermintJustification, VoterError>,
    pub applied: Result<(), VoterError>,
    pub best_stored: Result<(), VoterError>,
    pub set_id: SetId,
    pub authorities: AuthorityList,
    pub written: Result<(), VoterError>,
    pub committed: Result<(), VoterError>,
}

impl Replies {
    /// The reply to what is asked for in the phase.
    pub open spec fn to(self, phase: Phase) -> FinalityEvent {
        match phase {
            Phase::Status { .. } => FinalityEvent::FinalizedNumber(self.finalized_number),
            Phase::Canonical { .. } => FinalityEvent::BlockHash(self.canonical_hash),
            Phase::Begin { .. } => FinalityEvent::Done(self.begun),
            Phase::Changes { .. } => FinalityEvent::Changes(self.changes),
            Phase::LastFinalized { .. } => FinalityEvent::FinalizedNumber(self.last_finalized),
            Phase::Build { .. } => FinalityEvent::Justification(self.made),
            Phase::Notify { .. } => FinalityEvent::Notified,
            Phase::Apply { .. } => FinalityEvent::Done(self.applied),
            Phase::Best { .. } => FinalityEvent::Done(self.best_stored),
            Phase::Current { .. } => FinalityEvent::Authorities(self.set_id, self.authorities),
            Phase::Write { .. } => FinalityEvent::Done(self.written),
            Phase::Commit { .. } => FinalityEvent::Done(self.committed),
            Phase::Finished { .. } => FinalityEvent::Notified,
        }
    }

    /// The new authority set, if the block enacts one.
    pub open spec fn new_set(self) -> Option<NewAuthoritySet> {
        match self.changes {
            Ok(ChangeStatus { new_set_block: Some((canon_hash, canon_number)), .. }) => Some(
                NewAuthoritySet {
                    canon_hash,
                    canon_number,
                    set_id: self.set_id,
                    authorities: self.authorities,
                },
            ),
            _ => None,
        }
    }
}

impl Finalization {
    /// Whether a justification has to be stored with the block: where the finalization rests on
    /// one, where the block enacts a new authority set, and where one is due by number.
    pub open spec fn must_store(self, source: JustificationOrCommit, replies: Replies) -> bool {
        ||| source is Justification
        ||| replies.new_set() is Some
        ||| (self.justification_period matches Some(period) && due_by_number(
            period,
            replies.last_finalized,
            self.number,
        ))
    }

    /// Whether it can be told if a justification is due by number, wherever that is asked.
    pub open spec fn has_usable_period(
        self,
        source: JustificationOrCommit,
        replies: Replies,
    ) -> bool {
        source is Commit && replies.new_set() is None ==> (self.justification_period matches Some(
            period,
        ) ==> period_is_usable(period, replies.last_finalized, self.number))
    }

    /// The first failure once the block is found not to be finalized yet, if there is any.
    pub open spec fn first_failure(
        self,
        source: JustificationOrCommit,
        replies: Replies,
    ) -> Option<VoterError> {
        if replies.begun is Err {
            Some(replies.begun->Err_0)
        } else if replies.changes is Err {
            Some(VoterError::Safety(replies.changes->Err_0))
        } else if source is Commit && replies.made is Err {
            Some(replies.made->Err_0)
        } else if replies.applied is Err {
            Some(replies.applied->Err_0)
        } else if replies.best_stored is Err {
            Some(replies.best_stored->Err_0)
        } else if replies.changes->Ok_0.changed && replies.written is Err {
            Some(replies.written->Err_0)
        } else if replies.committed is Err {
            Some(replies.committed->Err_0)
        } else {
            None
        }
    }

    /// How the finalization ends.
    pub open spec fn outcome(self, source: JustificationOrCommit, replies: Replies) -> Phase {
        match replies.canonical_hash {
            Err(error) => Phase::Finished {
                result: Err(CommandOrError::Error(error)),
                restore: false,
            },
            Ok(canonical_hash) => if is_finalized(
                self.hash,
                self.number,
                replies.finalized_number,
                canonical_hash,
            ) {
                Phase::Finished { result: Ok(()), restore: false }
            } else {
                match self.first_failure(source, replies) {
                    Some(error) => failed(error),
                    None => concluded(replies.new_set()),
                }
            },
        }
    }
}

/// The finalization after at most the given number of replies.
pub open spec fn pursued(finalization: Finalization, replies: Replies, steps: nat) -> Finalization
    decreases steps,
{
    if steps == 0 || finalization.phase is Finished {
        finalization
    } else {
        pursued(
            finalization.after(replies.to(finalization.phase)),
            replies,
            (steps - 1) as nat,
        )
    }
}

/// Whether the finalization can go on with each of the first replies.
pub open spec fn never_stuck(finalization: Finalization, replies: Replies, steps: nat) -> bool
    decreases steps,
{
    steps == 0 || finalization.phase is Finished || {
        let event = replies.to(finalization.phase);
        &&& finalization.is_answered_by(event)
        &&& never_stuck(finalization.after(event), replies, (steps - 1) as nat)
    }
}

/// Whatever is replied, a finalization never gets stuck and ends after at most twelve replies:
/// without a change if the block is finalized already, in the first failure if there is one, in
/// a command to the voter if the block enacts a new authority set, and well otherwise.
pub proof fn finalization_comes_to_its_outcome(
    start: Finalization,
    source: JustificationOrCommit,
    replies: Replies,
)
    requires
        start.phase == (Phase::Status { source }),
        start.has_usable_period(source, replies),
    ensures
        never_stuck(start, replies, 12),
        pursued(start, replies, 12).phase == start.outcome(source, replies),
{
    reveal_with_fuel(pursued, 13);
    reveal_with_fuel(never_stuck, 13);
}

/// The authority set is put back just if the finalization fails once the block is found not to
/// be finalized yet; a voter that goes on, or is told of a new set, keeps the changes.
pub proof fn authority_set_is_put_back_on_failure(
    start: Finalization,
    source: JustificationOrCommit,
    replies: Replies,
)
    requires
        replies.canonical_hash is Ok,
    ensures
        start.outcome(source, replies) matches Phase::Finished { result, restore } && (restore
            <==> (result matches Err(CommandOrError::Error(_)))),
{
}

/// A block of the chain that is not above the last finalized one is left alone: nothing is done
/// but to read the number of the last finalized block and the hash at the number of the block,
/// and the finalization ends well after that.
pub proof fn finalized_block_is_left_alone(
    start: Finalization,
    source: JustificationOrCommit,
    replies: Replies,
    steps: nat,
)
    requires
        start.phase == (Phase::Status { source }),
        start.number <= replies.finalized_number,
        replies.canonical_hash == Ok::<Option<BlockHash>, VoterError>(Some(start.hash)),
    ensures
        match pursued(start, replies, steps).next_action() {
            FinalityAction::ReadFinalizedNumber => steps == 0,
            FinalityAction::ReadHash(number) => steps == 1 && number == start.number,
            FinalityAction::Stop { restore } => steps >= 2 && !restore,
            _ => false,
        },
        steps >= 2 ==> pursued(start, replies, steps).phase == (Phase::Finished {
            result: Ok(()),
            restore: false,
        }),
{
    reveal_with_fuel(pursued, 4);
}

/// What holds all along: the block is the one to finalize; the justification is the one that
/// the finalization rests on or the one made from the precommits, and is due just if it has to
/// be stored; and the new authority set is the one that the block enacts.
spec fn keeps_to(
    start: Finalization,
    source: JustificationOrCommit,
    replies: Replies,
    now: Finalization,
) -> bool {
    let change = replies.changes;
    let right = |justification: TendermintJustification|
        match source {
            JustificationOrCommit::Justification(given) => justification == given,
            JustificationOrCommit::Commit(_) => replies.made == Ok::<
                TendermintJustification,
                VoterError,
            >(justification),
        };
    &&& now.engine_id == start.engine_id
    &&& now.hash == start.hash
    &&& now.number == start.number
    &&& now.justification_period == start.justification_period
    &&& now.initial_sync == start.initial_sync
    &&& match now.phase {
        Phase::Status { source: s } => s == source,
        Phase::Canonical { source: s, finalized_number } => {
            &&& s == source
            &&& finalized_number == replies.finalized_number
        },
        Phase::Begin { source: s } => s == source,
        Phase::Changes { source: s } => s == source,
        Phase::LastFinalized { round, commit, period, change: c } => {
            &&& source == JustificationOrCommit::Commit((round, commit))
            &&& start.justification_period == Some(period)
            &&& change == Ok::<ChangeStatus, String>(c)
            &&& c.new_set_block is None
        },
        Phase::Build { round, commit, change: c, due } => {
            &&& source == JustificationOrCommit::Commit((round, commit))
            &&& change == Ok::<ChangeStatus, String>(c)
            &&& due == start.must_store(source, replies)
        },
        Phase::Notify { justification, change: c, due } => {
            &&& right(justification)
            &&& change == Ok::<ChangeStatus, String>(c)
            &&& due == start.must_store(source, replies)
        },
        Phase::Apply { justification, change: c, due } => {
            &&& right(justification)
            &&& change == Ok::<ChangeStatus, String>(c)
            &&& due == start.must_store(source, replies)
        },
        Phase::Best { justification, change: c } => {
            &&& right(justification)
            &&& change == Ok::<ChangeStatus, String>(c)
        },
        Phase::Current { canon_hash, canon_number, changed } => change == Ok::<
            ChangeStatus,
            String,
        >(ChangeStatus { changed, new_set_block: Some((canon_hash, canon_number)) }),
        Phase::Write { new_set } => {
            &&& change is Ok
            &&& change->Ok_0.changed
            &&& new_set == replies.new_set()
        },
        Phase::Commit { new_set } => {
            &&& change is Ok
            &&& new_set == replies.new_set()
        },
        Phase::Finished { .. } => true,
    }
}

/// What holds all along holds after any number of replies.
proof fn pursuit_keeps_to(
    start: Finalization,
    source: JustificationOrCommit,
    replies: Replies,
    now: Finalization,
    steps: nat,
)
    requires
        keeps_to(start, source, replies, now),
    ensures
        keeps_to(start, source, replies, pursued(now, replies, steps)),
    decreases steps,
{
    if steps > 0 && !(now.phase is Finished) {
        let next = now.after(replies.to(now.phase));
        assert(keeps_to(start, source, replies, next));
        pursuit_keeps_to(start, source, replies, next, (steps - 1) as nat);
    }
}

/// Those who wait are told of one justification, and the same is stored as the best one: the one
/// that the finalization rests on, or the one made from the precommits. It is stored with the
/// block, under the engine id, just if it has to be.
pub proof fn one_justification_throughout(
    start: Finalization,
    source: JustificationOrCommit,
    replies: Replies,
    steps: nat,
)
    requires
        start.phase == (Phase::Status { source }),
    ensures
        ({
            let justification = match source {
                JustificationOrCommit::Justification(given) => given,
                JustificationOrCommit::Commit(_) => replies.made->Ok_0,
            };
            match pursued(start, replies, steps).next_action() {
                FinalityAction::BuildJustification { round, commit } => source
                    == JustificationOrCommit::Commit((round, *commit)),
                FinalityAction::Notify(told) => *told == justification,
                FinalityAction::ApplyFinality { justification: stored, .. } => stored
                    == if start.must_store(source, replies) {
                    Some((start.engine_id, &justification))
                } else {
                    None
                },
                FinalityAction::StoreBest(stored) => *stored == justification,
                _ => true,
            }
        }),
{
    pursuit_keeps_to(start, source, replies, start, steps);
}

/// The hash is looked up at the number of the block to finalize, or at that of the last finalized
/// block if that is lower. Changes and finality are applied to the block to finalize, which is
/// told to those who follow finality. The authority set is written only if it has changed, with
/// the new set that the block enacts.
pub proof fn finalization_acts_on_its_block(
    start: Finalization,
    source: JustificationOrCommit,
    replies: Replies,
    steps: nat,
)
    requires
        start.phase == (Phase::Status { source }),
    ensures
        match pursued(start, replies, steps).next_action() {
            FinalityAction::ReadHash(number) => number == looked_up(
                start.number,
                replies.finalized_number,
            ),
            FinalityAction::ApplyChanges { hash, number, initial_sync } => {
                &&& hash == start.hash
                &&& number == start.number
                &&& initial_sync == start.initial_sync
            },
            FinalityAction::ApplyFinality { hash, notify, .. } => hash == start.hash && notify,
            FinalityAction::WriteAuthorities(new_set) => {
                &&& replies.changes is Ok
                &&& replies.changes->Ok_0.changed
                &&& match new_set {
                    Some(new_set) => replies.new_set() == Some(*new_set),
                    None => replies.new_set() is None,
                }
            },
            _ => true,
        },
{
    pursuit_keeps_to(start, source, replies, start, steps);
}

/// A justification is due every period: once more than the genesis is finalized, just if the
/// number of a block after the last finalized one and up to this one is a multiple of the
/// period.
pub proof fn justification_is_due_every_period(
    period: BlockNumber,
    last_finalized: BlockNumber,
    number: BlockNumber,
)
    requires
        period > 0,
        0 < last_finalized <= number,
    ensures
        due_by_number(period, last_finalized, number) <==> exists|k: int|
            last_finalized < #[trigger] (k * period) <= number,
{
    let p = period as int;
    let l = last_finalized as int;
    let n = number as int;
    vstd::arithmetic::div_mod::lemma_fundamental_div_mod(l, p);
    vstd::arithmetic::div_mod::lemma_fundamental_div_mod(n, p);
    vstd::arithmetic::div_mod::lemma_div_is_ordered(l, n, p);
    if l / p != n / p {
        let k = n / p;
        assert(k * p <= n) by (nonlinear_arith)
            requires
                n == p * k + n % p,
                n % p >= 0,
        ;
        assert(l < k * p) by (nonlinear_arith)
            requires
                l == p * (l / p) + l % p,
                l % p < p,
                l / p + 1 <= k,
                p > 0,
        ;
        assert(last_finalized < k * period <= number);
    } else {
        assert forall|k: int| !(last_finalized < #[trigger] (k * period) <= number) by {
            if l < k * p && k * p <= n {
                assert(k > l / p) by (nonlinear_arith)
                    requires
                        l < k * p,
                        l == p * (l / p) + l % p,
                        l % p >= 0,
                        p > 0,
                ;
                assert(k <= n / p) by (nonlinear_arith)
                    requires
                        k * p <= n,
                        n == p * (n / p) + n % p,
                        n % p < p,
                        p > 0,
                ;
            }
        }
    }
}

/// A finalization goes on with just those events that answer what it asks for. The one answer that
/// it cannot go on with is a number of the last finalized block from which it cannot be told
/// whether a justification is due: one other than 0 where the period is 0.
pub proof fn answer_is_of_the_kind_asked_for(now: Finalization, event: FinalityEvent)
    ensures
        now.is_answered_by(event) <==> match (now.next_action(), event) {
            (FinalityAction::ReadFinalizedNumber, FinalityEvent::FinalizedNumber(last)) => {
                now.phase matches Phase::LastFinalized { period, .. } ==> period != 0 || (last == 0
                    && now.number != 0)
            },
            (FinalityAction::ReadHash(_), FinalityEvent::BlockHash(_)) => true,
            (FinalityAction::BeginImport, FinalityEvent::Done(_)) => true,
            (FinalityAction::ApplyChanges { .. }, FinalityEvent::Changes(_)) => true,
            (FinalityAction::BuildJustification { .. }, FinalityEvent::Justification(_)) => true,
            (FinalityAction::Notify(_), FinalityEvent::Notified) => true,
            (FinalityAction::ApplyFinality { .. }, FinalityEvent::Done(_)) => true,
            (FinalityAction::StoreBest(_), FinalityEvent::Done(_)) => true,
            (FinalityAction::ReadAuthorities, FinalityEvent::Authorities(_, _)) => true,
            (FinalityAction::WriteAuthorities(_), FinalityEvent::Done(_)) => true,
            (FinalityAction::CommitImport, FinalityEvent::Done(_)) => true,
            _ => false,
        },
{
}

/// The first failure ends a finalization, in that failure: without a change if it is that to read
/// a hash, and with the authority set put back otherwise. Nothing more is asked for then.
pub proof fn first_failure_ends_it(now: Finalization, event: FinalityEvent)
    requires
        now.is_answered_by(event),
    ensures
        ({
            let next = now.after(event);
            let ends = |error: VoterError, restore: bool|
                {
                    &&& next.phase matches Phase::Finished {
                        result: Err(CommandOrError::Error(told)),
                        restore: put_back,
                    } && told == error && put_back == restore
                    &&& next.next_action() == (FinalityAction::Stop { restore })
                };
            match event {
                FinalityEvent::BlockHash(Err(error)) => ends(error, false),
                FinalityEvent::Done(Err(error)) => ends(error, true),
                FinalityEvent::Changes(Err(message)) => ends(VoterError::Safety(message), true),
                FinalityEvent::Justification(Err(error)) => ends(error, true),
                _ => !(next.phase matches Phase::Finished {
                    result: Err(CommandOrError::Error(_)),
                    ..
                }),
            }
        }),
{
}

/// A block that is not above the last finalized one is found to be finalized already just if its
/// hash is the one at its number; then the finalization is over, well and without a change. Any
/// other block goes on to an import, whatever hash is found.
pub proof fn only_finalized_blocks_are_passed_over(
    start: Finalization,
    source: JustificationOrCommit,
    finalized_number: BlockNumber,
    found: Option<BlockHash>,
)
    requires
        start.phase == (Phase::Status { source }),
    ensures
        ({
            let asking = start.after(FinalityEvent::FinalizedNumber(finalized_number));
            let then = asking.after(FinalityEvent::BlockHash(Ok(found)));
            &&& start.next_action() is ReadFinalizedNumber
            &&& asking.next_action() matches FinalityAction::ReadHash(number) && {
                &&& start.number <= finalized_number ==> number == start.number
                &&& start.number > finalized_number ==> number == finalized_number
            }
            &&& if start.number <= finalized_number && found == Some(start.hash) {
                &&& then.phase matches Phase::Finished { result: Ok(()), restore: false }
                &&& then.next_action() == (FinalityAction::Stop { restore: false })
            } else {
                then.next_action() is BeginImport
            }
            &&& is_finalized(start.hash, start.number, finalized_number, found)
                <==> start.number <= finalized_number && found == Some(start.hash)
        }),
{
}

/// Each step that does not fail leads to the next: an import, once opened, to the changes up to the
/// block; a justification, once made, to telling of it; that to finality for the block, with the
/// justification or without; that to the same justification as the best one; that to the
/// authorities if there is a new set, else to writing the set if it has changed, else to the
/// commit; the authorities to writing the set with them if it has changed, else to the commit;
/// the writing to the commit; and the commit to the end.
pub proof fn each_step_leads_to_the_next(now: Finalization, event: FinalityEvent)
    requires
        now.is_answered_by(event),
        !{
            ||| event matches FinalityEvent::BlockHash(Err(_))
            ||| event matches FinalityEvent::Done(Err(_))
            ||| event matches FinalityEvent::Changes(Err(_))
            ||| event matches FinalityEvent::Justification(Err(_))
        },
    ensures
        ({
            let next = now.after(event).next_action();
            match now.next_action() {
                FinalityAction::BeginImport => next == (FinalityAction::ApplyChanges {
                    hash: now.hash,
                    number: now.number,
                    initial_sync: now.initial_sync,
                }),
                FinalityAction::ApplyChanges { .. } => next is Notify || next is BuildJustification
                    || next is ReadFinalizedNumber,
                FinalityAction::BuildJustification { .. } => {
                    &&& next matches FinalityAction::Notify(told)
                    &&& *told == event->Justification_0->Ok_0
                },
                FinalityAction::Notify(told) => next matches FinalityAction::ApplyFinality {
                    hash,
                    justification,
                    notify,
                } && {
                    &&& hash == now.hash
                    &&& notify
                    &&& justification matches Some((engine_id, stored)) ==> engine_id
                        == now.engine_id && *stored == *told
                },
                FinalityAction::ApplyFinality { justification, .. } => {
                    &&& next matches FinalityAction::StoreBest(best)
                    &&& justification matches Some((_, stored)) ==> *best == *stored
                },
                FinalityAction::StoreBest(_) => next is ReadAuthorities || next
                    == FinalityAction::WriteAuthorities(None) || next is CommitImport,
                FinalityAction::ReadAuthorities => next is CommitImport || (next matches
                    FinalityAction::WriteAuthorities(Some(new_set)) && new_set.set_id
                    == event->Authorities_0 && new_set.authorities == event->Authorities_1),
                FinalityAction::WriteAuthorities(_) => next is CommitImport,
                FinalityAction::CommitImport => next == (FinalityAction::Stop { restore: false }),
                _ => true,
            }
        }),
        now.after(event).hash == now.hash,
        now.after(event).number == now.number,
        now.after(event).engine_id == now.engine_id,
        now.after(event).justification_period == now.justification_period,
        now.after(event).initial_sync == now.initial_sync,
{
}

/// Whether the events answer, one after the other, what is asked for in the run of a finalization
/// of a block that is not finalized yet, and none of them is a failure.
spec fn runs_well(
    start: Finalization,
    run: Seq<Finalization>,
    events: Seq<FinalityEvent>,
) -> bool {
    &&& run.len() == events.len() + 1
    &&& run[0] == start
    &&& forall|i: int|
        0 <= i < events.len() ==> run[i].is_answered_by(#[trigger] events[i]) && run[i + 1]
            == run[i].after(events[i])
    &&& forall|i: int|
        0 <= i < events.len() ==> !{
            ||| #[trigger] events[i] matches FinalityEvent::BlockHash(Err(_))
            ||| events[i] matches FinalityEvent::Done(Err(_))
            ||| events[i] matches FinalityEvent::Changes(Err(_))
            ||| events[i] matches FinalityEvent::Justification(Err(_))
        }
    &&& events.len() >= 2 ==> !(start.number <= events[0]->FinalizedNumber_0
        && events[1]->BlockHash_0->Ok_0 == Some(start.hash))
}

/// The phase after the first `k` events of a run.
spec fn phase_at(
    start: Finalization,
    source: JustificationOrCommit,
    events: Seq<FinalityEvent>,
    k: int,
) -> Phase {
    let round = source->Commit_0.0;
    let commit = source->Commit_0.1;
    let change = events[3]->Changes_0->Ok_0;
    let enacts = change.new_set_block is Some;
    let by_number = source is Commit && !enacts && start.justification_period is Some;
    let period = start.justification_period->0;
    let build: int = if by_number { 5 } else { 4 };
    let notify: int = if source is Commit { build + 1 } else { build };
    let write: int = if enacts { notify + 4 } else { notify + 3 };
    let last: int = if change.changed { write + 1 } else { write };
    let justification = match source {
        JustificationOrCommit::Justification(given) => given,
        JustificationOrCommit::Commit(_) => events[build]->Justification_0->Ok_0,
    };
    let due = source is Justification || enacts || (by_number && due_by_number(
        period,
        events[4]->FinalizedNumber_0,
        start.number,
    ));
    let block = change.new_set_block->0;
    let new_set = if enacts {
        Some(
            NewAuthoritySet {
                canon_hash: block.0,
                canon_number: block.1,
                set_id: events[notify + 3]->Authorities_0,
                authorities: events[notify + 3]->Authorities_1,
            },
        )
    } else {
        None
    };
    if k == 0 {
        Phase::Status { source }
    } else if k == 1 {
        Phase::Canonical { source, finalized_number: events[0]->FinalizedNumber_0 }
    } else if k == 2 {
        Phase::Begin { source }
    } else if k == 3 {
        Phase::Changes { source }
    } else if by_number && k == 4 {
        Phase::LastFinalized { round, commit, period, change }
    } else if source is Commit && k == build {
        Phase::Build { round, commit, change, due }
    } else if k == notify {
        Phase::Notify { justification, change, due }
    } else if k == notify + 1 {
        Phase::Apply { justification, change, due }
    } else if k == notify + 2 {
        Phase::Best { justification, change }
    } else if enacts && k == notify + 3 {
        Phase::Current { canon_hash: block.0, canon_number: block.1, changed: change.changed }
    } else if change.changed && k == write {
        Phase::Write { new_set }
    } else if k == last {
        Phase::Commit { new_set }
    } else {
        concluded(new_set)
    }
}

/// A run is in the phase that its first events lead to.
proof fn run_is_in_phase(
    start: Finalization,
    source: JustificationOrCommit,
    run: Seq<Finalization>,
    events: Seq<FinalityEvent>,
    k: int,
)
    requires
        start.phase == (Phase::Status { source }),
        runs_well(start, run, events),
        0 <= k < run.len(),
    ensures
        run[k] == (Finalization { phase: phase_at(start, source, events, k), ..start }),
    decreases k,
{
    if k > 0 {
        run_is_in_phase(start, source, run, events, k - 1);
        assert(run[k - 1].is_answered_by(events[k - 1]));
        assert(run[k] == run[k - 1].after(events[k - 1]));
    }
}

/// What is asked for in the run of a finalization of a block that is not finalized yet, as long as
/// nothing fails, is one list from its first item to its last: the number of the last finalized
/// block and a hash are read; an import is opened; the changes up to the block are applied; the
/// number of the last finalized block is read again, if the finalization rests on precommits, the
/// block enacts no new set and a period is given; a justification is made of the precommits, if
/// it rests on them; those who wait are told of the justification; finality is applied to the
/// block, with the justification where it was given, a new set is enacted or it is due; the
/// justification is stored as the best; the authorities are read if a new set is enacted; the set
/// is written if it has changed; the import is committed; and then it is over, with a command to
/// the voter if a new set is enacted, and well otherwise.
pub proof fn finalization_asks_in_order(
    start: Finalization,
    source: JustificationOrCommit,
    run: Seq<Finalization>,
    events: Seq<FinalityEvent>,
    k: int,
)
    requires
        start.phase == (Phase::Status { source }),
        run.len() == events.len() + 1,
        run[0] == start,
        forall|i: int|
            0 <= i < events.len() ==> run[i].is_answered_by(#[trigger] events[i]) && run[i + 1]
                == run[i].after(events[i]),
        forall|i: int|
            0 <= i < events.len() ==> !{
                ||| #[trigger] events[i] matches FinalityEvent::BlockHash(Err(_))
                ||| events[i] matches FinalityEvent::Done(Err(_))
                ||| events[i] matches FinalityEvent::Changes(Err(_))
                ||| events[i] matches FinalityEvent::Justification(Err(_))
            },
        events.len() >= 2 ==> !(start.number <= events[0]->FinalizedNumber_0
            && events[1]->BlockHash_0->Ok_0 == Some(start.hash)),
        0 <= k < run.len(),
    ensures
        ({
            let action = run[k].next_action();
            let by_commit = source is Commit;
            let change = events[3]->Changes_0->Ok_0;
            let enacts = change.new_set_block is Some;
            let block = change.new_set_block->0;
            let by_number = by_commit && !enacts && start.justification_period is Some;
            let build: int = if by_number { 5 } else { 4 };
            let notify: int = if by_commit { build + 1 } else { build };
            let write: int = if enacts { notify + 4 } else { notify + 3 };
            let last: int = if change.changed { write + 1 } else { write };
            let justification = match source {
                JustificationOrCommit::Justification(given) => given,
                JustificationOrCommit::Commit(_) => events[build]->Justification_0->Ok_0,
            };
            let stored = !by_commit || enacts || (by_number && due_by_number(
                start.justification_period->0,
                events[4]->FinalizedNumber_0,
                start.number,
            ));
            let new_set = NewAuthoritySet {
                canon_hash: block.0,
                canon_number: block.1,
                set_id: events[notify + 3]->Authorities_0,
                authorities: events[notify + 3]->Authorities_1,
            };
            &&& k == 0 ==> action is ReadFinalizedNumber
            &&& k == 1 ==> action == FinalityAction::ReadHash(
                if start.number <= events[0]->FinalizedNumber_0 {
                    start.number
                } else {
                    events[0]->FinalizedNumber_0
                },
            )
            &&& k == 2 ==> action is BeginImport
            &&& k == 3 ==> action == (FinalityAction::ApplyChanges {
                hash: start.hash,
                number: start.number,
                initial_sync: start.initial_sync,
            })
            &&& k == 4 && by_number ==> action is ReadFinalizedNumber
            &&& k == build && by_commit ==> action == (FinalityAction::BuildJustification {
                round: source->Commit_0.0,
                commit: &source->Commit_0.1,
            })
            &&& k == notify ==> action == FinalityAction::Notify(&justification)
            &&& k == notify + 1 ==> action == (FinalityAction::ApplyFinality {
                hash: start.hash,
                justification: if stored {
                    Some((start.engine_id, &justification))
                } else {
                    None
                },
                notify: true,
            })
            &&& k == notify + 2 ==> action == FinalityAction::StoreBest(&justification)
            &&& k == notify + 3 && enacts ==> action is ReadAuthorities
            &&& k == write && change.changed ==> action == FinalityAction::WriteAuthorities(
                if enacts {
                    Some(&new_set)
                } else {
                    None
                },
            )
            &&& k == last && k > 3 ==> action is CommitImport
            &&& k == last + 1 && k > 4 ==> run[k].phase == (Phase::Finished {
                result: if enacts {
                    Err(CommandOrError::VoterCommand(VoterCommand::ChangeAuthorities(new_set)))
                } else {
                    Ok(())
                },
                restore: false,
            })
            &&& action is Stop ==> k == last + 1
            &&& k <= 3 || k <= last + 1
        }),
{
    run_is_in_phase(start, source, run, events, k);
    if k > 0 {
        run_is_in_phase(start, source, run, events, k - 1);
        assert(run[k - 1].is_answered_by(events[k - 1]));
    }
}

/// Whether a justification is due by number, put in multiples of the period: as long as only the
/// genesis is finalized, just for the block at the first multiple; later on, just if a multiple
/// lies above the lower of the two blocks and not above the higher. With a period of no blocks
/// none is due while only the genesis is finalized.
pub proof fn justification_is_due_at_multiples(
    period: BlockNumber,
    last_finalized: BlockNumber,
    number: BlockNumber,
)
    ensures
        period == 0 && last_finalized == 0 && number != 0 ==> !due_by_number(
            period,
            last_finalized,
            number,
        ),
        period > 0 && last_finalized == 0 ==> (due_by_number(period, last_finalized, number)
            <==> number == period),
        period > 0 && 0 < last_finalized <= number ==> (due_by_number(
            period,
            last_finalized,
            number,
        ) <==> exists|k: int| last_finalized < #[trigger] (k * period) <= number),
        period > 0 && number < last_finalized ==> (due_by_number(period, last_finalized, number)
            <==> exists|k: int| number < #[trigger] (k * period) <= last_finalized),
{
    let p = period as int;
    if period == 0 {
    } else if last_finalized == 0 {
        vstd::arithmetic::div_mod::lemma_div_by_self(p);
        assert(0int / p == 0) by {
            vstd::arithmetic::div_mod::lemma_div_basics(p);
        }
    } else if last_finalized <= number {
        justification_is_due_every_period(period, last_finalized, number);
    } else if number > 0 {
        justification_is_due_every_period(period, number, last_finalized);
    } else {
        assert(0int / p == 0) by {
            vstd::arithmetic::div_mod::lemma_div_basics(p);
        }
        let l = last_finalized as int;
        vstd::arithmetic::div_mod::lemma_fundamental_div_mod(l, p);
        if l / p != 0 {
            assert(1 * period == p);
            assert(p <= l) by (nonlinear_arith)
                requires
                    l == p * (l / p) + l % p,
                    l % p >= 0,
                    l / p >= 1,
                    p > 0,
            ;
            assert(number < 1 * period <= last_finalized);
        } else {
            assert forall|k: int| !(number < #[trigger] (k * period) <= last_finalized) by {
                if 0 < k * p && k * p <= l {
                    assert(false) by (nonlinear_arith)
                        requires
                            0 < k * p,
                            k * p <= l,
                            l == p * (l / p) + l % p,
                            l / p == 0,
                            l % p < p,
                            p > 0,
                    ;
                }
            }
        }
    }
}

} // verus!
