//! Reader-writer locks of `parking_lot`, used through closures that run while the lock is held.
//!
//! What a lock holds now is not fixed by the lock: whoever shares it can write to it. What the
//! contracts speak of is the course of a lock: the value that it is made with and then, write
//! section by write section, the value that each leaves. Only one write section runs at a time,
//! so each finds the value before its own in the course.
//!
//! A lock that is made with a state in which a round is completed never holds another kind: no
//! write section takes the last completed round away.
use crate::primitives::{AuthorityId, RoundNumber};
use crate::shared::{all_have_round, is_section, VotingTracker};
use crate::voter_state::{VoterSetState, VoterSetStateView};
use vstd::prelude::*;

verus! {

/// The raw lock on which `parking_lot::RwLock` is built.
#[verifier::external_type_specification]
#[verifier::external_body]
pub struct ExRawRwLock(parking_lot::RawRwLock);

/// The reader-writer lock; `parking_lot::RwLock<T>` is `RwLock<RawRwLock, T>`.
#[verifier::external_type_specification]
#[verifier::external_body]
#[verifier::reject_recursive_types(R)]
#[verifier::reject_recursive_types(T)]
pub struct ExRwLock<R, T: ?Sized>(parking_lot::lock_api::RwLock<R, T>);

/// The course of the lock: the states that it holds in its lifetime, one after the other.
pub uninterp spec fn state_course(lock: parking_lot::RwLock<VoterSetState>) -> Seq<
    VoterSetStateView,
>;

/// The course of the lock: the trackers that it holds in its lifetime, one after the other.
pub uninterp spec fn tracker_course(lock: parking_lot::RwLock<VotingTracker>) -> Seq<
    Map<RoundNumber, AuthorityId>,
>;

/// Whether a closure ran that found one of the values in the course.
pub open spec fn ran_on<V>(ran: bool, course: Seq<V>, found: V) -> bool {
    ran && course.contains(found)
}

/// Whether a closure ran that found a value of the course and left the next one.
pub open spec fn ran_between<V>(ran: bool, course: Seq<V>, found: V, left: V) -> bool {
    ran && is_section(course, found, left)
}

/// `parking_lot::RwLock::new`: an unlocked lock, which holds the state to begin with.
///
/// All that is ever written to it is written by [`write_state`], where no closure takes the last
/// completed round away: so if a round is completed to begin with, one is at all times.
#[verifier::external_body]
pub(crate) fn lock_state(state: VoterSetState) -> (lock: parking_lot::RwLock<VoterSetState>)
    ensures
        state_course(lock).len() > 0,
        state_course(lock)[0] == state@,
        state@.has_round() ==> all_have_round(state_course(lock)),
{
    parking_lot::RwLock::new(state)
}

/// `parking_lot::RwLock::new`: an unlocked lock, which holds the tracker to begin with.
#[verifier::external_body]
pub(crate) fn lock_tracker(tracker: VotingTracker) -> (lock: parking_lot::RwLock<VotingTracker>)
    ensures
        tracker_course(lock).len() > 0,
        tracker_course(lock)[0] == tracker@,
{
    parking_lot::RwLock::new(tracker)
}

/// `parking_lot::RwLock::read`: runs `f` on the state in the lock, while no one can write it.
///
/// The result is what `f` makes of a state that the lock holds: of which one depends on what was
/// written last. It waits for those that hold the lock to write; `f` must not take the same lock
/// again.
#[verifier::external_body]
pub(crate) fn read_state<U, F: FnOnce(&VoterSetState) -> U>(
    lock: &parking_lot::RwLock<VoterSetState>,
    f: F,
) -> (result: U)
    requires
        forall|state: &VoterSetState|
            state_course(*lock).contains(state@) ==> #[trigger] call_requires(f, (state,)),
    ensures
        exists|state: &VoterSetState|
            ran_on(#[trigger] call_ensures(f, (state,), result), state_course(*lock), state@),
{
    f(&*lock.read())
}

/// `parking_lot::RwLock::read`: runs `f` on the tracker in the lock, while no one can write it.
///
/// The result is what `f` makes of a tracker that the lock holds: of which one depends on what was
/// written last. It waits for those that hold the lock to write; `f` must not take the same lock
/// again.
#[verifier::external_body]
pub(crate) fn read_tracker<U, F: FnOnce(&VotingTracker) -> U>(
    lock: &parking_lot::RwLock<VotingTracker>,
    f: F,
) -> (result: U)
    requires
        forall|tracker: &VotingTracker| #[trigger] call_requires(f, (tracker,)),
    ensures
        exists|tracker: &VotingTracker|
            ran_on(#[trigger] call_ensures(f, (tracker,), result), tracker_course(*lock), tracker@),
{
    f(&*lock.read())
}

/// `parking_lot::RwLock::write`: runs `f` on the state in the lock, while no one else can read
/// or write it; what `f` leaves there stays in the lock.
///
/// The result is what `f` makes of a state that the lock holds: of which one depends on what was
/// written last. What `f` leaves there is the next that the lock holds. It waits for those that
/// hold the lock; `f` must not take the same lock again.
#[verifier::external_body]
pub(crate) fn write_state<U, F: FnOnce(&mut VoterSetState) -> U>(
    lock: &parking_lot::RwLock<VoterSetState>,
    f: F,
) -> (result: U)
    requires
        forall|state: &mut VoterSetState|
            state_course(*lock).contains(state@) ==> #[trigger] call_requires(f, (state,)),
        forall|state: &mut VoterSetState, result: U|
            state_course(*lock).contains(state@) && state@.has_round() && #[trigger] call_ensures(
                f,
                (state,),
                result,
            ) ==> final(state)@.has_round(),
    ensures
        exists|state: &mut VoterSetState|
            ran_between(
                #[trigger] call_ensures(f, (state,), result),
                state_course(*lock),
                state@,
                final(state)@,
            ),
{
    f(&mut *lock.write())
}

/// `parking_lot::RwLock::write`: runs `f` on the tracker in the lock, while no one else can read
/// or write it; what `f` leaves there stays in the lock.
///
/// The result is what `f` makes of a tracker that the lock holds: of which one depends on what was
/// written last. What `f` leaves there is the next that the lock holds. It waits for those that
/// hold the lock; `f` must not take the same lock again.
#[verifier::external_body]
pub(crate) fn write_tracker<U, F: FnOnce(&mut VotingTracker) -> U>(
    lock: &parking_lot::RwLock<VotingTracker>,
    f: F,
) -> (result: U)
    requires
        forall|tracker: &mut VotingTracker| #[trigger] call_requires(f, (tracker,)),
    ensures
        exists|tracker: &mut VotingTracker|
            ran_between(
                #[trigger] call_ensures(f, (tracker,), result),
                tracker_course(*lock),
                tracker@,
                final(tracker)@,
            ),
{
    f(&mut *lock.write())
}

} // verus!
