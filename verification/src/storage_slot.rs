//! The storage slot shared by a [`SystemApi`] and its [`StorageGuard`].
//!
//! The slot is an `Arc<tokio::sync::Mutex<Option<S>>>`. The system interface
//! reads the storage handle out of it for every system call; the guard empties
//! it when the storage stops being lent, so that any later read is refused.

use std::sync::Arc;
use tokio::sync::Mutex;
use vstd::prelude::*;

verus! {

#[verifier::external_type_specification]
#[verifier::external_body]
#[verifier::reject_recursive_types(T)]
pub struct ExTokioMutex<T: ?Sized>(Mutex<T>);

/// What one attempt to take the lock of the slot saw.
#[derive(Debug, PartialEq, Eq, Clone, Copy)]
pub enum SlotObservation<S> {
    /// The lock was held somewhere else.
    Locked,
    /// The lock was taken; the slot held this value at that moment.
    Unlocked(Option<S>),
}

/// Why a read of the storage handle was refused.
#[derive(PartialEq, Eq, Structural, Clone, Copy, Debug)]
pub enum StorageAccessError {
    /// The slot was locked by a concurrent access.
    ConcurrentAccess,
    /// The slot was empty: the storage is no longer lent.
    StorageReleased,
}

/// Why emptying the slot was refused.
#[derive(PartialEq, Eq, Structural, Clone, Copy, Debug)]
pub enum GuardReleaseError {
    /// The slot was locked: the storage is still in use.
    StorageInUse,
}

/// What reading the storage handle gives, for what the lock attempt saw.
pub open spec fn spec_access<S>(obs: SlotObservation<S>) -> Result<S, StorageAccessError> {
    match obs {
        SlotObservation::Locked => Err(StorageAccessError::ConcurrentAccess),
        SlotObservation::Unlocked(None) => Err(StorageAccessError::StorageReleased),
        SlotObservation::Unlocked(Some(s)) => Ok(s),
    }
}

/// What emptying the slot gives, for what the lock attempt saw.
pub open spec fn spec_release<S>(obs: SlotObservation<S>) -> Result<(), GuardReleaseError> {
    match obs {
        SlotObservation::Locked => Err(GuardReleaseError::StorageInUse),
        SlotObservation::Unlocked(_) => Ok(()),
    }
}

/// A model of the state of a slot at one moment: whether its lock is held,
/// and what it holds. The laws below speak of this model; the reads and
/// releases of the code are tied to it through the observation that each of
/// them returns (see [`StorageRead`] and [`GuardRelease`]).
pub struct SlotState<S> {
    pub locked: bool,
    pub content: Option<S>,
}

/// What an attempt to take the lock sees in a given state.
pub open spec fn observation<S>(st: SlotState<S>) -> SlotObservation<S> {
    if st.locked {
        SlotObservation::Locked
    } else {
        SlotObservation::Unlocked(st.content)
    }
}

/// The model of a slot just made for a lent storage handle.
pub open spec fn fresh_slot_model<S>(storage: S) -> SlotState<S> {
    SlotState { locked: false, content: Some(storage) }
}

/// The model of a slot after an attempt to release it: emptied where the
/// lock was free, unchanged where it was held.
pub open spec fn after_release<S>(st: SlotState<S>) -> SlotState<S> {
    if st.locked {
        st
    } else {
        SlotState { locked: false, content: None }
    }
}

/// In the model, a slot just made for a storage handle gives that handle back
/// when read.
pub proof fn law_fresh_slot_model_reads_back<S>(storage: S)
    ensures
        spec_access(observation(fresh_slot_model(storage))) == Ok::<S, StorageAccessError>(storage),
{
}

/// In the model: whatever a slot holds, reading it while its lock is free gives back what
/// it holds, and fails only where it is empty.
pub proof fn law_free_slot_reads_its_content<S>(content: Option<S>)
    ensures
        spec_access(observation(SlotState { locked: false, content })) == (match content {
            Some(s) => Ok(s),
            None => Err(StorageAccessError::StorageReleased),
        }),
{
}

/// In the model: releasing a slot whose lock is free succeeds, and from then on no read
/// reaches the storage: a read is refused as released where the lock is
/// free, and as concurrent where it is held.
pub proof fn law_no_read_after_release<S>(st: SlotState<S>, locked_later: bool)
    requires
        !st.locked,
    ensures
        spec_release(observation(st)) == Ok::<(), GuardReleaseError>(()),
        spec_access(observation(SlotState { locked: locked_later, content: after_release(st).content }))
            == (if locked_later {
                Err::<S, StorageAccessError>(StorageAccessError::ConcurrentAccess)
            } else {
                Err::<S, StorageAccessError>(StorageAccessError::StorageReleased)
            }),
{
}

/// In the model: while the lock of a slot is held elsewhere, a read is refused as
/// concurrent, a release is refused as in use, and the release leaves the
/// slot as it was.
pub proof fn law_locked_slot_refuses<S>(st: SlotState<S>)
    requires
        st.locked,
    ensures
        spec_access(observation(st)) == Err::<S, StorageAccessError>(StorageAccessError::ConcurrentAccess),
        spec_release(observation(st)) == Err::<(), GuardReleaseError>(GuardReleaseError::StorageInUse),
        after_release(st) == st,
{
}

/// In the model, releasing twice is releasing once.
pub proof fn law_release_is_idempotent<S>(st: SlotState<S>)
    ensures
        after_release(after_release(st)) == after_release(st),
{
}

/// A release succeeds exactly where a read is not refused as concurrent.
pub proof fn law_release_fails_only_where_read_is_concurrent<S>(obs: SlotObservation<S>)
    ensures
        (spec_release(obs) is Err) <==> (spec_access(obs) == Err::<S, StorageAccessError>(
            StorageAccessError::ConcurrentAccess,
        )),
{
}

/// A read succeeds exactly where it found the lock free and the slot full,
/// and then it gives what the slot held.
pub proof fn law_read_succeeds_only_on_a_full_free_slot<S>(obs: SlotObservation<S>)
    ensures
        (spec_access(obs) is Ok) <==> (obs matches SlotObservation::Unlocked(Some(_))),
        forall|s: S| spec_access(obs) == Ok::<S, StorageAccessError>(s)
            ==> obs == SlotObservation::Unlocked(Some(s)),
{
}

/// Decides what a read of the storage handle returns, given what the
/// attempt to lock the slot saw.
pub fn access_decision<S: Copy>(obs: SlotObservation<S>) -> (r: Result<S, StorageAccessError>)
    ensures
        r == spec_access(obs),
{
    match obs {
        SlotObservation::Locked => Err(StorageAccessError::ConcurrentAccess),
        SlotObservation::Unlocked(None) => Err(StorageAccessError::StorageReleased),
        SlotObservation::Unlocked(Some(s)) => Ok(s),
    }
}

/// Decides whether emptying the slot succeeded, given what the attempt to
/// lock the slot saw.
pub fn release_decision<S>(obs: &SlotObservation<S>) -> (r: Result<(), GuardReleaseError>)
    ensures
        r == spec_release(*obs),
{
    match obs {
        SlotObservation::Locked => Err(GuardReleaseError::StorageInUse),
        SlotObservation::Unlocked(_) => Ok(()),
    }
}

/// Makes a new slot holding `storage`, by `tokio::sync::Mutex::new` and
/// `Arc::new`. Nothing is stated of the slot's content: it is shared and
/// mutable behind the lock, which Verus does not see into.
#[verifier::external_body]
fn new_slot<S>(storage: S) -> Arc<Mutex<Option<S>>> {
    Arc::new(Mutex::new(Some(storage)))
}

/// A second handle on the same slot, by `Arc::clone`: it designates the
/// same allocation, so it is equal to the first.
#[verifier::external_body]
fn share_slot<S>(slot: &Arc<Mutex<Option<S>>>) -> (r: Arc<Mutex<Option<S>>>)
    ensures
        r == *slot,
{
    Arc::clone(slot)
}

/// Tries `tokio::sync::Mutex::try_lock` on the slot and copies out what it
/// holds. Whether the lock is free depends on the other handles, so nothing
/// is stated of the result.
#[verifier::external_body]
fn observe_slot<S: Copy>(slot: &Mutex<Option<S>>) -> SlotObservation<S> {
    match slot.try_lock() {
        Ok(guard) => SlotObservation::Unlocked(*guard),
        Err(_) => SlotObservation::Locked,
    }
}

/// Tries `tokio::sync::Mutex::try_lock` on the slot and, where it got the
/// lock, empties the slot with `Option::take`, returning what it held.
/// Nothing is stated of the result, for the reason given at `observe_slot`.
#[verifier::external_body]
fn observe_and_empty_slot<S>(slot: &Mutex<Option<S>>) -> SlotObservation<S> {
    match slot.try_lock() {
        Ok(mut guard) => SlotObservation::Unlocked(guard.take()),
        Err(_) => SlotObservation::Locked,
    }
}

/// One read of the storage handle: what the attempt to take the lock saw, and
/// the answer given to it.
#[derive(Debug, PartialEq, Eq)]
pub struct StorageRead<S> {
    pub observed: SlotObservation<S>,
    pub result: Result<S, StorageAccessError>,
}

/// One release of the slot: what the attempt to take the lock saw (where the
/// lock was free, what the slot held before it was emptied), and the answer
/// given to it.
#[derive(Debug, PartialEq, Eq)]
#[verifier::reject_recursive_types(S)]
pub struct GuardRelease<S> {
    pub observed: SlotObservation<S>,
    pub result: Result<(), GuardReleaseError>,
}

/// The part of the guest's system interface that reaches the storage.
#[verifier::reject_recursive_types(S)]
pub struct SystemApi<S> {
    storage: Arc<Mutex<Option<S>>>,
}

/// Keeps the storage lent to a [`SystemApi`]; releasing it empties the
/// shared slot, so that the storage is not reached afterwards.
#[verifier::reject_recursive_types(S)]
pub struct StorageGuard<S> {
    storage: Arc<Mutex<Option<S>>>,
}

impl<S> SystemApi<S> {
    /// The slot that this interface reads.
    pub closed spec fn slot(&self) -> Arc<Mutex<Option<S>>> {
        self.storage
    }
}

impl<S> StorageGuard<S> {
    /// The slot that this guard empties.
    pub closed spec fn slot(&self) -> Arc<Mutex<Option<S>>> {
        self.storage
    }

    /// Empties the shared slot where its lock is free, so that every later
    /// read of the storage is refused; refused as in use where the lock is
    /// held. Whether the lock is free is not known beforehand: the answer is
    /// stated for what the attempt saw, which is returned with it.
    pub fn release(&self) -> (r: GuardRelease<S>)
        ensures
            r.result == spec_release(r.observed),
    {
        let observed = observe_and_empty_slot(&*self.storage);
        let result = release_decision(&observed);
        GuardRelease { observed, result }
    }
}

impl<S: Copy> SystemApi<S> {
    fn lend(storage: S) -> (r: (SystemApi<S>, StorageGuard<S>))
        ensures
            r.0.slot() == r.1.slot(),
    {
        let slot = new_slot(storage);
        let guard = StorageGuard { storage: share_slot(&slot) };
        (SystemApi { storage: slot }, guard)
    }

    /// Lends a writable storage to a new interface. The returned guard holds
    /// a clone (by `Arc::clone`) of the interface's slot handle; the contract
    /// states that the two handles are equal as Verus sees them.
    pub fn new_writable(storage: S) -> (r: (SystemApi<S>, StorageGuard<S>))
        ensures
            r.0.slot() == r.1.slot(),
    {
        Self::lend(storage)
    }

    /// Lends a queryable storage to a new interface. The returned guard holds
    /// a clone (by `Arc::clone`) of the interface's slot handle; the contract
    /// states that the two handles are equal as Verus sees them.
    pub fn new_queryable(storage: S) -> (r: (SystemApi<S>, StorageGuard<S>))
        ensures
            r.0.slot() == r.1.slot(),
    {
        Self::lend(storage)
    }

    /// Reads the lent storage handle for a system call: the handle where the
    /// lock is free and the slot full, a refusal as concurrent where the lock
    /// is held, a refusal as released where the slot was emptied. Which of
    /// these holds is not known beforehand: the answer is stated for what the
    /// attempt saw, which is returned with it.
    pub fn storage(&self) -> (r: StorageRead<S>)
        ensures
            r.result == spec_access(r.observed),
    {
        let observed = observe_slot(&*self.storage);
        let result = access_decision(observed);
        StorageRead { observed, result }
    }
}

} // verus!
