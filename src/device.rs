//! Lifecycle of the device handle.
//!
//! The foreign driver keeps process-wide state (callback slots, allocator
//! bounds), so at most one device handle may be live at a time; an
//! `InstanceFlag` records whether one is. A `Lifecycle` records what one
//! handle holds: whether `init` has run and whether the driver's state exists.
//! Both decide; the handle performs the foreign calls that they ask for.

use vstd::prelude::*;
use crate::heap::{HeapAllocator, fresh_state};

verus! {

/// A broken single-instance discipline.
#[derive(Clone, Copy, Debug, PartialEq, Eq, Structural)]
pub enum InstanceError {
    /// A device handle is already live.
    AlreadyTaken,
    /// No device handle was live to be released.
    NotTaken,
}

/// Use of a handle that is not ready.
#[derive(Clone, Copy, Debug, PartialEq, Eq, Structural)]
pub enum UsageError {
    /// The driver has no state: `init` has not completed on this handle.
    NotInitialized,
}

/// What claiming the instance slot returns, given whether it was taken.
pub open spec fn take_result(taken: bool) -> Result<(), InstanceError> {
    if taken {
        Err(InstanceError::AlreadyTaken)
    } else {
        Ok(())
    }
}

/// What releasing the instance slot returns, given whether it was taken.
pub open spec fn give_back_result(taken: bool) -> Result<(), InstanceError> {
    if taken {
        Ok(())
    } else {
        Err(InstanceError::NotTaken)
    }
}

/// Records whether a device handle is live.
pub struct InstanceFlag {
    taken: bool,
}

impl View for InstanceFlag {
    type V = bool;

    closed spec fn view(&self) -> bool {
        self.taken
    }
}

impl InstanceFlag {
    /// A flag with no live handle.
    pub fn new() -> (r: Self)
        ensures
            !r@,
    {
        InstanceFlag { taken: false }
    }

    /// Whether a handle is live.
    pub fn is_taken(&self) -> (r: bool)
        ensures
            r == self@,
    {
        self.taken
    }

    /// Claims the slot for a new handle. Fails if a handle is already live;
    /// either way the slot is taken afterwards.
    pub fn take(&mut self) -> (r: Result<(), InstanceError>)
        ensures
            r == take_result(old(self)@),
            final(self)@,
    {
        let was = self.taken;
        self.taken = true;
        if was {
            Err(InstanceError::AlreadyTaken)
        } else {
            Ok(())
        }
    }

    /// Releases the slot of a handle that goes away. Fails if no handle was
    /// live; either way the slot is free afterwards.
    pub fn give_back(&mut self) -> (r: Result<(), InstanceError>)
        ensures
            r == give_back_result(old(self)@),
            !final(self)@,
    {
        let was = self.taken;
        self.taken = false;
        if was {
            Ok(())
        } else {
            Err(InstanceError::NotTaken)
        }
    }
}

/// Only one handle may be live: once one is claimed, claiming another fails
/// until the first is released, after which claiming succeeds again.
pub proof fn lemma_single_instance()
    ensures
        take_result(false) == Ok::<(), InstanceError>(()),
        take_result(true) == Err::<(), InstanceError>(InstanceError::AlreadyTaken),
        give_back_result(true) == Ok::<(), InstanceError>(()),
        give_back_result(false) == Err::<(), InstanceError>(InstanceError::NotTaken),
{
}

/// Abstract state of one device handle.
pub struct LifecycleState {
    /// `init` has been run since the last release.
    pub initialized: bool,
    /// The driver holds state for this handle.
    pub has_state: bool,
}

/// A handle right after construction.
pub open spec fn new_lifecycle() -> LifecycleState {
    LifecycleState { initialized: false, has_state: false }
}

/// Whether releasing the handle's driver state is due.
pub open spec fn release_due(l: LifecycleState) -> bool {
    l.initialized && l.has_state
}

/// The handle's state after a release.
pub open spec fn released(l: LifecycleState) -> LifecycleState {
    if release_due(l) {
        new_lifecycle()
    } else {
        l
    }
}

/// Whether an accessor may run: only once the driver holds state.
pub open spec fn ready_result(l: LifecycleState) -> Result<(), UsageError> {
    if l.has_state {
        Ok(())
    } else {
        Err(UsageError::NotInitialized)
    }
}

/// The handle's state once the driver's initialisation has returned, having
/// left state behind or not.
pub open spec fn init_completed(state_created: bool) -> LifecycleState {
    LifecycleState { initialized: true, has_state: state_created }
}

/// What a foreign call that reports `status` returns: 0 is success, any
/// other status is handed back unchanged.
pub open spec fn status_result(status: i32) -> Result<(), i32> {
    if status == 0 {
        Ok(())
    } else {
        Err(status)
    }
}

/// Tracks the initialisation of one device handle.
pub struct Lifecycle {
    initialized: bool,
    has_state: bool,
}

impl View for Lifecycle {
    type V = LifecycleState;

    closed spec fn view(&self) -> LifecycleState {
        LifecycleState { initialized: self.initialized, has_state: self.has_state }
    }
}

impl Lifecycle {
    /// A handle that has not been initialised.
    pub fn new() -> (r: Self)
        ensures
            r@ == new_lifecycle(),
    {
        Lifecycle { initialized: false, has_state: false }
    }

    /// Whether `init` has run since the last release.
    pub fn is_initialized(&self) -> (r: bool)
        ensures
            r == self@.initialized,
    {
        self.initialized
    }

    /// Allows an accessor only once the driver holds state for the handle.
    pub fn check_ready(&self) -> (r: Result<(), UsageError>)
        ensures
            r == ready_result(self@),
    {
        if self.has_state {
            Ok(())
        } else {
            Err(UsageError::NotInitialized)
        }
    }

    /// Forgets the driver state. Returns true when the caller must release
    /// it in the driver, which is when `init` ran and left state behind.
    pub fn release(&mut self) -> (r: bool)
        ensures
            r == release_due(old(self)@),
            final(self)@ == released(old(self)@),
    {
        if self.initialized && self.has_state {
            self.initialized = false;
            self.has_state = false;
            true
        } else {
            false
        }
    }

    /// First half of `init`: resets the allocator onto a heap of
    /// `heap_words` words and releases any state of an earlier `init`.
    /// Returns true when the caller must release that state in the driver.
    pub fn begin_init(&mut self, heap: &mut HeapAllocator, heap_words: usize) -> (r: bool)
        ensures
            r == release_due(old(self)@),
            final(self)@ == released(old(self)@),
            final(heap).wf(),
            final(heap)@ == fresh_state(heap_words as nat),
    {
        heap.init(heap_words);
        self.release()
    }

    /// Second half of `init`: records the outcome of the driver's
    /// initialisation, which reported `status` and did or did not leave
    /// state behind.
    pub fn complete_init(&mut self, status: i32, state_created: bool) -> (r: Result<(), i32>)
        ensures
            r == status_result(status),
            final(self)@ == init_completed(state_created),
    {
        self.initialized = true;
        self.has_state = state_created;
        if status == 0 {
            Ok(())
        } else {
            Err(status)
        }
    }
}

/// Any accessor on a handle that was never initialised is refused.
pub proof fn lemma_not_ready_before_init()
    ensures
        ready_result(new_lifecycle()) == Err::<(), UsageError>(UsageError::NotInitialized),
{
}

/// `init` may be repeated: on an initialised handle that holds driver state,
/// the first half of `init` asks for that state to be released (so none of
/// it leaks) and leaves the handle as new; a driver initialisation that
/// succeeds and leaves fresh state then makes the handle ready again.
pub proof fn lemma_reinit(l: LifecycleState, status: i32)
    requires
        l.initialized,
        l.has_state,
        status == 0,
    ensures
        release_due(l),
        released(l) == new_lifecycle(),
        !release_due(released(l)),
        status_result(status) == Ok::<(), i32>(()),
        ready_result(init_completed(true)) == Ok::<(), UsageError>(()),
        release_due(init_completed(true)),
{
}

/// The outcome of a foreign call that fills in a value: the value on a zero
/// status, the status otherwise.
pub fn value_result<T>(status: i32, value: T) -> (r: Result<T, i32>)
    ensures
        status == 0 ==> r == Ok::<T, i32>(value),
        status != 0 ==> r == Err::<T, i32>(status),
{
    if status == 0 {
        Ok(value)
    } else {
        Err(status)
    }
}

/// The outcome of a foreign call that only reports a status.
pub fn status_outcome(status: i32) -> (r: Result<(), i32>)
    ensures
        r == status_result(status),
{
    value_result(status, ())
}

} // verus!
