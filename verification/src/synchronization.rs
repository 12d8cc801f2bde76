//! Lifecycle synchronization primitives.
//!
//! These are disciplines, not contended locks: on the single boot core,
//! exclusion is established by the kernel's phase and by masking interrupts,
//! never by blocking. The phase-gated lock permits writes only while the
//! process-wide lifecycle state is still the boot phase and interrupts are
//! unmasked on the executing core; reads are always permitted. The
//! interrupt-safe lock excludes interrupt handlers on the same core by
//! masking interrupts around the critical section and restoring the prior
//! mask state on every exit path. Neither protects against a second core —
//! a known limitation of this single-core kernel, kept as-is.

use vstd::prelude::*;

use crate::exception::{DAIF_IRQ_MASK, spec_irq_masked};

verus! {

/// The process-wide lifecycle state: the single-threaded boot phase first,
/// then ordinary single-core operation with interrupts.
#[derive(Copy, Clone, Debug, PartialEq, Eq, Structural)]
pub enum LifecycleState {
    /// Pre-init: one boot core, interrupts never yet unmasked.
    Init,
    /// After boot: interrupts live, shared structures effectively
    /// read-only.
    SingleCoreMain,
}

impl LifecycleState {
    /// Still in the boot phase?
    pub fn is_init(&self) -> (r: bool)
        ensures
            r == (*self is Init),
    {
        match self {
            LifecycleState::Init => true,
            LifecycleState::SingleCoreMain => false,
        }
    }

    /// Leave the boot phase, one way.
    pub fn transition_to_single_core_main(&mut self)
        ensures
            *final(self) is SingleCoreMain,
    {
        *self = LifecycleState::SingleCoreMain;
    }
}

/// The phase-gated write permission: boot phase, and interrupts currently
/// unmasked on the executing core (the proxy for "single boot core, no
/// concurrent interrupt activity yet"). Violating it is fatal.
pub open spec fn spec_write_gate_open(state: LifecycleState, daif: u64) -> bool {
    state is Init && !spec_irq_masked(daif)
}

/// Any object implementing this trait guarantees exclusive access to the
/// data wrapped within the Mutex for the duration of the borrow it hands
/// out; it masks interrupts when the borrow is taken and the saved mask
/// state is restored by `unlock`.
pub trait Mutex: Sized {
    /// The type of the data that is wrapped by this mutex.
    type Data;

    /// The wrapped data.
    spec fn data(&self) -> Self::Data;

    /// Locks the mutex, masking interrupts, and grants temporary mutable
    /// access to the wrapped data together with the mask state to restore.
    fn lock<'a>(&'a mut self, daif: &mut u64) -> (r: (&'a mut Self::Data, u64))
        ensures
            *r.0 == old(self).data(),
            final(self).data() == *final(r.0),
            r.1 == *old(daif),
            *final(daif) == *old(daif) | DAIF_IRQ_MASK,
    ;

    /// Leaves the critical section, restoring the saved mask state.
    fn unlock(daif: &mut u64, saved: u64)
        ensures
            *final(daif) == saved,
    ;
}

/// A reader-writer exclusion type whose write side is gated on the kernel
/// lifecycle: writes only during the boot phase, reads always.
pub trait ReadWriteExclusive: Sized {
    /// The type of encapsulated data.
    type Data;

    /// The encapsulated data.
    spec fn data(&self) -> Self::Data;

    /// Grants temporary mutable access to the encapsulated data. Calling
    /// this outside the boot phase, or with interrupts masked, is a fatal
    /// precondition violation.
    fn write<'a>(&'a mut self, state: &LifecycleState, daif: u64) -> (r: &'a mut Self::Data)
        requires
            spec_write_gate_open(*state, daif),
        ensures
            *r == old(self).data(),
            final(self).data() == *final(r),
    ;

    /// Grants temporary immutable access to the encapsulated data.
    fn read(&self) -> (r: &Self::Data)
        ensures
            *r == self.data(),
    ;
}

/// A pseudo-lock for a single core: exclusion against interrupt handlers by
/// masking IRQs for the critical section's duration.
pub struct IRQSafeNullLock<T> {
    data: T,
}

impl<T> IRQSafeNullLock<T> {
    /// Create an instance.
    pub fn new(data: T) -> (r: Self)
        ensures
            r.data() == data,
    {
        IRQSafeNullLock { data }
    }
}

impl<T> Mutex for IRQSafeNullLock<T> {
    type Data = T;

    closed spec fn data(&self) -> T {
        self.data
    }

    fn lock<'a>(&'a mut self, daif: &mut u64) -> (r: (&'a mut T, u64)) {
        let saved = crate::exception::local_irq_mask_and_save(daif);
        (&mut self.data, saved)
    }

    fn unlock(daif: &mut u64, saved: u64) {
        crate::exception::local_irq_restore(daif, saved);
    }
}

/// A pseudo-lock that is read-write during the single-core kernel boot
/// phase and read-only afterwards.
///
/// Intended to encapsulate data that is populated during kernel boot when
/// no concurrency exists.
pub struct InitStateLock<T> {
    data: T,
}

impl<T> InitStateLock<T> {
    /// Create an instance.
    pub fn new(data: T) -> (r: Self)
        ensures
            r.data() == data,
    {
        InitStateLock { data }
    }
}

impl<T> ReadWriteExclusive for InitStateLock<T> {
    type Data = T;

    closed spec fn data(&self) -> T {
        self.data
    }

    fn write<'a>(&'a mut self, state: &LifecycleState, daif: u64) -> (r: &'a mut T) {
        &mut self.data
    }

    fn read(&self) -> (r: &T) {
        &self.data
    }
}

} // verus!
