//! Bump allocator over one reserved virtual page pool, used to hand out
//! MMIO remap windows.
//!
//! The pool is set exactly once; a second initialization leaves the first
//! pool in place. Allocation only shrinks the pool — there is no free
//! operation, which is acceptable because the set of MMIO device windows is
//! static and small for the kernel's lifetime. An exhausted pool yields
//! permanent failures.

use vstd::prelude::*;

use crate::GRANULE_SIZE;
use crate::memory::AddressType;
use crate::page::{MemoryRegion, spec_take_ok};

verus! {

/// A page allocator that can be lazily initialized.
pub struct PageAllocator<ATYPE: AddressType> {
    pool: Option<MemoryRegion<ATYPE>>,
}

impl<ATYPE: AddressType> PageAllocator<ATYPE> {
    /// A pool has been set.
    pub closed spec fn is_initialized(&self) -> bool {
        self.pool is Some
    }

    /// Start of the remaining pool.
    pub closed spec fn pool_start(&self) -> int {
        self.pool->Some_0.start()
    }

    /// Exclusive end of the pool.
    pub closed spec fn pool_end(&self) -> int {
        self.pool->Some_0.end_exclusive()
    }

    /// Create an uninitialized instance.
    pub fn new() -> (r: Self)
        ensures
            !r.is_initialized(),
    {
        PageAllocator { pool: None }
    }

    /// Initialize the allocator with its pool, exactly once: on a second
    /// call the pool is left as first set (the duplicate is only worth a
    /// warning, not a fault).
    pub fn init(&mut self, pool: MemoryRegion<ATYPE>) -> (first_init: bool)
        ensures
            final(self).is_initialized(),
            first_init == !old(self).is_initialized(),
            first_init ==> final(self).pool_start() == pool.start() && final(self).pool_end()
                == pool.end_exclusive(),
            !first_init ==> *final(self) == *old(self),
    {
        if self.pool.is_some() {
            return false;
        }
        self.pool = Some(pool);
        true
    }

    /// Allocate the first `num_requested_pages` pages of the remaining
    /// pool. Fails when the allocator was never initialized, when the pool
    /// has fewer pages left, or when the offset arithmetic would overflow;
    /// a failed call changes nothing.
    pub fn allocate(&mut self, num_requested_pages: usize) -> (r: Result<
        MemoryRegion<ATYPE>,
        &'static str,
    >)
        requires
            num_requested_pages >= 1,
            num_requested_pages <= isize::MAX as usize,
        ensures
            r is Ok <==> old(self).is_initialized() && spec_take_ok(
                old(self).pool_start(),
                old(self).pool_end(),
                num_requested_pages as int,
            ),
            r is Err ==> *final(self) == *old(self),
            !old(self).is_initialized() ==> r is Err && r->Err_0@ == "Allocator not initialized"@,
            r is Ok ==> final(self).is_initialized(),
            r is Ok ==> r->Ok_0.start() == old(self).pool_start(),
            r is Ok ==> r->Ok_0.end_exclusive() == old(self).pool_start() + num_requested_pages
                * GRANULE_SIZE,
            r is Ok ==> final(self).pool_start() == r->Ok_0.end_exclusive(),
            r is Ok ==> final(self).pool_end() == old(self).pool_end(),
    {
        match &mut self.pool {
            None => Err("Allocator not initialized"),
            Some(region) => region.take_first_n_pages(num_requested_pages),
        }
    }
}

} // verus!
