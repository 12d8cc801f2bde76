//! Page-granular addresses, page-count regions, and raw MMIO window
//! descriptors.
//!
//! A [`PageAddress`] is an [`Address`] that is known, by construction, to be
//! aligned to the translation granule. A [`MemoryRegion`] is a half-open
//! `[start, end)` range of such pages; `take_first_n_pages` implements true
//! bump-allocation semantics on it (split, never merge).

use vstd::prelude::*;

use crate::memory::{Address, AddressType, Physical, spec_page_aligned};
use crate::{GRANULE_SIZE, spec_align_down, spec_align_up};

verus! {

broadcast use crate::memory::lemma_address_view_bounds;

/// The page address `count` granules away from `addr`, or nothing when that
/// address would leave `[0, usize::MAX]`.
pub open spec fn spec_checked_offset(addr: int, count: int) -> Option<int> {
    let target = addr + count * GRANULE_SIZE;
    if 0 <= target <= usize::MAX {
        Some(target)
    } else {
        None
    }
}

/// A wrapper type around [`Address`] that ensures page alignment.
#[derive(Debug)]
pub struct PageAddress<T: AddressType> {
    inner: Address<T>,
}

impl<T: AddressType> PageAddress<T> {
    /// Always page-aligned, by construction.
    #[verifier::type_invariant]
    spec fn type_inv(self) -> bool {
        spec_page_aligned(self.inner@)
    }
}

impl<T: AddressType> View for PageAddress<T> {
    type V = int;

    /// The raw address value.
    closed spec fn view(&self) -> int {
        self.inner@
    }
}

impl<T: AddressType> Clone for PageAddress<T> {
    fn clone(&self) -> (r: Self)
        ensures
            r == *self,
    {
        proof {
            use_type_invariant(self);
        }
        PageAddress { inner: self.inner }
    }
}

impl<T: AddressType> Copy for PageAddress<T> {

}

impl<T: AddressType> PartialEq for PageAddress<T> {
    fn eq(&self, other: &Self) -> (r: bool) {
        self.inner == other.inner
    }
}

impl<T: AddressType> Eq for PageAddress<T> {

}

impl<T: AddressType> vstd::std_specs::cmp::PartialEqSpecImpl for PageAddress<T> {
    open spec fn obeys_eq_spec() -> bool {
        true
    }

    open spec fn eq_spec(&self, other: &Self) -> bool {
        self@ == other@
    }
}

impl<T: AddressType> PageAddress<T> {
    /// Wrap a page-aligned address. A misaligned input is a fatal kernel
    /// fault and is ruled out by precondition.
    pub fn from_address(addr: Address<T>) -> (r: Self)
        requires
            spec_page_aligned(addr@),
        ensures
            r@ == addr@,
    {
        PageAddress { inner: addr }
    }

    /// Wrap a page-aligned raw value. A misaligned input is a fatal kernel
    /// fault and is ruled out by precondition.
    pub fn from_usize(addr: usize) -> (r: Self)
        requires
            spec_page_aligned(addr as int),
        ensures
            r@ == addr,
    {
        PageAddress { inner: Address::new(addr) }
    }

    /// Internal address.
    pub fn address(self) -> (r: Address<T>)
        ensures
            r@ == self@,
            spec_page_aligned(self@),
    {
        proof {
            use_type_invariant(self);
        }
        self.inner
    }

    /// Calculates the offset from the page address.
    ///
    /// `count` is in units of [`PageAddress`]. For example, a count of 2
    /// means `result = self + 2 * page_size`. Overflow in either direction
    /// yields no value (not a fault), enabling safe range iteration.
    pub fn checked_offset(self, count: isize) -> (r: Option<Self>)
        ensures
            r is Some <==> spec_checked_offset(self@, count as int) is Some,
            r is Some ==> r->Some_0@ == spec_checked_offset(self@, count as int)->Some_0,
            r is Some ==> spec_page_aligned(r->Some_0@),
    {
        proof {
            use_type_invariant(self);
        }
        if count == 0 {
            return Some(self);
        }
        let magnitude: usize = if count > 0 {
            count as usize
        } else {
            ((-(count + 1)) as usize) + 1
        };
        let delta: usize = match magnitude.checked_mul(GRANULE_SIZE) {
            None => {
                return None;
            },
            Some(d) => d,
        };
        let value: usize = self.inner.as_usize();
        let target: usize = if count > 0 {
            match value.checked_add(delta) {
                None => {
                    return None;
                },
                Some(t) => t,
            }
        } else {
            match value.checked_sub(delta) {
                None => {
                    return None;
                },
                Some(t) => t,
            }
        };
        proof {
            if count > 0 {
                vstd::arithmetic::div_mod::lemma_mod_multiples_vanish(
                    magnitude as int,
                    self@,
                    GRANULE_SIZE as int,
                );
            } else {
                vstd::arithmetic::div_mod::lemma_mod_multiples_vanish(
                    -(magnitude as int),
                    self@,
                    GRANULE_SIZE as int,
                );
            }
        }
        Some(PageAddress { inner: Address::new(target) })
    }

    /// Number of whole pages from `start` up to `end`, or nothing when
    /// `start` lies past `end`.
    pub fn steps_between(start: &Self, end: &Self) -> (r: Option<usize>)
        ensures
            r is Some <==> start@ <= end@,
            r is Some ==> r->Some_0 == (end@ - start@) / GRANULE_SIZE as int,
    {
        proof {
            use_type_invariant(*start);
            use_type_invariant(*end);
        }
        if start.address().as_usize() > end.address().as_usize() {
            return None;
        }
        Some((end.address().as_usize() - start.address().as_usize()) / GRANULE_SIZE)
    }
}

/// Well-formedness of a `[start, end)` page region model: in range, ordered,
/// and page-aligned at both endpoints.
pub open spec fn spec_region_wf(start: int, end_exclusive: int) -> bool {
    &&& 0 <= start <= end_exclusive <= usize::MAX
    &&& spec_page_aligned(start)
    &&& spec_page_aligned(end_exclusive)
}

/// A type that describes a region of memory in quantities of pages.
#[derive(Debug)]
pub struct MemoryRegion<T: AddressType> {
    start_page: PageAddress<T>,
    end_page_exclusive: PageAddress<T>,
}

impl<T: AddressType> MemoryRegion<T> {
    /// The start never lies past the exclusive end.
    #[verifier::type_invariant]
    spec fn type_inv(self) -> bool {
        self.start_page@ <= self.end_page_exclusive@
    }

    /// Start of the region (inclusive, page-aligned).
    pub closed spec fn start(&self) -> int {
        self.start_page@
    }

    /// End of the region (exclusive, page-aligned).
    pub closed spec fn end_exclusive(&self) -> int {
        self.end_page_exclusive@
    }

    /// Create an instance. A start past the end is a fatal precondition
    /// violation of the caller and is ruled out here.
    pub fn new(start_addr: PageAddress<T>, end_addr_exclusive: PageAddress<T>) -> (r: Self)
        requires
            start_addr@ <= end_addr_exclusive@,
        ensures
            r.start() == start_addr@,
            r.end_exclusive() == end_addr_exclusive@,
            spec_region_wf(r.start(), r.end_exclusive()),
    {
        proof {
            use_type_invariant(start_addr);
            use_type_invariant(end_addr_exclusive);
        }
        MemoryRegion { start_page: start_addr, end_page_exclusive: end_addr_exclusive }
    }

    /// The first page address of the region.
    pub fn start_page(&self) -> (r: PageAddress<T>)
        ensures
            r@ == self.start(),
            spec_region_wf(self.start(), self.end_exclusive()),
    {
        proof {
            use_type_invariant(self);
            use_type_invariant(self.start_page);
            use_type_invariant(self.end_page_exclusive);
        }
        self.start_page
    }

    /// The exclusive end page address of the region.
    pub fn end_page_exclusive(&self) -> (r: PageAddress<T>)
        ensures
            r@ == self.end_exclusive(),
            spec_region_wf(self.start(), self.end_exclusive()),
    {
        proof {
            use_type_invariant(self);
            use_type_invariant(self.start_page);
            use_type_invariant(self.end_page_exclusive);
        }
        self.end_page_exclusive
    }

    /// Returns the inclusive end page address. An empty region starting at
    /// address zero has no such page; that case is ruled out by
    /// precondition (the caller would fault on it).
    pub fn end_inclusive_page_addr(&self) -> (r: PageAddress<T>)
        requires
            self.end_exclusive() >= GRANULE_SIZE,
        ensures
            r@ == self.end_exclusive() - GRANULE_SIZE,
    {
        proof {
            use_type_invariant(self);
            use_type_invariant(self.end_page_exclusive);
        }
        let r = self.end_page_exclusive.checked_offset(-1);
        proof {
            assert((-1) * GRANULE_SIZE == -GRANULE_SIZE);
        }
        r.unwrap()
    }

    /// Checks if self contains an address: true when the page the address
    /// falls into lies inside the region.
    pub fn contains(&self, addr: Address<T>) -> (r: bool)
        ensures
            r == (self.start() <= spec_align_down(addr@, GRANULE_SIZE as int)
                < self.end_exclusive()),
    {
        proof {
            use_type_invariant(self);
        }
        let page_addr = PageAddress::from_address(addr.align_down_page());
        let p: usize = page_addr.address().as_usize();
        self.start_page().address().as_usize() <= p && p < self.end_page_exclusive().address().as_usize()
    }

    /// Checks if there is an overlap with another memory region.
    ///
    /// This tests whether either endpoint page of `other_region` lies inside
    /// `self`; it is a two-point check and does not detect the case where
    /// `other_region` strictly contains `self`. That is a known limitation
    /// of this layer, kept as-is.
    pub fn overlaps(&self, other_region: &Self) -> (r: bool)
        requires
            other_region.end_exclusive() >= GRANULE_SIZE,
        ensures
            r == ((self.start() <= other_region.start() < self.end_exclusive()) || (self.start()
                <= other_region.end_exclusive() - GRANULE_SIZE < self.end_exclusive())),
    {
        proof {
            use_type_invariant(self);
        }
        let s: usize = self.start_page().address().as_usize();
        let e: usize = self.end_page_exclusive().address().as_usize();
        let other_start: usize = other_region.start_page().address().as_usize();
        let other_last: usize = other_region.end_inclusive_page_addr().address().as_usize();
        (s <= other_start && other_start < e) || (s <= other_last && other_last < e)
    }

    /// Returns the number of pages contained in this region.
    pub fn num_pages(&self) -> (r: usize)
        ensures
            r == (self.end_exclusive() - self.start()) / GRANULE_SIZE as int,
            r * GRANULE_SIZE == self.end_exclusive() - self.start(),
            spec_region_wf(self.start(), self.end_exclusive()),
    {
        proof {
            use_type_invariant(self);
        }
        let r = PageAddress::steps_between(&self.start_page(), &self.end_page_exclusive()).unwrap();
        proof {
            lemma_region_size_is_whole_pages(self.start(), self.end_exclusive());
        }
        r
    }

    /// Returns the size in bytes of this region.
    pub fn size(&self) -> (r: usize)
        ensures
            r == self.end_exclusive() - self.start(),
            spec_region_wf(self.start(), self.end_exclusive()),
    {
        proof {
            use_type_invariant(self);
        }
        let end_exclusive: usize = self.end_page_exclusive().address().as_usize();
        let start: usize = self.start_page().address().as_usize();
        end_exclusive - start
    }

    /// Splits off the first `num_pages` pages as a new region and shrinks
    /// `self` to the remainder: true bump-allocation semantics, no merge and
    /// no free. Fails, leaving `self` untouched, when the remaining pool is
    /// too small or the offset arithmetic would overflow.
    pub fn take_first_n_pages(&mut self, num_pages: usize) -> (r: Result<Self, &'static str>)
        requires
            num_pages >= 1,
            num_pages <= isize::MAX as usize,
        ensures
            r is Ok <==> spec_take_ok(old(self).start(), old(self).end_exclusive(), num_pages as int),
            r is Ok ==> r->Ok_0.start() == old(self).start(),
            r is Ok ==> r->Ok_0.end_exclusive() == old(self).start() + num_pages * GRANULE_SIZE,
            r is Ok ==> final(self).start() == old(self).start() + num_pages * GRANULE_SIZE,
            r is Ok ==> final(self).end_exclusive() == old(self).end_exclusive(),
            r is Err ==> *final(self) == *old(self),
            r is Err ==> r->Err_0@ == (if old(self).start() + num_pages * GRANULE_SIZE
                > usize::MAX {
                "Overflow while calculating left_end_exclusive"@
            } else {
                "Not enough free pages"@
            }),
    {
        proof {
            use_type_invariant(&*self);
            use_type_invariant(self.end_page_exclusive);
        }
        let left_end_exclusive = match self.start_page.checked_offset(num_pages as isize) {
            None => {
                return Err("Overflow while calculating left_end_exclusive");
            },
            Some(x) => x,
        };
        if left_end_exclusive.address().as_usize() > self.end_page_exclusive.address().as_usize() {
            return Err("Not enough free pages");
        }
        let allocation = MemoryRegion {
            start_page: self.start_page,
            end_page_exclusive: left_end_exclusive,
        };
        self.start_page = left_end_exclusive;
        Ok(allocation)
    }
}

impl<T: AddressType> Clone for MemoryRegion<T> {
    fn clone(&self) -> (r: Self)
        ensures
            r == *self,
    {
        proof {
            use_type_invariant(self);
        }
        MemoryRegion { start_page: self.start_page, end_page_exclusive: self.end_page_exclusive }
    }
}

impl<T: AddressType> Copy for MemoryRegion<T> {

}

/// True when `addr` lies inside the half-open region `[start, end_exclusive)`.
pub open spec fn spec_in_region(addr: int, start: int, end_exclusive: int) -> bool {
    start <= addr < end_exclusive
}

/// Success condition of `take_first_n_pages` on the `[start, end)` region
/// model: the split point neither overflows nor passes the end.
pub open spec fn spec_take_ok(start: int, end_exclusive: int, num_pages: int) -> bool {
    &&& start + num_pages * GRANULE_SIZE <= usize::MAX
    &&& start + num_pages * GRANULE_SIZE <= end_exclusive
}

/// The byte size of a well-formed region is a whole number of pages.
pub proof fn lemma_region_size_is_whole_pages(start: int, end_exclusive: int)
    requires
        spec_region_wf(start, end_exclusive),
    ensures
        (end_exclusive - start) % GRANULE_SIZE as int == 0,
        ((end_exclusive - start) / GRANULE_SIZE as int) * GRANULE_SIZE == end_exclusive - start,
{
    vstd::arithmetic::div_mod::lemma_sub_mod_noop(
        end_exclusive,
        start,
        GRANULE_SIZE as int,
    );
    vstd::arithmetic::div_mod::lemma_small_mod(0nat, GRANULE_SIZE as nat);
    vstd::arithmetic::div_mod::lemma_fundamental_div_mod(
        end_exclusive - start,
        GRANULE_SIZE as int,
    );
}

/// Two back-to-back successful `take_first_n_pages` calls hand out adjacent,
/// disjoint prefixes: the first allocation ends exactly where the second
/// starts, both lie inside the original pool, and the remainder begins after
/// the second allocation. Requests succeed exactly while they fit the
/// remainder; `spec_take_ok` states that bound.
pub proof fn lemma_take_first_n_pages_sequential(
    start: int,
    end_exclusive: int,
    first_count: int,
    second_count: int,
)
    requires
        spec_region_wf(start, end_exclusive),
        first_count >= 1,
        second_count >= 1,
        spec_take_ok(start, end_exclusive, first_count),
        spec_take_ok(start + first_count * GRANULE_SIZE, end_exclusive, second_count),
    ensures
        start + first_count * GRANULE_SIZE <= start + first_count * GRANULE_SIZE
            + second_count * GRANULE_SIZE <= end_exclusive,
        forall|addr: int|
            #[trigger] spec_in_region(addr, start, start + first_count * GRANULE_SIZE)
                ==> !spec_in_region(
                addr,
                start + first_count * GRANULE_SIZE,
                start + first_count * GRANULE_SIZE + second_count * GRANULE_SIZE,
            ),
{
}

/// An MMIO descriptor for use in device drivers: a raw physical window
/// request at byte granularity.
pub struct MMIODescriptor {
    start_addr: Address<Physical>,
    end_addr_exclusive: Address<Physical>,
}

impl MMIODescriptor {
    /// The window is never empty.
    #[verifier::type_invariant]
    spec fn type_inv(self) -> bool {
        self.start_addr@ < self.end_addr_exclusive@
    }

    /// Create an instance. A zero-sized window, like an end address beyond
    /// the address range, is a programming error and is ruled out by
    /// precondition.
    pub fn new(start_addr: Address<Physical>, size: usize) -> (r: Self)
        requires
            size > 0,
            start_addr@ + size <= usize::MAX,
        ensures
            r.start_addr() == start_addr@,
            r.end_addr_exclusive() == start_addr@ + size,
    {
        let end_addr_exclusive = Address::new(start_addr.as_usize() + size);
        MMIODescriptor { start_addr, end_addr_exclusive }
    }

    /// Start of the requested window (inclusive).
    pub closed spec fn start_addr(&self) -> int {
        self.start_addr@
    }

    /// End of the requested window (exclusive).
    pub closed spec fn end_addr_exclusive(&self) -> int {
        self.end_addr_exclusive@
    }

    /// The window's start address.
    pub fn start(&self) -> (r: Address<Physical>)
        ensures
            r@ == self.start_addr(),
            self.start_addr() < self.end_addr_exclusive() <= usize::MAX,
    {
        proof {
            use_type_invariant(self);
        }
        self.start_addr
    }

    /// The window's exclusive end address.
    pub fn end_exclusive(&self) -> (r: Address<Physical>)
        ensures
            r@ == self.end_addr_exclusive(),
            self.start_addr() < self.end_addr_exclusive() <= usize::MAX,
    {
        proof {
            use_type_invariant(self);
        }
        self.end_addr_exclusive
    }

    /// The smallest whole-page region covering the window: start aligned
    /// down, end aligned up.
    pub fn page_region(&self) -> (r: MemoryRegion<Physical>)
        requires
            spec_align_up(self.end_addr_exclusive(), GRANULE_SIZE as int) <= usize::MAX,
        ensures
            r.start() == spec_align_down(self.start_addr(), GRANULE_SIZE as int),
            r.end_exclusive() == spec_align_up(self.end_addr_exclusive(), GRANULE_SIZE as int),
            r.start() < r.end_exclusive(),
    {
        proof {
            use_type_invariant(self);
            crate::lemma_granule_is_power_of_two();
            crate::lemma_remainder_facts(self.start_addr@, GRANULE_SIZE as int);
            crate::lemma_remainder_facts(self.end_addr_exclusive@, GRANULE_SIZE as int);
        }
        let start = PageAddress::from_address(self.start_addr.align_down_page());
        let end_exclusive = PageAddress::from_address(self.end_addr_exclusive.align_up_page());
        MemoryRegion::new(start, end_exclusive)
    }
}

impl Clone for MMIODescriptor {
    fn clone(&self) -> (r: Self)
        ensures
            r == *self,
    {
        proof {
            use_type_invariant(self);
        }
        MMIODescriptor { start_addr: self.start_addr, end_addr_exclusive: self.end_addr_exclusive }
    }
}

impl Copy for MMIODescriptor {

}

/// `checked_offset` by zero steps is the identity.
pub proof fn lemma_checked_offset_zero(addr: int)
    requires
        0 <= addr <= usize::MAX,
    ensures
        spec_checked_offset(addr, 0) == Some(addr),
{
}

/// `checked_offset` by `count` steps followed by `-count` steps is the
/// identity whenever the first offset stays in range (the way back then
/// cannot overflow).
pub proof fn lemma_checked_offset_round_trip(addr: int, count: int)
    requires
        0 <= addr <= usize::MAX,
        spec_checked_offset(addr, count) is Some,
    ensures
        spec_checked_offset(spec_checked_offset(addr, count)->Some_0, -count) == Some(addr),
{
    assert((-count) * GRANULE_SIZE == -(count * GRANULE_SIZE)) by (nonlinear_arith);
}

} // verus!
