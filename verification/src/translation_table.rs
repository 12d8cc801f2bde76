//! The two-level hardware translation table: population and page-level
//! query.
//!
//! The table is a level-3 array of page descriptors (8192 per 512 MiB
//! window), laid out first so it is naturally 64 KiB-aligned, followed by a
//! level-2 array of table descriptors, one per window, each pointing at the
//! corresponding level-3 block. Where the table sits in physical memory is
//! decided at link time; the constructor takes that placement as a value.
//!
//! Page descriptors are map-once: a valid descriptor is never overwritten.
//! A mapping request that cannot be honored in full leaves the table
//! entirely unmodified.

use vstd::prelude::*;

use crate::attributes::AttributeFields;
use crate::bsp::PHYS_ADDR_SPACE_END_EXCLUSIVE;
use crate::descriptor::{
    OUTPUT_ADDR_LIMIT, PageDescriptor, TableDescriptor, spec_descriptor_valid,
    spec_page_descriptor, spec_table_descriptor, spec_try_attributes,
};
use crate::memory::{Address, Physical, Virtual, spec_page_aligned};
use crate::page::{MemoryRegion, PageAddress, spec_in_region};
use crate::{GRANULE_SIZE, L2_SPAN, NUM_LVL3_ENTRIES};

verus! {

broadcast use crate::memory::lemma_address_view_bounds;

/// Level-2 index (window selector) of a virtual address.
pub open spec fn spec_lvl2_index(addr: int) -> int {
    addr / L2_SPAN as int
}

/// Level-3 index (page within its window) of a virtual address.
pub open spec fn spec_lvl3_index(addr: int) -> int {
    (addr % L2_SPAN as int) / GRANULE_SIZE as int
}

/// Linear page slot of a virtual address: level-2 index times entries per
/// window, plus level-3 index.
pub open spec fn spec_page_slot(addr: int) -> int {
    addr / GRANULE_SIZE as int
}

/// The two index fields of a page-aligned address compose to its linear
/// page slot.
pub proof fn lemma_page_index_decompose(addr: int)
    requires
        addr >= 0,
        spec_page_aligned(addr),
    ensures
        spec_lvl2_index(addr) == spec_page_slot(addr) / NUM_LVL3_ENTRIES as int,
        spec_lvl3_index(addr) == spec_page_slot(addr) % NUM_LVL3_ENTRIES as int,
        0 <= spec_lvl3_index(addr) < NUM_LVL3_ENTRIES,

        spec_lvl2_index(addr) * NUM_LVL3_ENTRIES + spec_lvl3_index(addr) == spec_page_slot(addr),
        spec_lvl2_index(addr) >= 0,
        spec_page_slot(addr) >= 0,
{
    let g = GRANULE_SIZE as int;
    let n = NUM_LVL3_ENTRIES as int;
    vstd::arithmetic::div_mod::lemma_breakdown(addr, g, n);
    assert(addr % (g * n) == g * ((addr / g) % n) + addr % g);
    vstd::arithmetic::div_mod::lemma_div_denominator(addr, g, n);
    assert(spec_lvl2_index(addr) == (addr / g) / n);
    vstd::arithmetic::div_mod::lemma_div_pos_is_pos(addr, g);
    vstd::arithmetic::div_mod::lemma_fundamental_div_mod(addr / g, n);
    vstd::arithmetic::div_mod::lemma_mod_bound(addr / g, n);
    vstd::arithmetic::div_mod::lemma_fundamental_div_mod_converse_div(
        addr % (g * n),
        g,
        (addr / g) % n,
        0,
    );
    vstd::arithmetic::div_mod::lemma_div_pos_is_pos(addr / g, n);
}

/// Two page slots with the same level-2 and level-3 indices are the same
/// slot.
pub proof fn lemma_slot_unique(s1: int, s2: int)
    requires
        s1 >= 0,
        s2 >= 0,
        s1 / NUM_LVL3_ENTRIES as int == s2 / NUM_LVL3_ENTRIES as int,
        s1 % NUM_LVL3_ENTRIES as int == s2 % NUM_LVL3_ENTRIES as int,
    ensures
        s1 == s2,
{
    vstd::arithmetic::div_mod::lemma_fundamental_div_mod(s1, NUM_LVL3_ENTRIES as int);
    vstd::arithmetic::div_mod::lemma_fundamental_div_mod(s2, NUM_LVL3_ENTRIES as int);
}

/// Interface of the kernel's translation table. An implementation brings
/// its own well-formedness predicate and the exact meaning of each
/// operation as specification functions.
pub trait TranslationTable: Sized {
    /// The implementation's internal shape is intact.
    spec fn wf(&self) -> bool;

    /// `init` has been run.
    spec fn initialized(&self) -> bool;

    /// What `init` does.
    spec fn init_ens(&self, post: &Self) -> bool;

    /// What `phys_base_address` returns.
    spec fn phys_base_address_ens(&self, r: Address<Physical>) -> bool;

    /// What `map_at` does and when it succeeds.
    spec fn map_at_ens(
        &self,
        post: &Self,
        virt_region: MemoryRegion<Virtual>,
        phys_region: MemoryRegion<Physical>,
        attr: AttributeFields,
        r: Result<(), &'static str>,
    ) -> bool;

    /// What `try_page_attributes` returns.
    spec fn try_page_attributes_ens(
        &self,
        virt_page_addr: PageAddress<Virtual>,
        r: Result<AttributeFields, &'static str>,
    ) -> bool;

    /// The translation table's one-time setup: populate the level-2
    /// descriptors. Idempotent.
    fn init(&mut self)
        requires
            old(self).wf(),
        ensures
            final(self).wf(),
            final(self).initialized(),
            old(self).init_ens(final(self)),
    ;

    /// The physical address of the level-2 table array, to be programmed
    /// into the hardware translation-base register.
    fn phys_base_address(&self) -> (r: Address<Physical>)
        requires
            self.wf(),
        ensures
            self.phys_base_address_ens(r),
    ;

    /// Map a virtual region to a physical region of equal size with the
    /// given attributes. Calling this before `init` is a fatal precondition
    /// violation. No aliasing check is performed; callers are trusted not
    /// to map one physical page through two virtual pages.
    fn map_at(
        &mut self,
        virt_region: &MemoryRegion<Virtual>,
        phys_region: &MemoryRegion<Physical>,
        attr: &AttributeFields,
    ) -> (r: Result<(), &'static str>)
        requires
            old(self).wf(),
            old(self).initialized(),
        ensures
            final(self).wf(),
            final(self).initialized(),
            old(self).map_at_ens(final(self), *virt_region, *phys_region, *attr, r),
    ;

    /// Look up the attributes recorded for a virtual page.
    fn try_page_attributes(&self, virt_page_addr: PageAddress<Virtual>) -> (r: Result<
        AttributeFields,
        &'static str,
    >)
        requires
            self.wf(),
        ensures
            self.try_page_attributes_ens(virt_page_addr, r),
    ;
}

/// Intended to be implemented for [`crate::granule::AddressSpace`]: the
/// translation table type associated with an address-space size.
pub trait AssociatedTranslationTable {
    /// A translation table whose address range is `[AS_SIZE - 1, 0]`.
    type Table;
}

/// Monolithic storage for the translation tables: the level-3 blocks first
/// (one 64 KiB block of 8192 descriptors per 512 MiB window), the level-2
/// array after them.
pub struct FixedSizeTranslationTable {
    /// Page descriptors, covering 64 KiB windows per entry.
    lvl3: Vec<Vec<PageDescriptor>>,
    /// Table descriptors, covering 512 MiB windows.
    lvl2: Vec<TableDescriptor>,
    /// Physical address of the first level-3 block: where the link step
    /// placed this structure.
    phys_start: PageAddress<Physical>,
    /// Have the tables been initialized?
    initialized: bool,
}

impl FixedSizeTranslationTable {
    /// Number of 512 MiB windows the table covers.
    pub closed spec fn num_tables(&self) -> int {
        self.lvl2@.len() as int
    }

    /// Physical address of the first level-3 block.
    pub closed spec fn phys_start(&self) -> int {
        self.phys_start@
    }

    /// The encoded page descriptor at linear page slot `s`.
    pub closed spec fn l3_slot(&self, s: int) -> u64 {
        self.lvl3@[s / NUM_LVL3_ENTRIES as int]@[s % NUM_LVL3_ENTRIES as int].value()
    }

    /// The encoded level-2 descriptor of window `i`.
    pub closed spec fn l2_value(&self, i: int) -> u64 {
        self.lvl2@[i].value()
    }

    /// Internal shape: at least one window, one level-3 block of 8192
    /// descriptors per window, and a page-aligned physical placement whose
    /// level-2 array still lies inside the hardware's 48-bit output range
    /// and the machine's address range.
    pub closed spec fn table_wf(&self) -> bool {
        &&& self.lvl2@.len() >= 1
        &&& self.lvl3@.len() == self.lvl2@.len()
        &&& forall|i: int|
            0 <= i < self.lvl3@.len() ==> #[trigger] self.lvl3@[i]@.len() == NUM_LVL3_ENTRIES
        &&& spec_page_aligned(self.phys_start@)
        &&& 0 <= self.phys_start@
        &&& self.phys_start@ + self.num_tables() * GRANULE_SIZE + self.num_tables() * 8
            <= usize::MAX
        &&& self.phys_start@ + self.num_tables() * GRANULE_SIZE <= OUTPUT_ADDR_LIMIT
    }

    /// `init` has been run.
    pub closed spec fn is_initialized(&self) -> bool {
        self.initialized
    }

    /// Create an instance covering `num_tables` 512 MiB windows, to live at
    /// physical address `phys_start`. All descriptors start zeroed
    /// (invalid). The placement must leave the whole structure inside the
    /// machine's address range and the 48-bit output range.
    #[verifier::loop_isolation(false)]
    pub fn new(num_tables: usize, phys_start: PageAddress<Physical>) -> (r: Self)
        requires
            num_tables >= 1,
            phys_start@ + num_tables * GRANULE_SIZE + num_tables * 8 <= usize::MAX,
            phys_start@ + num_tables * GRANULE_SIZE <= OUTPUT_ADDR_LIMIT,
        ensures
            r.table_wf(),
            !r.is_initialized(),
            r.num_tables() == num_tables,
            r.phys_start() == phys_start@,
            forall|s: int|
                0 <= s < num_tables * NUM_LVL3_ENTRIES ==> #[trigger] r.l3_slot(s) == 0,
            forall|i: int| 0 <= i < num_tables ==> #[trigger] r.l2_value(i) == 0,
    {
        let mut lvl3: Vec<Vec<PageDescriptor>> = Vec::new();
        let mut lvl2: Vec<TableDescriptor> = Vec::new();
        for i in 0..num_tables
            invariant
                lvl3@.len() == i,
                lvl2@.len() == i,
                forall|k: int| 0 <= k < i ==> #[trigger] lvl3@[k]@.len() == NUM_LVL3_ENTRIES,
                forall|k: int, j: int|
                    0 <= k < i && 0 <= j < NUM_LVL3_ENTRIES ==> (#[trigger] lvl3@[k]@[j]).value()
                        == 0,
                forall|k: int| 0 <= k < i ==> (#[trigger] lvl2@[k]).value() == 0,
        {
            let mut block: Vec<PageDescriptor> = Vec::new();
            for j in 0..NUM_LVL3_ENTRIES
                invariant
                    block@.len() == j,
                    forall|m: int| 0 <= m < j ==> (#[trigger] block@[m]).value() == 0,
            {
                block.push(PageDescriptor::new_zeroed());
            }
            lvl3.push(block);
            lvl2.push(TableDescriptor::new_zeroed());
        }
        let base = phys_start.address();
        let r = FixedSizeTranslationTable { lvl3, lvl2, phys_start, initialized: false };
        proof {
            assert forall|s: int| 0 <= s < num_tables * NUM_LVL3_ENTRIES implies #[trigger] r
                .l3_slot(s) == 0 by {
                lemma_slot_index_bounds(s, num_tables as int);
            }
        }
        r
    }
}

/// Slot `s` exists in a table of `num_tables` windows and is still
/// unmapped there.
pub open spec fn spec_slot_clear(t: &FixedSizeTranslationTable, num_tables: int, s: int) -> bool {
    s < num_tables * NUM_LVL3_ENTRIES && !spec_descriptor_valid(t.l3_slot(s))
}

/// Whether `map_at` can honor a request against the given table state: the
/// two regions have one size, the physical region stays inside the
/// platform's physical address space, and every targeted page slot exists
/// and is still invalid (map-once policy).
pub open spec fn spec_map_fits_at(
    t: &FixedSizeTranslationTable,
    v_start: int,
    v_end: int,
    p_start: int,
    p_end: int,
) -> bool {
    let s0 = spec_page_slot(v_start);
    let n = (v_end - v_start) / GRANULE_SIZE as int;
    &&& v_end - v_start == p_end - p_start
    &&& p_end <= PHYS_ADDR_SPACE_END_EXCLUSIVE
    &&& forall|s: int|
        spec_in_region(s, s0, s0 + n) ==> #[trigger] spec_slot_clear(t, t.num_tables(), s)
}

/// `spec_map_fits_at` on a pair of regions.
pub open spec fn spec_map_fits(
    t: &FixedSizeTranslationTable,
    virt_region: MemoryRegion<Virtual>,
    phys_region: MemoryRegion<Physical>,
) -> bool {
    spec_map_fits_at(
        t,
        virt_region.start(),
        virt_region.end_exclusive(),
        phys_region.start(),
        phys_region.end_exclusive(),
    )
}

/// The table state after a successful `map_at`: each targeted slot holds
/// the page descriptor for its physical page, every other slot, the
/// level-2 array, the placement and the initialized flag are untouched.
pub open spec fn spec_map_effect_at(
    pre: &FixedSizeTranslationTable,
    post: &FixedSizeTranslationTable,
    v_start: int,
    v_end: int,
    p_start: int,
    attr: AttributeFields,
) -> bool {
    let s0 = spec_page_slot(v_start);
    let n = (v_end - v_start) / GRANULE_SIZE as int;
    let p0 = p_start;
    &&& post.num_tables() == pre.num_tables()
    &&& post.phys_start() == pre.phys_start()
    &&& post.is_initialized() == pre.is_initialized()
    &&& forall|i: int| 0 <= i < pre.num_tables() ==> post.l2_value(i) == pre.l2_value(i)
    &&& forall|s: int|
        spec_in_region(s, s0, s0 + n) ==> post.l3_slot(s) == #[trigger] spec_page_descriptor(
            (p0 + (s - s0) * GRANULE_SIZE) as u64,
            attr,
        )
    &&& forall|s: int|
        0 <= s < pre.num_tables() * NUM_LVL3_ENTRIES && !spec_in_region(s, s0, s0 + n)
            ==> post.l3_slot(s) == #[trigger] pre.l3_slot(s)
}

/// `spec_map_effect_at` on a pair of regions.
pub open spec fn spec_map_effect(
    pre: &FixedSizeTranslationTable,
    post: &FixedSizeTranslationTable,
    virt_region: MemoryRegion<Virtual>,
    phys_region: MemoryRegion<Physical>,
    attr: AttributeFields,
) -> bool {
    spec_map_effect_at(
        pre,
        post,
        virt_region.start(),
        virt_region.end_exclusive(),
        phys_region.start(),
        attr,
    )
}

impl FixedSizeTranslationTable {
    /// Helper to calculate the lvl2 and lvl3 indices from an address.
    fn lvl2_lvl3_index_from_page_addr(&self, virt_page_addr: PageAddress<Virtual>) -> (r: Result<
        (usize, usize),
        &'static str,
    >)
        requires
            self.table_wf(),
        ensures
            r is Ok <==> spec_lvl2_index(virt_page_addr@) < self.num_tables(),
            r is Ok ==> r->Ok_0.0 == spec_lvl2_index(virt_page_addr@) && r->Ok_0.1
                == spec_lvl3_index(virt_page_addr@) && r->Ok_0.1 < NUM_LVL3_ENTRIES,
            spec_page_aligned(virt_page_addr@),
            r is Err ==> r->Err_0@ == "Virtual page is out of bounds of translation table"@,
    {
        let addr: usize = virt_page_addr.address().as_usize();
        let lvl2_index: usize = addr / L2_SPAN;
        let lvl3_index: usize = (addr % L2_SPAN) / GRANULE_SIZE;
        proof {
            vstd::arithmetic::div_mod::lemma_mod_bound(addr as int, L2_SPAN as int);
            vstd::arithmetic::div_mod::lemma_div_is_ordered(
                addr as int % L2_SPAN as int,
                L2_SPAN as int,
                GRANULE_SIZE as int,
            );
        }
        if lvl2_index > self.lvl2.len() - 1 {
            return Err("Virtual page is out of bounds of translation table");
        }
        Ok((lvl2_index, lvl3_index))
    }
}

impl TranslationTable for FixedSizeTranslationTable {
    open spec fn wf(&self) -> bool {
        self.table_wf()
    }

    open spec fn initialized(&self) -> bool {
        self.is_initialized()
    }

    /// A second call is a no-op; the first fills each level-2 descriptor
    /// with a table pointer to its level-3 block, which sits `i` granules
    /// past the structure's physical start.
    open spec fn init_ens(&self, post: &Self) -> bool {
        &&& self.is_initialized() ==> *post == *self
        &&& post.num_tables() == self.num_tables()
        &&& post.phys_start() == self.phys_start()
        &&& forall|s: int|
            0 <= s < self.num_tables() * NUM_LVL3_ENTRIES ==> post.l3_slot(s) == self.l3_slot(s)
        &&& !self.is_initialized() ==> forall|i: int|
            0 <= i < self.num_tables() ==> post.l2_value(i) == spec_table_descriptor(
                (self.phys_start() + i * GRANULE_SIZE) as u64,
            )
    }

    /// The level-2 array begins right after the `num_tables` level-3
    /// blocks of one granule each.
    open spec fn phys_base_address_ens(&self, r: Address<Physical>) -> bool {
        r@ == self.phys_start() + self.num_tables() * GRANULE_SIZE
    }

    open spec fn map_at_ens(
        &self,
        post: &Self,
        virt_region: MemoryRegion<Virtual>,
        phys_region: MemoryRegion<Physical>,
        attr: AttributeFields,
        r: Result<(), &'static str>,
    ) -> bool {
        &&& (r is Ok <==> spec_map_fits(self, virt_region, phys_region))
        &&& (r is Ok ==> spec_map_effect(self, post, virt_region, phys_region, attr))
        &&& (r is Err ==> *post == *self)
        &&& (virt_region.end_exclusive() - virt_region.start() != phys_region.end_exclusive()
            - phys_region.start() ==> r is Err && r->Err_0@
            == "Tried to map memory regions with unequal sizes"@)
        &&& (virt_region.end_exclusive() - virt_region.start() == phys_region.end_exclusive()
            - phys_region.start() && phys_region.end_exclusive()
            > PHYS_ADDR_SPACE_END_EXCLUSIVE ==> r is Err && r->Err_0@
            == "Tried to map outside of physical address space"@)
        &&& (r is Err && virt_region.end_exclusive() - virt_region.start()
            == phys_region.end_exclusive() - phys_region.start() && phys_region.end_exclusive()
            <= PHYS_ADDR_SPACE_END_EXCLUSIVE ==> (r->Err_0@
            == "Virtual page is out of bounds of translation table"@ || r->Err_0@
            == "Virtual page is already mapped"@))
    }

    open spec fn try_page_attributes_ens(
        &self,
        virt_page_addr: PageAddress<Virtual>,
        r: Result<AttributeFields, &'static str>,
    ) -> bool {
        let addr = virt_page_addr@;
        let s = spec_page_slot(addr);
        let in_bounds = spec_lvl2_index(addr) < self.num_tables();
        let valid = spec_descriptor_valid(self.l3_slot(s));
        let decoded = spec_try_attributes(self.l3_slot(s));
        &&& (r is Ok <==> in_bounds && valid && decoded is Some)
        &&& (r is Ok ==> r->Ok_0 == decoded->Some_0)
        &&& (!in_bounds ==> r is Err && r->Err_0@
            == "Virtual page is out of bounds of translation table"@)
        &&& (in_bounds && !valid ==> r is Err && r->Err_0@ == "Page marked invalid"@)
    }

    #[verifier::loop_isolation(false)]
    fn init(&mut self) {
        if self.initialized {
            return ;
        }
        let nt: usize = self.lvl2.len();
        let base: usize = self.phys_start.address().as_usize();
        let mut new_lvl2: Vec<TableDescriptor> = Vec::new();
        for i in 0..nt
            invariant
                self == old(self),
                nt == old(self).num_tables(),
                base == old(self).phys_start(),
                old(self).table_wf(),
                new_lvl2@.len() == i,
                forall|k: int|
                    0 <= k < i ==> (#[trigger] new_lvl2@[k]).value() == spec_table_descriptor(
                        (base + k * GRANULE_SIZE) as u64,
                    ),
        {
            let addr: usize = base + i * GRANULE_SIZE;
            proof {
                vstd::arithmetic::div_mod::lemma_mod_multiples_vanish(
                    i as int,
                    base as int,
                    GRANULE_SIZE as int,
                );
            }
            let desc = TableDescriptor::from_phys_addr(PageAddress::from_usize(addr));
            new_lvl2.push(desc);
        }
        self.lvl2 = new_lvl2;
        self.initialized = true;
    }

    fn phys_base_address(&self) -> (r: Address<Physical>) {
        Address::new(self.phys_start.address().as_usize() + self.lvl2.len() * GRANULE_SIZE)
    }

    #[verifier::loop_isolation(false)]
    fn map_at(
        &mut self,
        virt_region: &MemoryRegion<Virtual>,
        phys_region: &MemoryRegion<Physical>,
        attr: &AttributeFields,
    ) -> (r: Result<(), &'static str>) {
        if virt_region.size() != phys_region.size() {
            return Err("Tried to map memory regions with unequal sizes");
        }
        let phys_end: usize = phys_region.end_page_exclusive().address().as_usize();
        if phys_end as u64 > PHYS_ADDR_SPACE_END_EXCLUSIVE {
            return Err("Tried to map outside of physical address space");
        }
        let num_pages: usize = virt_region.num_pages();
        let v0: usize = virt_region.start_page().address().as_usize();
        let p0: usize = phys_region.start_page().address().as_usize();
        let s0: usize = v0 / GRANULE_SIZE;
        let nt: usize = self.lvl2.len();
        proof {
            vstd::arithmetic::div_mod::lemma_fundamental_div_mod(v0 as int, GRANULE_SIZE as int);
            vstd::arithmetic::div_mod::lemma_fundamental_div_mod(p0 as int, GRANULE_SIZE as int);
        }
        let ghost table0 = *self;
        // First pass: check every targeted slot, touching nothing, so that
        // a failed request leaves the table unmodified.
        for k in 0..num_pages
            invariant
                *self == table0,
                table0 == *old(self),
                table0.table_wf(),
                nt == table0.num_tables(),
                s0 == spec_page_slot(virt_region.start()),
                s0 * GRANULE_SIZE == virt_region.start(),
                num_pages * GRANULE_SIZE == virt_region.end_exclusive() - virt_region.start(),
                virt_region.end_exclusive() <= usize::MAX,
                forall|s: int|
                    spec_in_region(s, s0 as int, s0 + k) ==> #[trigger] spec_slot_clear(
                        &table0,
                        nt as int,
                        s,
                    ),
        {
            let s: usize = s0 + k;
            let i: usize = s / NUM_LVL3_ENTRIES;
            let j: usize = s % NUM_LVL3_ENTRIES;
            proof {
                lemma_slot_in_bounds_arith(s0 as int, k as int, num_pages as int);
            }
            if i >= nt {
                proof {
                    vstd::arithmetic::div_mod::lemma_mod_bound(s as int, NUM_LVL3_ENTRIES as int);
                    vstd::arithmetic::div_mod::lemma_fundamental_div_mod(
                        s as int,
                        NUM_LVL3_ENTRIES as int,
                    );
                    assert(s >= nt * NUM_LVL3_ENTRIES) by (nonlinear_arith)
                        requires
                            s as int / NUM_LVL3_ENTRIES as int >= nt,
                            s as int % NUM_LVL3_ENTRIES as int >= 0,
                            s as int == NUM_LVL3_ENTRIES as int * (s as int
                                / NUM_LVL3_ENTRIES as int) + s as int % NUM_LVL3_ENTRIES as int,
                    ;
                    assert(spec_in_region(s as int, s0 as int, s0 + num_pages as int));
                    assert(!spec_slot_clear(&table0, nt as int, s as int));
                    assert(!spec_map_fits(old(self), *virt_region, *phys_region));
                }
                return Err("Virtual page is out of bounds of translation table");
            }
            proof {
                vstd::arithmetic::div_mod::lemma_mod_bound(s as int, NUM_LVL3_ENTRIES as int);
                vstd::arithmetic::div_mod::lemma_fundamental_div_mod(
                    s as int,
                    NUM_LVL3_ENTRIES as int,
                );
                vstd::arithmetic::mul::lemma_mul_inequality(
                    i as int + 1,
                    nt as int,
                    NUM_LVL3_ENTRIES as int,
                );
                assert(s < nt * NUM_LVL3_ENTRIES);
                lemma_slot_index_bounds(s as int, nt as int);
            }
            if self.lvl3[i][j].is_valid() {
                proof {
                    assert(spec_in_region(s as int, s0 as int, s0 + num_pages as int));
                    assert(!spec_slot_clear(&table0, nt as int, s as int));
                    assert(!spec_map_fits(old(self), *virt_region, *phys_region));
                }
                return Err("Virtual page is already mapped");
            }
            proof {
                assert forall|t: int|
                    spec_in_region(t, s0 as int, s0 as int + k as int + 1)
                    implies #[trigger] spec_slot_clear(&table0, nt as int, t) by {
                    if t < s0 + k {
                        assert(spec_in_region(t, s0 as int, s0 + k as int));
                    } else {
                        assert(t == s as int);
                        assert(table0.l3_slot(t) == self.lvl3@[i as int]@[j as int].value());
                    }
                }
            }
        }
        // Second pass: write the descriptors.
        for k in 0..num_pages
            invariant
                table0 == *old(self),
                table0.table_wf(),
                self.table_wf(),
                nt == table0.num_tables(),
                self.num_tables() == nt,
                self.phys_start() == table0.phys_start(),
                self.is_initialized() == table0.is_initialized(),
                forall|i: int| 0 <= i < nt ==> self.l2_value(i) == table0.l2_value(i),
                s0 == spec_page_slot(virt_region.start()),
                s0 * GRANULE_SIZE == virt_region.start(),
                p0 == phys_region.start(),
                p0 as int % GRANULE_SIZE as int == 0,
                num_pages * GRANULE_SIZE == virt_region.end_exclusive() - virt_region.start(),
                num_pages * GRANULE_SIZE == phys_region.end_exclusive() - phys_region.start(),
                virt_region.end_exclusive() <= usize::MAX,
                phys_region.end_exclusive() <= PHYS_ADDR_SPACE_END_EXCLUSIVE,
                forall|s: int|
                    spec_in_region(s, s0 as int, s0 + num_pages as int)
                        ==> #[trigger] spec_slot_clear(&table0, nt as int, s),
                forall|s: int|
                    spec_in_region(s, s0 as int, s0 + k) ==> self.l3_slot(s)
                        == #[trigger] spec_page_descriptor(
                        (p0 + (s - s0) * GRANULE_SIZE) as u64,
                        *attr,
                    ),
                forall|s: int|
                    0 <= s < nt * NUM_LVL3_ENTRIES && !spec_in_region(s, s0 as int, s0 + k)
                        ==> self.l3_slot(s) == #[trigger] table0.l3_slot(s),
        {
            let s: usize = s0 + k;
            let i: usize = s / NUM_LVL3_ENTRIES;
            let j: usize = s % NUM_LVL3_ENTRIES;
            proof {
                lemma_slot_in_bounds_arith(s0 as int, k as int, num_pages as int);
                assert(spec_in_region(s as int, s0 as int, s0 + num_pages as int));
                assert(spec_slot_clear(&table0, nt as int, s as int));
                lemma_slot_index_bounds(s as int, nt as int);
                vstd::arithmetic::div_mod::lemma_mod_multiples_vanish(
                    k as int,
                    p0 as int,
                    GRANULE_SIZE as int,
                );
            }
            let paddr: usize = p0 + k * GRANULE_SIZE;
            let pdesc = PageDescriptor::new(PageAddress::from_usize(paddr), attr);
            let ghost prev = *self;
            self.lvl3[i][j] = pdesc;
            proof {
                assert forall|m: int| 0 <= m < self.lvl3@.len() implies #[trigger] self.lvl3@[m]@
                    .len() == NUM_LVL3_ENTRIES by {
                    assert(prev.lvl3@[m]@.len() == NUM_LVL3_ENTRIES);
                }
                assert forall|t: int|
                    0 <= t < nt * NUM_LVL3_ENTRIES && t != s implies self.l3_slot(t) == prev
                    .l3_slot(t) by {
                    lemma_slot_index_bounds(t, nt as int);
                    if t / NUM_LVL3_ENTRIES as int == i as int && t % NUM_LVL3_ENTRIES as int
                        == j as int {
                        lemma_slot_unique(t, s as int);
                    }
                }
                assert(self.l3_slot(s as int) == pdesc.value());
                assert forall|t: int|
                    spec_in_region(t, s0 as int, s0 + k + 1) implies self.l3_slot(t)
                    == #[trigger] spec_page_descriptor(
                    (p0 + (t - s0) * GRANULE_SIZE) as u64,
                    *attr,
                ) by {
                    assert(spec_in_region(t, s0 as int, s0 + num_pages as int));
                    if t < s0 + k {
                        assert(spec_in_region(t, s0 as int, s0 + k as int));
                    } else {
                        assert(t == s);
                    }
                }
                assert forall|t: int|
                    0 <= t < nt * NUM_LVL3_ENTRIES && !spec_in_region(t, s0 as int, s0 + k + 1)
                    implies self.l3_slot(t) == #[trigger] table0.l3_slot(t) by {
                    assert(!spec_in_region(t, s0 as int, s0 + k as int));
                    assert(t != s);
                }
            }
        }
        proof {
            vstd::arithmetic::div_mod::lemma_fundamental_div_mod_converse_div(
                virt_region.end_exclusive() - virt_region.start(),
                GRANULE_SIZE as int,
                num_pages as int,
                0,
            );
            assert(spec_map_fits(old(self), *virt_region, *phys_region));
            assert(spec_map_effect(old(self), self, *virt_region, *phys_region, *attr));
        }
        Ok(())
    }

    fn try_page_attributes(&self, virt_page_addr: PageAddress<Virtual>) -> (r: Result<
        AttributeFields,
        &'static str,
    >) {
        let indices = match self.lvl2_lvl3_index_from_page_addr(virt_page_addr) {
            Err(e) => {
                return Err(e);
            },
            Ok(x) => x,
        };
        proof {
            lemma_page_index_decompose(virt_page_addr@);
        }
        let page_desc = self.lvl3[indices.0][indices.1];
        if !page_desc.is_valid() {
            return Err("Page marked invalid");
        }
        page_desc.try_attributes()
    }
}

/// Mapping, then asking: after a successful `map_at` of page-aligned,
/// equal-sized, in-bounds regions, `try_page_attributes` on every contained
/// virtual page returns exactly the attributes the mapping was made with
/// (the always-forced unprivileged-execute-never bit is not part of them).
pub proof fn lemma_map_then_attributes(
    pre: FixedSizeTranslationTable,
    post: FixedSizeTranslationTable,
    virt_region: MemoryRegion<Virtual>,
    phys_region: MemoryRegion<Physical>,
    attr: AttributeFields,
    virt_page_addr: PageAddress<Virtual>,
    k: int,
)
    requires
        pre.map_at_ens(&post, virt_region, phys_region, attr, Ok(())),
        crate::page::spec_region_wf(virt_region.start(), virt_region.end_exclusive()),
        crate::page::spec_region_wf(phys_region.start(), phys_region.end_exclusive()),
        0 <= k < (virt_region.end_exclusive() - virt_region.start()) / GRANULE_SIZE as int,
        virt_page_addr@ == virt_region.start() + k * GRANULE_SIZE,
    ensures
        forall|r: Result<AttributeFields, &'static str>|
            post.try_page_attributes_ens(virt_page_addr, r) ==> r == Ok::<
                AttributeFields,
                &'static str,
            >(attr),
{
    let g = GRANULE_SIZE as int;
    let s0 = spec_page_slot(virt_region.start());
    let n = (virt_region.end_exclusive() - virt_region.start()) / g;
    let addr = virt_page_addr@;
    let s = spec_page_slot(addr);
    vstd::arithmetic::div_mod::lemma_fundamental_div_mod(virt_region.start(), g);
    vstd::arithmetic::div_mod::lemma_fundamental_div_mod_converse_div(
        addr,
        g,
        s0 + k,
        0,
    );
    assert(s == s0 + k);
    assert(spec_in_region(s, s0, s0 + n));
    assert(spec_slot_clear(&pre, pre.num_tables(), s));
    let p0 = phys_region.start();
    let out_addr = p0 + (s - s0) * g;
    assert(post.l3_slot(s) == spec_page_descriptor((out_addr) as u64, attr));
    assert(out_addr == p0 + k * g);
    assert(out_addr % g == 0) by {
        vstd::arithmetic::div_mod::lemma_mod_multiples_vanish(k, p0, g);
    };
    assert(0 <= out_addr < OUTPUT_ADDR_LIMIT) by {
        vstd::arithmetic::div_mod::lemma_fundamental_div_mod_converse_div(
            phys_region.end_exclusive() - phys_region.start(),
            g,
            n,
            0,
        );
        assert((k + 1) * g <= n * g) by (nonlinear_arith)
            requires k + 1 <= n, g > 0;
    };
    crate::descriptor::lemma_page_descriptor_round_trip((out_addr) as u64, attr);
    assert(spec_lvl2_index(addr) < post.num_tables()) by {
        lemma_page_index_decompose(addr);
        vstd::arithmetic::div_mod::lemma_mod_bound(s, NUM_LVL3_ENTRIES as int);
        vstd::arithmetic::div_mod::lemma_fundamental_div_mod(s, NUM_LVL3_ENTRIES as int);
        if spec_lvl2_index(addr) >= post.num_tables() {
            vstd::arithmetic::mul::lemma_mul_inequality(
                post.num_tables(),
                spec_lvl2_index(addr),
                NUM_LVL3_ENTRIES as int,
            );
        }
    };
}

/// Page slots stay inside the machine's range: with the region end in
/// range, `s0 + k` cannot overflow.
proof fn lemma_slot_in_bounds_arith(s0: int, k: int, num_pages: int)
    requires
        s0 >= 0,
        0 <= k < num_pages,
        (s0 + num_pages) * GRANULE_SIZE <= usize::MAX + GRANULE_SIZE,
    ensures
        s0 + k < usize::MAX,
{
    assert((s0 + num_pages) * GRANULE_SIZE == s0 * GRANULE_SIZE + num_pages * GRANULE_SIZE);
}

impl FixedSizeTranslationTable {
    /// Number of level-2 windows, as a value.
    pub fn lvl2_len(&self) -> (r: usize)
        requires
            self.table_wf(),
        ensures
            r == self.num_tables(),
    {
        self.lvl2.len()
    }

    /// The level-2 descriptor of window `lvl2_index`, for introspection and
    /// image serialization.
    pub fn lvl2_descriptor(&self, lvl2_index: usize) -> (r: TableDescriptor)
        requires
            self.table_wf(),
            lvl2_index < self.num_tables(),
        ensures
            r.value() == self.l2_value(lvl2_index as int),
    {
        self.lvl2[lvl2_index]
    }

    /// The page descriptor at entry `lvl3_index` of window `lvl2_index`,
    /// for introspection and image serialization.
    pub fn lvl3_descriptor(&self, lvl2_index: usize, lvl3_index: usize) -> (r: PageDescriptor)
        requires
            self.table_wf(),
            lvl2_index < self.num_tables(),
            lvl3_index < NUM_LVL3_ENTRIES,
        ensures
            r.value() == self.l3_slot(lvl2_index * NUM_LVL3_ENTRIES + lvl3_index),
    {
        proof {
            let s = lvl2_index * NUM_LVL3_ENTRIES + lvl3_index as int;
            vstd::arithmetic::div_mod::lemma_fundamental_div_mod_converse_div(
                s,
                NUM_LVL3_ENTRIES as int,
                lvl2_index as int,
                lvl3_index as int,
            );
            vstd::arithmetic::div_mod::lemma_fundamental_div_mod_converse_mod(
                s,
                NUM_LVL3_ENTRIES as int,
                lvl2_index as int,
                lvl3_index as int,
            );
        }
        self.lvl3[lvl2_index][lvl3_index]
    }
}

impl FixedSizeTranslationTable {
    /// The table's in-image bytes: the level-3 blocks first (so they sit
    /// granule-aligned), the level-2 array right after them, every
    /// descriptor as eight little-endian bytes. This is the exact size and
    /// field layout of the structure whose bytes the link step patches
    /// into the built image.
    #[verifier::loop_isolation(false)]
    pub fn serialized(&self) -> (r: Vec<u8>)
        requires
            self.table_wf(),
        ensures
            r@.len() == self.num_tables() * GRANULE_SIZE + self.num_tables() * 8,
            forall|s: int|
                0 <= s < self.num_tables() * NUM_LVL3_ENTRIES ==> #[trigger] r@.subrange(
                    s * 8,
                    s * 8 + 8,
                ) == vstd::bytes::spec_u64_to_le_bytes(self.l3_slot(s)),
            forall|i: int|
                0 <= i < self.num_tables() ==> #[trigger] r@.subrange(
                    self.num_tables() * GRANULE_SIZE + i * 8,
                    self.num_tables() * GRANULE_SIZE + i * 8 + 8,
                ) == vstd::bytes::spec_u64_to_le_bytes(self.l2_value(i)),
    {
        let nt: usize = self.lvl2.len();
        proof {
            assert(nt * NUM_LVL3_ENTRIES <= nt * GRANULE_SIZE) by (nonlinear_arith)
                requires nt >= 0;
        }
        let num_slots: usize = nt * NUM_LVL3_ENTRIES;
        let mut out: Vec<u8> = Vec::new();
        proof {
            assert(num_slots * 8 == nt * GRANULE_SIZE) by (nonlinear_arith)
                requires num_slots == nt * NUM_LVL3_ENTRIES;
        }
        for s in 0..num_slots
            invariant
                out@.len() == s * 8,
                forall|t: int|
                    0 <= t < s ==> #[trigger] out@.subrange(t * 8, t * 8 + 8)
                        == vstd::bytes::spec_u64_to_le_bytes(self.l3_slot(t)),
        {
            let i: usize = s / NUM_LVL3_ENTRIES;
            let j: usize = s % NUM_LVL3_ENTRIES;
            proof {
                lemma_slot_index_bounds(s as int, nt as int);
            }
            let desc = self.lvl3_descriptor(i, j);
            let mut bytes = vstd::bytes::u64_to_le_bytes(desc.raw_value());
            let ghost before = out@;
            out.append(&mut bytes);
            proof {
                vstd::arithmetic::div_mod::lemma_fundamental_div_mod(
                    s as int,
                    NUM_LVL3_ENTRIES as int,
                );
                assert(i * NUM_LVL3_ENTRIES + j == s);
                assert forall|t: int| 0 <= t < s + 1 implies #[trigger] out@.subrange(
                    t * 8,
                    t * 8 + 8,
                ) == vstd::bytes::spec_u64_to_le_bytes(self.l3_slot(t)) by {
                    if t < s {
                        assert(out@.subrange(t * 8, t * 8 + 8) =~= before.subrange(
                            t * 8,
                            t * 8 + 8,
                        ));
                    } else {
                        assert(out@.subrange(t * 8, t * 8 + 8) =~= vstd::bytes::spec_u64_to_le_bytes(
                            self.l3_slot(t),
                        ));
                    }
                }
            }
        }
        for i in 0..nt
            invariant
                out@.len() == nt * GRANULE_SIZE + i * 8,
                forall|t: int|
                    0 <= t < nt * NUM_LVL3_ENTRIES ==> #[trigger] out@.subrange(t * 8, t * 8 + 8)
                        == vstd::bytes::spec_u64_to_le_bytes(self.l3_slot(t)),
                forall|k: int|
                    0 <= k < i ==> #[trigger] out@.subrange(
                        nt * GRANULE_SIZE + k * 8,
                        nt * GRANULE_SIZE + k * 8 + 8,
                    ) == vstd::bytes::spec_u64_to_le_bytes(self.l2_value(k)),
        {
            let desc = self.lvl2_descriptor(i);
            let mut bytes = vstd::bytes::u64_to_le_bytes(desc.raw_value());
            let ghost before = out@;
            out.append(&mut bytes);
            proof {
                assert forall|t: int|
                    0 <= t < nt * NUM_LVL3_ENTRIES implies #[trigger] out@.subrange(
                    t * 8,
                    t * 8 + 8,
                ) == vstd::bytes::spec_u64_to_le_bytes(self.l3_slot(t)) by {
                    lemma_slot_index_bounds(t, nt as int);
                    assert(t * 8 + 8 <= nt * NUM_LVL3_ENTRIES * 8) by (nonlinear_arith)
                        requires t + 1 <= nt * NUM_LVL3_ENTRIES;
                    assert(out@.subrange(t * 8, t * 8 + 8) =~= before.subrange(t * 8, t * 8 + 8));
                }
                assert forall|k: int| 0 <= k < i + 1 implies #[trigger] out@.subrange(
                    nt * GRANULE_SIZE + k * 8,
                    nt * GRANULE_SIZE + k * 8 + 8,
                ) == vstd::bytes::spec_u64_to_le_bytes(self.l2_value(k)) by {
                    if k < i {
                        assert(out@.subrange(
                            nt * GRANULE_SIZE + k * 8,
                            nt * GRANULE_SIZE + k * 8 + 8,
                        ) =~= before.subrange(
                            nt * GRANULE_SIZE + k * 8,
                            nt * GRANULE_SIZE + k * 8 + 8,
                        ));
                    } else {
                        assert(out@.subrange(
                            nt * GRANULE_SIZE + k * 8,
                            nt * GRANULE_SIZE + k * 8 + 8,
                        ) =~= vstd::bytes::spec_u64_to_le_bytes(self.l2_value(k)));
                    }
                }
            }
        }
        out
    }
}

/// For a slot `s` in `[0, num_tables * NUM_LVL3_ENTRIES)`, its window index
/// lies in `[0, num_tables)` and its entry index in
/// `[0, NUM_LVL3_ENTRIES)`.
proof fn lemma_slot_index_bounds(s: int, num_tables: int)
    requires
        0 <= s < num_tables * NUM_LVL3_ENTRIES,
    ensures
        0 <= s / (NUM_LVL3_ENTRIES as int) < num_tables,
        0 <= s % (NUM_LVL3_ENTRIES as int) < NUM_LVL3_ENTRIES,
{
    let n = NUM_LVL3_ENTRIES as int;
    vstd::arithmetic::div_mod::lemma_mod_bound(s, n);
    vstd::arithmetic::div_mod::lemma_div_pos_is_pos(s, n);
    vstd::arithmetic::div_mod::lemma_fundamental_div_mod(s, n);
    assert(s / n < num_tables) by {
        if s / n >= num_tables {
            vstd::arithmetic::mul::lemma_mul_inequality(num_tables, s / n, n);
        }
    }
}

impl<const AS_SIZE: usize> AssociatedTranslationTable for crate::granule::AddressSpace<AS_SIZE> {
    type Table = FixedSizeTranslationTable;
}

} // verus!
