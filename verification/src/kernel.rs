//! The kernel-level memory-management API: one shared address space, its
//! translation table, the audit record of mappings, and the MMIO remap
//! window allocator, each behind its lifecycle lock.
//!
//! The linker decides where the kernel's segments lie; those addresses and
//! sizes arrive here as a [`KernelLayout`] value. The kernel's lifecycle
//! state and the core's interrupt-mask word arrive as values for the same
//! reason: reading them is hardware work, deciding on them is logic.

use vstd::prelude::*;

use crate::GRANULE_SIZE;
use crate::attributes::{AccessPermissions, AttributeFields, MemAttributes};
use crate::bsp::PHYS_ADDR_SPACE_END_EXCLUSIVE;
use crate::mapping_record::{
    MAX_MAPPINGS, MAX_USERS, MappingRecordModel, MappingRecords, spec_is_device_record,
    spec_new_record, spec_sorted_by_virt,
};
use crate::memory::{Address, Physical, Virtual, spec_page_aligned};
use crate::page::{MMIODescriptor, MemoryRegion, PageAddress, spec_take_ok};
use crate::page_alloc::PageAllocator;
use crate::synchronization::{
    IRQSafeNullLock, InitStateLock, LifecycleState, Mutex, ReadWriteExclusive,
    spec_write_gate_open,
};
use crate::translation_table::{
    FixedSizeTranslationTable, TranslationTable, spec_map_effect_at, spec_map_fits_at,
};
use crate::{spec_align_down, spec_align_up};

verus! {

broadcast use crate::memory::lemma_address_view_bounds;

/// The addresses and sizes the linker script fixed for the kernel's
/// regions, in bytes.
#[derive(Copy, Clone, Debug, PartialEq, Eq, Structural)]
pub struct KernelLayout {
    pub boot_core_stack_start: usize,
    pub boot_core_stack_size: usize,
    pub code_start: usize,
    pub code_size: usize,
    pub data_start: usize,
    pub data_size: usize,
    pub heap_start: usize,
    pub heap_size: usize,
    pub mmio_remap_start: usize,
    pub mmio_remap_size: usize,
}

/// One region of the layout is usable: page-aligned start, a positive
/// whole number of pages, no wrap-around.
pub open spec fn spec_layout_region_wf(start: int, size: int) -> bool {
    &&& spec_page_aligned(start)
    &&& size > 0
    &&& size % GRANULE_SIZE as int == 0
    &&& 0 <= start && start + size <= usize::MAX
}

/// Every region of the layout is usable.
pub open spec fn spec_layout_wf(l: KernelLayout) -> bool {
    &&& spec_layout_region_wf(l.boot_core_stack_start as int, l.boot_core_stack_size as int)
    &&& spec_layout_region_wf(l.code_start as int, l.code_size as int)
    &&& spec_layout_region_wf(l.data_start as int, l.data_size as int)
    &&& spec_layout_region_wf(l.heap_start as int, l.heap_size as int)
    &&& spec_layout_region_wf(l.mmio_remap_start as int, l.mmio_remap_size as int)
}

/// Helper function for calculating the number of pages the given parameter
/// spans. A zero or ragged size is a programming error and is ruled out by
/// precondition.
pub fn size_to_num_pages(size: usize) -> (r: usize)
    requires
        size > 0,
        size as int % GRANULE_SIZE as int == 0,
    ensures
        r == size as int / GRANULE_SIZE as int,
        r * GRANULE_SIZE == size,
        1 <= r <= isize::MAX as usize,
{
    proof {
        vstd::arithmetic::div_mod::lemma_fundamental_div_mod(size as int, GRANULE_SIZE as int);
        vstd::arithmetic::div_mod::lemma_div_pos_is_pos(size as int, GRANULE_SIZE as int);
    }
    size / GRANULE_SIZE
}

/// The page region starting at `start` and spanning `size` bytes.
fn layout_region(start: usize, size: usize) -> (r: MemoryRegion<Virtual>)
    requires
        spec_layout_region_wf(start as int, size as int),
    ensures
        r.start() == start,
        r.end_exclusive() == start + size,
{
    let num_pages = size_to_num_pages(size);
    let start_page_addr: PageAddress<Virtual> = PageAddress::from_usize(start);
    let end_exclusive_page_addr = start_page_addr.checked_offset(num_pages as isize).unwrap();
    MemoryRegion::new(start_page_addr, end_exclusive_page_addr)
}

/// The heap pages.
pub fn virt_heap_region(layout: &KernelLayout) -> (r: MemoryRegion<Virtual>)
    requires
        spec_layout_wf(*layout),
    ensures
        r.start() == layout.heap_start,
        r.end_exclusive() == layout.heap_start + layout.heap_size,
{
    layout_region(layout.heap_start, layout.heap_size)
}

/// The code pages of the kernel binary.
pub fn virt_code_region(layout: &KernelLayout) -> (r: MemoryRegion<Virtual>)
    requires
        spec_layout_wf(*layout),
    ensures
        r.start() == layout.code_start,
        r.end_exclusive() == layout.code_start + layout.code_size,
{
    layout_region(layout.code_start, layout.code_size)
}

/// The data pages of the kernel binary.
pub fn virt_data_region(layout: &KernelLayout) -> (r: MemoryRegion<Virtual>)
    requires
        spec_layout_wf(*layout),
    ensures
        r.start() == layout.data_start,
        r.end_exclusive() == layout.data_start + layout.data_size,
{
    layout_region(layout.data_start, layout.data_size)
}

/// The boot core stack pages.
pub fn virt_boot_core_stack_region(layout: &KernelLayout) -> (r: MemoryRegion<Virtual>)
    requires
        spec_layout_wf(*layout),
    ensures
        r.start() == layout.boot_core_stack_start,
        r.end_exclusive() == layout.boot_core_stack_start + layout.boot_core_stack_size,
{
    layout_region(layout.boot_core_stack_start, layout.boot_core_stack_size)
}

/// The MMIO remap pages.
pub fn virt_mmio_remap_region(layout: &KernelLayout) -> (r: MemoryRegion<Virtual>)
    requires
        spec_layout_wf(*layout),
    ensures
        r.start() == layout.mmio_remap_start,
        r.end_exclusive() == layout.mmio_remap_start + layout.mmio_remap_size,
{
    layout_region(layout.mmio_remap_start, layout.mmio_remap_size)
}

/// The binary is identity mapped, so the physical region of a virtual one
/// is the region with the same raw addresses.
pub fn kernel_virt_to_phys_region(virt_region: MemoryRegion<Virtual>) -> (r: MemoryRegion<
    Physical,
>)
    ensures
        r.start() == virt_region.start(),
        r.end_exclusive() == virt_region.end_exclusive(),
{
    MemoryRegion::new(
        PageAddress::from_address(
            Address::new(virt_region.start_page().address().as_usize()),
        ),
        PageAddress::from_address(
            Address::new(virt_region.end_page_exclusive().address().as_usize()),
        ),
    )
}

/// The kernel's memory-management state: the translation table and the
/// mapping record behind the phase-gated lock, the MMIO window allocator
/// behind the interrupt-safe lock.
pub struct KernelMemory {
    pub translation_tables: InitStateLock<FixedSizeTranslationTable>,
    pub mapping_records: InitStateLock<MappingRecords>,
    pub mmio_va_allocator: IRQSafeNullLock<PageAllocator<Virtual>>,
}

impl KernelMemory {
    /// The translation table.
    pub open spec fn tables(&self) -> FixedSizeTranslationTable {
        self.translation_tables.data()
    }

    /// The mapping record.
    pub open spec fn records(&self) -> MappingRecords {
        self.mapping_records.data()
    }

    /// The MMIO window allocator.
    pub open spec fn allocator(&self) -> PageAllocator<Virtual> {
        self.mmio_va_allocator.data()
    }

    /// Both gated structures have their internal shape intact.
    pub open spec fn wf(&self) -> bool {
        &&& self.tables().table_wf()
        &&& self.records().wf()
    }

    /// Create the kernel's memory-management state, with a translation
    /// table covering `num_tables` windows placed at `phys_start`, an
    /// empty mapping record, and a not-yet-initialized window allocator.
    pub fn new(num_tables: usize, phys_start: PageAddress<Physical>) -> (r: Self)
        requires
            num_tables >= 1,
            phys_start@ + num_tables * GRANULE_SIZE + num_tables * 8 <= usize::MAX,
            phys_start@ + num_tables * GRANULE_SIZE
                <= crate::descriptor::OUTPUT_ADDR_LIMIT,
        ensures
            r.wf(),
            !r.tables().is_initialized(),
            r.tables().num_tables() == num_tables,
            r.tables().phys_start() == phys_start@,
            r.records()@.len() == 0,
            !r.allocator().is_initialized(),
    {
        KernelMemory {
            translation_tables: InitStateLock::new(
                FixedSizeTranslationTable::new(num_tables, phys_start),
            ),
            mapping_records: InitStateLock::new(MappingRecords::new()),
            mmio_va_allocator: IRQSafeNullLock::new(PageAllocator::new()),
        }
    }
}

/// Query the layout for the reserved MMIO remap window and initialize the
/// kernel's MMIO window allocator with it, under the interrupt-safe lock.
pub fn kernel_init_mmio_va_allocator(
    mem: &mut KernelMemory,
    daif: &mut u64,
    layout: &KernelLayout,
)
    requires
        spec_layout_wf(*layout),
    ensures
        *final(daif) == *old(daif),
        final(mem).allocator().is_initialized(),
        !old(mem).allocator().is_initialized() ==> final(mem).allocator().pool_start()
            == layout.mmio_remap_start && final(mem).allocator().pool_end()
            == layout.mmio_remap_start + layout.mmio_remap_size,
        old(mem).allocator().is_initialized() ==> final(mem).allocator() == old(mem).allocator(),
        final(mem).tables() == old(mem).tables(),
        final(mem).records() == old(mem).records(),
{
    let region = virt_mmio_remap_region(layout);
    let (allocator, saved) = mem.mmio_va_allocator.lock(daif);
    allocator.init(region);
    IRQSafeNullLock::<PageAllocator<Virtual>>::unlock(daif, saved);
}

/// Finish initialization of the MMU subsystem once translation is on: the
/// MMIO window allocator receives its pool. (The kernel heap allocator,
/// which this step also brings up, lives outside this crate.)
pub fn post_enable_init(mem: &mut KernelMemory, daif: &mut u64, layout: &KernelLayout)
    requires
        spec_layout_wf(*layout),
    ensures
        *final(daif) == *old(daif),
        final(mem).allocator().is_initialized(),
        !old(mem).allocator().is_initialized() ==> final(mem).allocator().pool_start()
            == layout.mmio_remap_start && final(mem).allocator().pool_end()
            == layout.mmio_remap_start + layout.mmio_remap_size,
        old(mem).allocator().is_initialized() ==> final(mem).allocator() == old(mem).allocator(),
        final(mem).tables() == old(mem).tables(),
        final(mem).records() == old(mem).records(),
{
    kernel_init_mmio_va_allocator(mem, daif, layout);
}

/// Add an entry to the mapping info record.
pub fn kernel_add_mapping_record(
    mem: &mut KernelMemory,
    state: &LifecycleState,
    daif: u64,
    name: &'static str,
    virt_region: &MemoryRegion<Virtual>,
    phys_region: &MemoryRegion<Physical>,
    attr: &AttributeFields,
) -> (r: Result<(), &'static str>)
    requires
        old(mem).wf(),
        spec_write_gate_open(*state, daif),
        phys_region.end_exclusive() > phys_region.start(),
        virt_region.start() + (phys_region.end_exclusive() - phys_region.start()) <= usize::MAX,
    ensures
        final(mem).wf(),
        final(mem).tables() == old(mem).tables(),
        final(mem).allocator() == old(mem).allocator(),
        r is Ok <==> old(mem).records()@.len() < MAX_MAPPINGS,
        r is Err ==> final(mem).records() == old(mem).records(),
        r is Ok ==> final(mem).records()@.to_multiset() == old(mem).records()@.to_multiset().insert(
            spec_new_record(
                name@,
                virt_region.start(),
                phys_region.start(),
                (phys_region.end_exclusive() - phys_region.start()) / GRANULE_SIZE as int,
                *attr,
            ),
        ),
        r is Ok ==> final(mem).records()@.len() == old(mem).records()@.len() + 1
            && spec_sorted_by_virt(final(mem).records()@),
{
    let records = mem.mapping_records.write(state, daif);
    records.add(name, virt_region, phys_region, attr)
}

/// Tries to add `new_user` as another user of an existing Device record
/// over exactly the window of `mmio_descriptor`; a hit returns the virtual
/// start address the window is already mapped at.
pub fn kernel_try_add_device_record_mmio_user(
    mem: &mut KernelMemory,
    state: &LifecycleState,
    daif: u64,
    new_user: &'static str,
    mmio_descriptor: &MMIODescriptor,
) -> (r: Option<Address<Virtual>>)
    requires
        old(mem).wf(),
        spec_write_gate_open(*state, daif),
        spec_align_up(mmio_descriptor.end_addr_exclusive(), GRANULE_SIZE as int) <= usize::MAX,
    ensures
        final(mem).wf(),
        final(mem).tables() == old(mem).tables(),
        final(mem).allocator() == old(mem).allocator(),
        final(mem).records()@.len() == old(mem).records()@.len(),
        r is Some <==> exists|i: int|
            0 <= i < old(mem).records()@.len() && spec_is_device_record(
                #[trigger] old(mem).records()@[i],
                spec_align_down(mmio_descriptor.start_addr(), GRANULE_SIZE as int),
                spec_mmio_num_pages(*mmio_descriptor),
            ),
        r is Some ==> spec_device_record_reused(
            old(mem).records()@,
            final(mem).records()@,
            spec_align_down(mmio_descriptor.start_addr(), GRANULE_SIZE as int),
            spec_mmio_num_pages(*mmio_descriptor),
            new_user@,
            r->Some_0@,
        ),
        r is None ==> final(mem).records() == old(mem).records(),
{
    let phys_region: MemoryRegion<Physical> = mmio_descriptor.page_region();
    let records = mem.mapping_records.write(state, daif);
    let found = records.find_device_record(&phys_region);
    match found {
        None => None,
        Some(index) => {
            let virt_start = records.entry(index).virt_start_addr();
            // A full user list is only worth a warning; the mapping stays
            // correct without the extra audit name.
            let ghost before = records@;
            let appended = records.add_user_at(index, new_user);
            proof {
                if appended is Ok {
                    assert(records@ == before.update(
                        index as int,
                        MappingRecordModel {
                            users: before[index as int].users.push(new_user@),
                            ..before[index as int]
                        },
                    ));
                }
            }
            Some(virt_start)
        },
    }
}

/// The record state after a reuse hit for the Device window
/// `{phys_start, num_pages}`: some matching entry decided the hit — `addr`
/// is its virtual start, it gains `user` when a name slot is free (a full
/// list costs only the audit name), and no other entry moves.
pub open spec fn spec_device_record_reused(
    pre: Seq<MappingRecordModel>,
    post: Seq<MappingRecordModel>,
    phys_start: int,
    num_pages: int,
    user: Seq<char>,
    addr: int,
) -> bool {
    exists|i: int|
        0 <= i < pre.len() && spec_is_device_record(#[trigger] pre[i], phys_start, num_pages)
            && addr == pre[i].virt_start_addr && (pre[i].users.len() < MAX_USERS ==> post
            == pre.update(
            i,
            MappingRecordModel { users: pre[i].users.push(user), ..pre[i] },
        )) && (pre[i].users.len() >= MAX_USERS ==> post == pre)
}

/// Number of whole pages the MMIO window of `d` covers once rounded out to
/// page boundaries.
pub open spec fn spec_mmio_num_pages(d: MMIODescriptor) -> int {
    (spec_align_up(d.end_addr_exclusive(), GRANULE_SIZE as int) - spec_align_down(
        d.start_addr(),
        GRANULE_SIZE as int,
    )) / GRANULE_SIZE as int
}

/// Map a region in the kernel's translation tables and record it. No input
/// checks: the caller keeps the MMIO window clear and is trusted not to
/// alias. A full mapping record is only worth a warning; the map itself
/// stands.
fn kernel_map_at_unchecked(
    mem: &mut KernelMemory,
    state: &LifecycleState,
    daif: u64,
    name: &'static str,
    virt_region: &MemoryRegion<Virtual>,
    phys_region: &MemoryRegion<Physical>,
    attr: &AttributeFields,
) -> (r: Result<(), &'static str>)
    requires
        old(mem).wf(),
        old(mem).tables().is_initialized(),
        spec_write_gate_open(*state, daif),
        phys_region.end_exclusive() > phys_region.start(),
        virt_region.start() + (phys_region.end_exclusive() - phys_region.start()) <= usize::MAX,
    ensures
        final(mem).wf(),
        final(mem).tables().is_initialized(),
        final(mem).allocator() == old(mem).allocator(),
        final(mem).tables().num_tables() == old(mem).tables().num_tables(),
        final(mem).tables().phys_start() == old(mem).tables().phys_start(),
        r is Ok <==> spec_map_fits_at(
            &old(mem).tables(),
            virt_region.start(),
            virt_region.end_exclusive(),
            phys_region.start(),
            phys_region.end_exclusive(),
        ),
        r is Ok ==> spec_map_effect_at(
            &old(mem).tables(),
            &final(mem).tables(),
            virt_region.start(),
            virt_region.end_exclusive(),
            phys_region.start(),
            *attr,
        ),
        r is Ok && old(mem).records()@.len() < MAX_MAPPINGS ==> final(mem).records()@.to_multiset() == old(mem).records()@.to_multiset().insert(
            spec_new_record(
                name@,
                virt_region.start(),
                phys_region.start(),
                (phys_region.end_exclusive() - phys_region.start()) / GRANULE_SIZE as int,
                *attr,
            ),
        ),
        r is Ok && old(mem).records()@.len() < MAX_MAPPINGS ==> final(mem).records()@.len()
            == old(mem).records()@.len() + 1 && spec_sorted_by_virt(final(mem).records()@),
        r is Ok && old(mem).records()@.len() >= MAX_MAPPINGS ==> final(mem).records() == old(mem).records(),
        r is Err ==> final(mem).tables() == old(mem).tables() && final(mem).records() == old(mem).records(),
        virt_region.end_exclusive() - virt_region.start() != phys_region.end_exclusive()
            - phys_region.start() ==> r is Err && r->Err_0@
            == "Tried to map memory regions with unequal sizes"@,
        virt_region.end_exclusive() - virt_region.start() == phys_region.end_exclusive()
            - phys_region.start() && phys_region.end_exclusive() > PHYS_ADDR_SPACE_END_EXCLUSIVE
            ==> r is Err && r->Err_0@ == "Tried to map outside of physical address space"@,
        r is Err && virt_region.end_exclusive() - virt_region.start()
            == phys_region.end_exclusive() - phys_region.start() && phys_region.end_exclusive()
            <= PHYS_ADDR_SPACE_END_EXCLUSIVE ==> r->Err_0@
            == "Virtual page is out of bounds of translation table"@ || r->Err_0@
            == "Virtual page is already mapped"@,
{
    let tables = mem.translation_tables.write(state, daif);
    let map_result = tables.map_at(virt_region, phys_region, attr);
    if let Err(e) = map_result {
        return Err(e);
    }
    // Recording can only fail for want of an entry slot; that costs audit
    // detail, not mapping correctness, so it is not propagated.
    let _ = kernel_add_mapping_record(mem, state, daif, name, virt_region, phys_region, attr);
    Ok(())
}

/// Raw mapping of a virtual to physical region in the kernel translation
/// tables. Refuses to touch the MMIO remap window; does not prevent
/// aliasing — callers must be trusted.
pub fn kernel_map_at(
    mem: &mut KernelMemory,
    state: &LifecycleState,
    daif: u64,
    layout: &KernelLayout,
    name: &'static str,
    virt_region: &MemoryRegion<Virtual>,
    phys_region: &MemoryRegion<Physical>,
    attr: &AttributeFields,
) -> (r: Result<(), &'static str>)
    requires
        old(mem).wf(),
        old(mem).tables().is_initialized(),
        spec_write_gate_open(*state, daif),
        spec_layout_wf(*layout),
        virt_region.end_exclusive() >= GRANULE_SIZE,
        phys_region.end_exclusive() > phys_region.start(),
        virt_region.start() + (phys_region.end_exclusive() - phys_region.start()) <= usize::MAX,
    ensures
        final(mem).wf(),
        final(mem).tables().is_initialized(),
        final(mem).allocator() == old(mem).allocator(),
        spec_overlaps_mmio_window(*layout, *virt_region) ==> r is Err && r->Err_0@
            == "Attempt to manually map into MMIO region"@ && final(mem).tables() == old(mem).tables() && final(mem).records() == old(mem).records(),
        !spec_overlaps_mmio_window(*layout, *virt_region) ==> (r is Ok <==> spec_map_fits_at(
            &old(mem).tables(),
            virt_region.start(),
            virt_region.end_exclusive(),
            phys_region.start(),
            phys_region.end_exclusive(),
        )),
        r is Ok ==> spec_map_effect_at(
            &old(mem).tables(),
            &final(mem).tables(),
            virt_region.start(),
            virt_region.end_exclusive(),
            phys_region.start(),
            *attr,
        ),
        r is Ok && old(mem).records()@.len() < MAX_MAPPINGS ==> final(mem).records()@.to_multiset()
            == old(mem).records()@.to_multiset().insert(
            spec_new_record(
                name@,
                virt_region.start(),
                phys_region.start(),
                (phys_region.end_exclusive() - phys_region.start()) / GRANULE_SIZE as int,
                *attr,
            ),
        ) && spec_sorted_by_virt(final(mem).records()@),
        r is Ok && old(mem).records()@.len() >= MAX_MAPPINGS ==> final(mem).records() == old(mem).records(),
        r is Err ==> final(mem).tables() == old(mem).tables() && final(mem).records() == old(mem).records(),
        !spec_overlaps_mmio_window(*layout, *virt_region) ==> (virt_region.end_exclusive()
            - virt_region.start() != phys_region.end_exclusive() - phys_region.start() ==> r is Err
            && r->Err_0@ == "Tried to map memory regions with unequal sizes"@),
        !spec_overlaps_mmio_window(*layout, *virt_region) ==> (virt_region.end_exclusive()
            - virt_region.start() == phys_region.end_exclusive() - phys_region.start()
            && phys_region.end_exclusive() > PHYS_ADDR_SPACE_END_EXCLUSIVE ==> r is Err
            && r->Err_0@ == "Tried to map outside of physical address space"@),
        !spec_overlaps_mmio_window(*layout, *virt_region) && r is Err
            && virt_region.end_exclusive() - virt_region.start() == phys_region.end_exclusive()
            - phys_region.start() && phys_region.end_exclusive() <= PHYS_ADDR_SPACE_END_EXCLUSIVE
            ==> r->Err_0@ == "Virtual page is out of bounds of translation table"@ || r->Err_0@
            == "Virtual page is already mapped"@,
{
    let mmio_region = virt_mmio_remap_region(layout);
    if mmio_region.overlaps(virt_region) {
        return Err("Attempt to manually map into MMIO region");
    }
    kernel_map_at_unchecked(mem, state, daif, name, virt_region, phys_region, attr)
}

/// MMIO remapping in the kernel translation tables, typically used by
/// device drivers: an identical window already mapped for another driver is
/// reused (the new driver is recorded as another user); otherwise a fresh
/// virtual window is taken from the MMIO allocator and mapped as
/// non-executable read-write device memory. The returned address carries
/// the request's offset into its first page. The interrupt mask state is
/// restored on every exit path.
pub fn kernel_map_mmio(
    mem: &mut KernelMemory,
    state: &LifecycleState,
    daif: &mut u64,
    name: &'static str,
    mmio_descriptor: &MMIODescriptor,
) -> (r: Result<Address<Virtual>, &'static str>)
    requires
        old(mem).wf(),
        old(mem).tables().is_initialized(),
        spec_write_gate_open(*state, *old(daif)),
        spec_align_up(mmio_descriptor.end_addr_exclusive(), GRANULE_SIZE as int) <= usize::MAX,
    ensures
        *final(daif) == *old(daif),
        final(mem).wf(),
        final(mem).tables().is_initialized(),
        final(mem).tables().num_tables() == old(mem).tables().num_tables(),
        final(mem).tables().phys_start() == old(mem).tables().phys_start(),
        spec_has_device_record(old(mem).records(), *mmio_descriptor) ==> r is Ok && final(mem).tables() == old(mem).tables() && final(mem).allocator() == old(mem).allocator()
            && spec_device_record_reused(
            old(mem).records()@,
            final(mem).records()@,
            spec_align_down(mmio_descriptor.start_addr(), GRANULE_SIZE as int),
            spec_mmio_num_pages(*mmio_descriptor),
            name@,
            r->Ok_0@ - mmio_descriptor.start_addr() % GRANULE_SIZE as int,
        ),
        !spec_has_device_record(old(mem).records(), *mmio_descriptor) ==> (r is Ok <==> old(mem).allocator().is_initialized() && spec_take_ok(
            old(mem).allocator().pool_start(),
            old(mem).allocator().pool_end(),
            spec_mmio_num_pages(*mmio_descriptor),
        ) && spec_map_fits_at(
            &old(mem).tables(),
            old(mem).allocator().pool_start(),
            old(mem).allocator().pool_start() + spec_mmio_num_pages(*mmio_descriptor)
                * GRANULE_SIZE,
            spec_align_down(mmio_descriptor.start_addr(), GRANULE_SIZE as int),
            spec_align_up(mmio_descriptor.end_addr_exclusive(), GRANULE_SIZE as int),
        )),
        !spec_has_device_record(old(mem).records(), *mmio_descriptor) && r is Ok
            ==> spec_map_effect_at(
            &old(mem).tables(),
            &final(mem).tables(),
            old(mem).allocator().pool_start(),
            old(mem).allocator().pool_start() + spec_mmio_num_pages(*mmio_descriptor)
                * GRANULE_SIZE,
            spec_align_down(mmio_descriptor.start_addr(), GRANULE_SIZE as int),
            spec_mmio_attributes(),
        ) && r->Ok_0@ == old(mem).allocator().pool_start() + mmio_descriptor.start_addr()
            % GRANULE_SIZE as int && final(mem).allocator().pool_start() == old(mem).allocator().pool_start() + spec_mmio_num_pages(*mmio_descriptor) * GRANULE_SIZE,
        !spec_has_device_record(old(mem).records(), *mmio_descriptor) && r is Ok && old(mem).records()@.len() < MAX_MAPPINGS ==> final(mem).records()@.to_multiset() == old(mem).records()@.to_multiset().insert(
            spec_new_record(
                name@,
                old(mem).allocator().pool_start(),
                spec_align_down(mmio_descriptor.start_addr(), GRANULE_SIZE as int),
                spec_mmio_num_pages(*mmio_descriptor),
                spec_mmio_attributes(),
            ),
        ) && spec_sorted_by_virt(final(mem).records()@),
        !spec_has_device_record(old(mem).records(), *mmio_descriptor) && r is Ok && old(mem).records()@.len() >= MAX_MAPPINGS ==> final(mem).records() == old(mem).records(),
        r is Err ==> final(mem).tables() == old(mem).tables() && final(mem).records() == old(mem).records(),
{
    let offset_into_start_page: usize = mmio_descriptor.start().offset_into_page();
    // Check if an identical window has been mapped for another driver. If
    // so, reuse it.
    let reuse = kernel_try_add_device_record_mmio_user(mem, state, *daif, name, mmio_descriptor);
    if let Some(addr) = reuse {
        proof {
            let pre = old(mem).records()@;
            let phys_start = spec_align_down(mmio_descriptor.start_addr(), GRANULE_SIZE as int);
            let num_pages = spec_mmio_num_pages(*mmio_descriptor);
            let i = choose|i: int|
                0 <= i < pre.len() && spec_is_device_record(#[trigger] pre[i], phys_start, num_pages)
                    && addr@ == pre[i].virt_start_addr && (pre[i].users.len() < MAX_USERS
                    ==> mem.records()@ == pre.update(
                    i,
                    MappingRecordModel {
                        users: pre[i].users.push(name@),
                        ..pre[i]
                    },
                )) && (pre[i].users.len() >= MAX_USERS ==> mem.records()@ == pre);
            assert(crate::mapping_record::spec_entry_wf(pre[i]));
            crate::lemma_remainder_facts(mmio_descriptor.start_addr(), GRANULE_SIZE as int);
        }
        return Ok(addr.offset_by(offset_into_start_page));
    }
    // Otherwise, allocate a new window and map it.
    let phys_region: MemoryRegion<Physical> = mmio_descriptor.page_region();
    let num_pages: usize = phys_region.num_pages();
    if num_pages == 0 {
        return Err("Requested 0 pages");
    }
    let (allocator, saved) = mem.mmio_va_allocator.lock(daif);
    let alloc_result = allocator.allocate(num_pages);
    IRQSafeNullLock::<PageAllocator<Virtual>>::unlock(daif, saved);
    let virt_region = match alloc_result {
        Err(e) => {
            return Err(e);
        },
        Ok(x) => x,
    };
    let map_result = kernel_map_at_unchecked(
        mem,
        state,
        *daif,
        name,
        &virt_region,
        &phys_region,
        &AttributeFields {
            mem_attributes: MemAttributes::Device,
            acc_perms: AccessPermissions::ReadWrite,
            execute_never: true,
        },
    );
    if let Err(e) = map_result {
        return Err(e);
    }
    proof {
        crate::lemma_remainder_facts(mmio_descriptor.start_addr(), GRANULE_SIZE as int);
    }
    Ok(virt_region.start_page().address().offset_by(offset_into_start_page))
}

/// Whether the record already holds a Device entry over exactly the
/// page-rounded window of `d`.
pub open spec fn spec_has_device_record(records: MappingRecords, d: MMIODescriptor) -> bool {
    exists|i: int|
        0 <= i < records@.len() && spec_is_device_record(
            #[trigger] records@[i],
            spec_align_down(d.start_addr(), GRANULE_SIZE as int),
            spec_mmio_num_pages(d),
        )
}

/// The attributes every MMIO remap window is mapped with: device memory,
/// read-write, never executable.
pub open spec fn spec_mmio_attributes() -> AttributeFields {
    AttributeFields {
        mem_attributes: MemAttributes::Device,
        acc_perms: AccessPermissions::ReadWrite,
        execute_never: true,
    }
}

/// Try to get the attributes of a kernel page. Will only succeed if there
/// exists a valid mapping for the input page.
pub fn kernel_page_attributes(
    mem: &KernelMemory,
    virt_page_addr: PageAddress<Virtual>,
) -> (r: Result<AttributeFields, &'static str>)
    requires
        mem.wf(),
    ensures
        mem.tables().try_page_attributes_ens(virt_page_addr, r),
{
    let tables = mem.translation_tables.read();
    tables.try_page_attributes(virt_page_addr)
}

/// Human-readable dump of all recorded kernel mappings.
pub fn print_kernel_mappings(mem: &KernelMemory) -> (r: String)
    requires
        mem.wf(),
    ensures
        r@ == crate::mapping_record::spec_print(mem.records()@),
{
    let records = mem.mapping_records.read();
    records.print()
}

/// Human-readable dump of all recorded kernel mappings.
pub fn kernel_print_mappings(mem: &KernelMemory) -> (r: String)
    requires
        mem.wf(),
    ensures
        r@ == crate::mapping_record::spec_print(mem.records()@),
{
    print_kernel_mappings(mem)
}

/// The attributes of the kernel's writable regions: cacheable DRAM,
/// read-write, never executable.
pub open spec fn spec_kernel_data_attributes() -> AttributeFields {
    AttributeFields {
        mem_attributes: MemAttributes::CacheableDRAM,
        acc_perms: AccessPermissions::ReadWrite,
        execute_never: true,
    }
}

/// The attributes of the kernel's code region: cacheable DRAM, read-only,
/// executable.
pub open spec fn spec_kernel_code_attributes() -> AttributeFields {
    AttributeFields {
        mem_attributes: MemAttributes::CacheableDRAM,
        acc_perms: AccessPermissions::ReadOnly,
        execute_never: false,
    }
}

/// Every page of the `size`-byte region at `start` is identity mapped in
/// `t` with attributes `attr`: its slot exists and holds the page
/// descriptor whose output address equals the page's own address.
pub open spec fn spec_identity_mapped(
    t: &FixedSizeTranslationTable,
    start: int,
    size: int,
    attr: AttributeFields,
) -> bool {
    forall|s: int|
        #[trigger] crate::page::spec_in_region(
            s,
            start / GRANULE_SIZE as int,
            (start + size) / GRANULE_SIZE as int,
        ) ==> s < t.num_tables() * crate::NUM_LVL3_ENTRIES && t.l3_slot(s)
            == crate::descriptor::spec_page_descriptor((s * GRANULE_SIZE) as u64, attr)
}

/// An identity mapping survives a later successful `map_at`: the later
/// request only wrote to slots that were still clear, and the kept slots
/// hold valid descriptors.
proof fn lemma_identity_mapping_preserved(
    pre: FixedSizeTranslationTable,
    post: FixedSizeTranslationTable,
    keep_start: int,
    keep_size: int,
    keep_attr: AttributeFields,
    w_vstart: int,
    w_vend: int,
    w_pstart: int,
    w_pend: int,
    w_attr: AttributeFields,
)
    requires
        spec_identity_mapped(&pre, keep_start, keep_size, keep_attr),
        spec_page_aligned(keep_start),
        0 <= keep_start,
        keep_start + keep_size <= crate::bsp::PHYS_ADDR_SPACE_END_EXCLUSIVE,
        spec_map_fits_at(&pre, w_vstart, w_vend, w_pstart, w_pend),
        spec_map_effect_at(&pre, &post, w_vstart, w_vend, w_pstart, w_attr),
    ensures
        spec_identity_mapped(&post, keep_start, keep_size, keep_attr),
{
    let g = GRANULE_SIZE as int;
    let k0 = keep_start / g;
    let k1 = (keep_start + keep_size) / g;
    let s0 = crate::translation_table::spec_page_slot(w_vstart);
    let n = (w_vend - w_vstart) / g;
    assert forall|s: int| #[trigger]
        crate::page::spec_in_region(s, k0, k1) implies s < post.num_tables()
        * crate::NUM_LVL3_ENTRIES && post.l3_slot(s)
        == crate::descriptor::spec_page_descriptor((s * g) as u64, keep_attr) by {
        assert(pre.l3_slot(s) == crate::descriptor::spec_page_descriptor(
            (s * g) as u64,
            keep_attr,
        ));
        assert((s * g) as int % g == 0) by {
            vstd::arithmetic::div_mod::lemma_mod_multiples_basic(s, g);
        };
        assert(s * g < 0x1000000000000) by {
            vstd::arithmetic::div_mod::lemma_fundamental_div_mod(keep_start, g);
            vstd::arithmetic::div_mod::lemma_fundamental_div_mod(keep_start + keep_size, g);
            vstd::arithmetic::div_mod::lemma_mod_bound(keep_start + keep_size, g);
            assert(s < k1);
            assert(s * g <= (k1 - 1) * g) by (nonlinear_arith)
                requires s <= k1 - 1, g > 0;
            assert(k1 * g <= keep_start + keep_size);
        };
        assert(s * g >= 0) by {
            vstd::arithmetic::div_mod::lemma_div_pos_is_pos(keep_start, g);
            assert(s >= k0);
            assert(s * g >= 0) by (nonlinear_arith)
                requires s >= 0, g > 0;
        };
        crate::descriptor::lemma_page_descriptor_round_trip((s * g) as u64, keep_attr);
        if crate::page::spec_in_region(s, s0, s0 + n) {
            assert(crate::translation_table::spec_slot_clear(&pre, pre.num_tables(), s));
            assert(false);
        }
    }
}

/// Map the kernel's binary: the boot-core stack, heap, code and data
/// regions, identity mapped with their protection intents. Returns the
/// translation table's physical base address, to be handed to MMU enable.
pub fn kernel_map_binary(
    mem: &mut KernelMemory,
    state: &LifecycleState,
    daif: u64,
    layout: &KernelLayout,
) -> (r: Result<Address<Physical>, &'static str>)
    requires
        old(mem).wf(),
        spec_write_gate_open(*state, daif),
        spec_layout_wf(*layout),
    ensures
        final(mem).wf(),
        final(mem).tables().is_initialized(),
        final(mem).allocator() == old(mem).allocator(),
        final(mem).tables().num_tables() == old(mem).tables().num_tables(),
        final(mem).tables().phys_start() == old(mem).tables().phys_start(),
        r is Ok <==> spec_map_binary_fits(&old(mem).tables(), *layout),
        r is Ok ==> r->Ok_0@ == old(mem).tables().phys_start() + old(mem).tables().num_tables()
            * GRANULE_SIZE,
        r is Ok ==> spec_identity_mapped(
            &final(mem).tables(),
            layout.boot_core_stack_start as int,
            layout.boot_core_stack_size as int,
            spec_kernel_data_attributes(),
        ),
        r is Ok ==> spec_identity_mapped(
            &final(mem).tables(),
            layout.heap_start as int,
            layout.heap_size as int,
            spec_kernel_data_attributes(),
        ),
        r is Ok ==> spec_identity_mapped(
            &final(mem).tables(),
            layout.code_start as int,
            layout.code_size as int,
            spec_kernel_code_attributes(),
        ),
        r is Ok ==> spec_identity_mapped(
            &final(mem).tables(),
            layout.data_start as int,
            layout.data_size as int,
            spec_kernel_data_attributes(),
        ),
{
    let ghost t0 = mem.tables();
    let ghost ss = layout.boot_core_stack_start as int;
    let ghost se = layout.boot_core_stack_start + layout.boot_core_stack_size as int;
    let ghost hs = layout.heap_start as int;
    let ghost he = layout.heap_start + layout.heap_size as int;
    let ghost cs = layout.code_start as int;
    let ghost ce = layout.code_start + layout.code_size as int;
    let ghost ds = layout.data_start as int;
    let ghost de = layout.data_start + layout.data_size as int;
    let tables = mem.translation_tables.write(state, daif);
    tables.init();
    let phys_kernel_tables_base_addr = tables.phys_base_address();
    let stack_virt = virt_boot_core_stack_region(layout);
    let stack_phys = kernel_virt_to_phys_region(stack_virt);
    let ghost t1 = mem.tables();
    let r_stack = kernel_map_at(
        mem,
        state,
        daif,
        layout,
        "Kernel boot-core stack",
        &stack_virt,
        &stack_phys,
        &AttributeFields {
            mem_attributes: MemAttributes::CacheableDRAM,
            acc_perms: AccessPermissions::ReadWrite,
            execute_never: true,
        },
    );
    if let Err(e) = r_stack {
        proof {
            if spec_map_binary_fits(&t0, *layout) {
                lemma_fits_same_slots(t0, t1, ss, se, ss, se);
                assert(false);
            }
        }
        return Err(e);
    }
    proof {
        lemma_region_identity_established(
            t1,
            mem.tables(),
            layout.boot_core_stack_start as int,
            layout.boot_core_stack_size as int,
            spec_kernel_data_attributes(),
        );
        lemma_fits_same_slots(t0, t1, ss, se, ss, se);
    }
    let heap_virt = virt_heap_region(layout);
    let heap_phys = kernel_virt_to_phys_region(heap_virt);
    let ghost t2 = mem.tables();
    let r_heap = kernel_map_at(
        mem,
        state,
        daif,
        layout,
        "Kernel heap",
        &heap_virt,
        &heap_phys,
        &AttributeFields {
            mem_attributes: MemAttributes::CacheableDRAM,
            acc_perms: AccessPermissions::ReadWrite,
            execute_never: true,
        },
    );
    if let Err(e) = r_heap {
        proof {
            if spec_map_binary_fits(&t0, *layout) {
                lemma_fits_same_slots(t0, t1, hs, he, hs, he);
                lemma_map_transfers_fits(
                    t1,
                    t2,
                    ss,
                    se,
                    spec_kernel_data_attributes(),
                    hs,
                    he,
                    hs,
                    he,
                );
                assert(false);
            }
        }
        return Err(e);
    }
    proof {
        lemma_map_transfers_fits(t1, t2, ss, se, spec_kernel_data_attributes(), hs, he, hs, he);
        lemma_fits_same_slots(t0, t1, hs, he, hs, he);
        lemma_identity_mapping_preserved(
            t2,
            mem.tables(),
            layout.boot_core_stack_start as int,
            layout.boot_core_stack_size as int,
            spec_kernel_data_attributes(),
            layout.heap_start as int,
            layout.heap_start + layout.heap_size,
            layout.heap_start as int,
            layout.heap_start + layout.heap_size,
            spec_kernel_data_attributes(),
        );
        lemma_region_identity_established(
            t2,
            mem.tables(),
            layout.heap_start as int,
            layout.heap_size as int,
            spec_kernel_data_attributes(),
        );
    }
    let code_virt = virt_code_region(layout);
    let code_phys = kernel_virt_to_phys_region(code_virt);
    let ghost t3 = mem.tables();
    let r_code = kernel_map_at(
        mem,
        state,
        daif,
        layout,
        "Kernel code and RO data",
        &code_virt,
        &code_phys,
        &AttributeFields {
            mem_attributes: MemAttributes::CacheableDRAM,
            acc_perms: AccessPermissions::ReadOnly,
            execute_never: false,
        },
    );
    if let Err(e) = r_code {
        proof {
            if spec_map_binary_fits(&t0, *layout) {
                lemma_fits_same_slots(t0, t1, cs, ce, cs, ce);
                lemma_map_transfers_fits(
                    t1,
                    t2,
                    ss,
                    se,
                    spec_kernel_data_attributes(),
                    cs,
                    ce,
                    cs,
                    ce,
                );
                lemma_map_transfers_fits(
                    t2,
                    t3,
                    hs,
                    he,
                    spec_kernel_data_attributes(),
                    cs,
                    ce,
                    cs,
                    ce,
                );
                assert(false);
            }
        }
        return Err(e);
    }
    proof {
        lemma_map_transfers_fits(t2, t3, hs, he, spec_kernel_data_attributes(), cs, ce, cs, ce);
        lemma_map_transfers_fits(t1, t2, ss, se, spec_kernel_data_attributes(), cs, ce, cs, ce);
        lemma_fits_same_slots(t0, t1, cs, ce, cs, ce);
        lemma_identity_mapping_preserved(
            t3,
            mem.tables(),
            layout.boot_core_stack_start as int,
            layout.boot_core_stack_size as int,
            spec_kernel_data_attributes(),
            layout.code_start as int,
            layout.code_start + layout.code_size,
            layout.code_start as int,
            layout.code_start + layout.code_size,
            spec_kernel_code_attributes(),
        );
        lemma_identity_mapping_preserved(
            t3,
            mem.tables(),
            layout.heap_start as int,
            layout.heap_size as int,
            spec_kernel_data_attributes(),
            layout.code_start as int,
            layout.code_start + layout.code_size,
            layout.code_start as int,
            layout.code_start + layout.code_size,
            spec_kernel_code_attributes(),
        );
        lemma_region_identity_established(
            t3,
            mem.tables(),
            layout.code_start as int,
            layout.code_size as int,
            spec_kernel_code_attributes(),
        );
    }
    let data_virt = virt_data_region(layout);
    let data_phys = kernel_virt_to_phys_region(data_virt);
    let ghost t4 = mem.tables();
    let r_data = kernel_map_at(
        mem,
        state,
        daif,
        layout,
        "Kernel data and bss",
        &data_virt,
        &data_phys,
        &AttributeFields {
            mem_attributes: MemAttributes::CacheableDRAM,
            acc_perms: AccessPermissions::ReadWrite,
            execute_never: true,
        },
    );
    if let Err(e) = r_data {
        proof {
            if spec_map_binary_fits(&t0, *layout) {
                lemma_fits_same_slots(t0, t1, ds, de, ds, de);
                lemma_map_transfers_fits(
                    t1,
                    t2,
                    ss,
                    se,
                    spec_kernel_data_attributes(),
                    ds,
                    de,
                    ds,
                    de,
                );
                lemma_map_transfers_fits(
                    t2,
                    t3,
                    hs,
                    he,
                    spec_kernel_data_attributes(),
                    ds,
                    de,
                    ds,
                    de,
                );
                lemma_map_transfers_fits(
                    t3,
                    t4,
                    cs,
                    ce,
                    spec_kernel_code_attributes(),
                    ds,
                    de,
                    ds,
                    de,
                );
                assert(false);
            }
        }
        return Err(e);
    }
    proof {
        lemma_map_transfers_fits(t3, t4, cs, ce, spec_kernel_code_attributes(), ds, de, ds, de);
        lemma_map_transfers_fits(t2, t3, hs, he, spec_kernel_data_attributes(), ds, de, ds, de);
        lemma_map_transfers_fits(t1, t2, ss, se, spec_kernel_data_attributes(), ds, de, ds, de);
        lemma_fits_same_slots(t0, t1, ds, de, ds, de);
        assert(spec_map_binary_fits(&t0, *layout));
        lemma_identity_mapping_preserved(
            t4,
            mem.tables(),
            layout.boot_core_stack_start as int,
            layout.boot_core_stack_size as int,
            spec_kernel_data_attributes(),
            layout.data_start as int,
            layout.data_start + layout.data_size,
            layout.data_start as int,
            layout.data_start + layout.data_size,
            spec_kernel_data_attributes(),
        );
        lemma_identity_mapping_preserved(
            t4,
            mem.tables(),
            layout.heap_start as int,
            layout.heap_size as int,
            spec_kernel_data_attributes(),
            layout.data_start as int,
            layout.data_start + layout.data_size,
            layout.data_start as int,
            layout.data_start + layout.data_size,
            spec_kernel_data_attributes(),
        );
        lemma_identity_mapping_preserved(
            t4,
            mem.tables(),
            layout.code_start as int,
            layout.code_size as int,
            spec_kernel_code_attributes(),
            layout.data_start as int,
            layout.data_start + layout.data_size,
            layout.data_start as int,
            layout.data_start + layout.data_size,
            spec_kernel_data_attributes(),
        );
        lemma_region_identity_established(
            t4,
            mem.tables(),
            layout.data_start as int,
            layout.data_size as int,
            spec_kernel_data_attributes(),
        );
    }
    Ok(phys_kernel_tables_base_addr)
}

/// A successful identity `map_at` establishes the identity mapping of its
/// own region.
proof fn lemma_region_identity_established(
    pre: FixedSizeTranslationTable,
    post: FixedSizeTranslationTable,
    start: int,
    size: int,
    attr: AttributeFields,
)
    requires
        spec_page_aligned(start),
        0 <= start,
        size >= 0,
        size % GRANULE_SIZE as int == 0,
        start + size <= usize::MAX,
        spec_map_fits_at(&pre, start, start + size, start, start + size),
        spec_map_effect_at(&pre, &post, start, start + size, start, attr),
    ensures
        spec_identity_mapped(&post, start, size, attr),
{
    let g = GRANULE_SIZE as int;
    let s0 = start / g;
    let n = size / g;
    vstd::arithmetic::div_mod::lemma_fundamental_div_mod(start, g);
    assert((start + size) / g == s0 + n) by {
        vstd::arithmetic::div_mod::lemma_fundamental_div_mod(size, g);
        vstd::arithmetic::div_mod::lemma_fundamental_div_mod_converse_div(
            start + size,
            g,
            s0 + n,
            0,
        );
        assert((s0 + n) * g == s0 * g + n * g) by (nonlinear_arith);
    };
    assert((size) / g == n);
    assert forall|s: int| #[trigger]
        crate::page::spec_in_region(s, s0, s0 + n) implies s < post.num_tables()
        * crate::NUM_LVL3_ENTRIES && post.l3_slot(s)
        == crate::descriptor::spec_page_descriptor((s * g) as u64, attr) by {
        assert(crate::translation_table::spec_slot_clear(&pre, pre.num_tables(), s));
        assert(post.l3_slot(s) == crate::descriptor::spec_page_descriptor(
            (start + (s - s0) * g) as u64,
            attr,
        ));
        assert(start + (s - s0) * g == s * g) by (nonlinear_arith)
            requires start == s0 * g;
    }
}

/// The two-point overlap test `kernel_map_at` guards with: either endpoint
/// page of `virt_region` lies inside the layout's MMIO remap window.
pub open spec fn spec_overlaps_mmio_window(
    layout: KernelLayout,
    virt_region: MemoryRegion<Virtual>,
) -> bool {
    spec_overlaps_mmio_window_at(layout, virt_region.start(), virt_region.end_exclusive())
}

/// The same two-point test over the region's raw bounds.
pub open spec fn spec_overlaps_mmio_window_at(
    layout: KernelLayout,
    v_start: int,
    v_end: int,
) -> bool {
    let w_start = layout.mmio_remap_start as int;
    let w_end = layout.mmio_remap_start + layout.mmio_remap_size;
    (w_start <= v_start < w_end) || (w_start <= v_end - GRANULE_SIZE < w_end)
}

/// Two half-open byte intervals share no address.
pub open spec fn spec_regions_disjoint(a_start: int, a_end: int, b_start: int, b_end: int) -> bool {
    a_end <= b_start || b_end <= a_start
}

/// When `kernel_map_binary` is owed success: none of the four regions
/// touches the MMIO remap window, each fits the (still unwritten) table on
/// its own, and no two of them share a page — then no map step can hit an
/// already-valid descriptor.
pub open spec fn spec_map_binary_fits(t: &FixedSizeTranslationTable, l: KernelLayout) -> bool {
    let ss = l.boot_core_stack_start as int;
    let se = l.boot_core_stack_start + l.boot_core_stack_size;
    let hs = l.heap_start as int;
    let he = l.heap_start + l.heap_size;
    let cs = l.code_start as int;
    let ce = l.code_start + l.code_size;
    let ds = l.data_start as int;
    let de = l.data_start + l.data_size;
    &&& !spec_overlaps_mmio_window_at(l, ss, se)
    &&& !spec_overlaps_mmio_window_at(l, hs, he)
    &&& !spec_overlaps_mmio_window_at(l, cs, ce)
    &&& !spec_overlaps_mmio_window_at(l, ds, de)
    &&& spec_map_fits_at(t, ss, se, ss, se)
    &&& spec_map_fits_at(t, hs, he, hs, he)
    &&& spec_map_fits_at(t, cs, ce, cs, ce)
    &&& spec_map_fits_at(t, ds, de, ds, de)
    &&& spec_regions_disjoint(hs, he, ss, se)
    &&& spec_regions_disjoint(cs, ce, ss, se)
    &&& spec_regions_disjoint(cs, ce, hs, he)
    &&& spec_regions_disjoint(ds, de, ss, se)
    &&& spec_regions_disjoint(ds, de, hs, he)
    &&& spec_regions_disjoint(ds, de, cs, ce)
}

/// A page-aligned nonnegative value is an exact multiple of the granule.
proof fn lemma_aligned_exact(v: int)
    requires
        0 <= v,
        spec_page_aligned(v),
    ensures
        v == (v / GRANULE_SIZE as int) * GRANULE_SIZE,
        v / GRANULE_SIZE as int >= 0,
{
    vstd::arithmetic::div_mod::lemma_fundamental_div_mod(v, GRANULE_SIZE as int);
    vstd::arithmetic::div_mod::lemma_div_pos_is_pos(v, GRANULE_SIZE as int);
}

/// Two tables with one shape and the same page descriptors take the same
/// mapping requests.
proof fn lemma_fits_same_slots(
    a: FixedSizeTranslationTable,
    b: FixedSizeTranslationTable,
    v0: int,
    v1: int,
    p0: int,
    p1: int,
)
    requires
        0 <= v0,
        a.num_tables() == b.num_tables(),
        forall|s: int|
            0 <= s < a.num_tables() * crate::NUM_LVL3_ENTRIES ==> a.l3_slot(s) == #[trigger] b.l3_slot(
                s,
            ),
    ensures
        spec_map_fits_at(&a, v0, v1, p0, p1) == spec_map_fits_at(&b, v0, v1, p0, p1),
{
    let s0 = crate::translation_table::spec_page_slot(v0);
    let n = (v1 - v0) / GRANULE_SIZE as int;
    vstd::arithmetic::div_mod::lemma_div_pos_is_pos(v0, GRANULE_SIZE as int);
    if spec_map_fits_at(&a, v0, v1, p0, p1) {
        assert forall|s: int|
            crate::page::spec_in_region(s, s0, s0 + n) implies #[trigger] crate::translation_table::spec_slot_clear(
            &b,
            b.num_tables(),
            s,
        ) by {
            assert(crate::translation_table::spec_slot_clear(&a, a.num_tables(), s));
            assert(s < a.num_tables() * crate::NUM_LVL3_ENTRIES);
            assert(a.l3_slot(s) == b.l3_slot(s));
            assert(!crate::descriptor::spec_descriptor_valid(b.l3_slot(s)));
        }
    }
    if spec_map_fits_at(&b, v0, v1, p0, p1) {
        assert forall|s: int|
            crate::page::spec_in_region(s, s0, s0 + n) implies #[trigger] crate::translation_table::spec_slot_clear(
            &a,
            a.num_tables(),
            s,
        ) by {
            assert(crate::translation_table::spec_slot_clear(&b, b.num_tables(), s));
            assert(s < a.num_tables() * crate::NUM_LVL3_ENTRIES);
            assert(a.l3_slot(s) == b.l3_slot(s));
            assert(!crate::descriptor::spec_descriptor_valid(a.l3_slot(s)));
        }
    }
}

/// How one identity map step carries another request across it: after
/// mapping `[w_v0, w_v1)`, a request for `[t_v0, t_v1)` fits exactly when
/// it fit before and the two regions share no byte. (The step writes valid
/// descriptors over its own pages and touches nothing else.)
proof fn lemma_map_transfers_fits(
    pre: FixedSizeTranslationTable,
    post: FixedSizeTranslationTable,
    w_v0: int,
    w_v1: int,
    w_attr: AttributeFields,
    t_v0: int,
    t_v1: int,
    t_p0: int,
    t_p1: int,
)
    requires
        spec_map_fits_at(&pre, w_v0, w_v1, w_v0, w_v1),
        spec_map_effect_at(&pre, &post, w_v0, w_v1, w_v0, w_attr),
        spec_page_aligned(w_v0),
        spec_page_aligned(w_v1),
        spec_page_aligned(t_v0),
        spec_page_aligned(t_v1),
        0 <= w_v0 < w_v1,
        0 <= t_v0 < t_v1,
    ensures
        spec_map_fits_at(&post, t_v0, t_v1, t_p0, t_p1) == (spec_map_fits_at(
            &pre,
            t_v0,
            t_v1,
            t_p0,
            t_p1,
        ) && spec_regions_disjoint(t_v0, t_v1, w_v0, w_v1)),
{
    let g = GRANULE_SIZE as int;
    let ws = w_v0 / g;
    let nw = (w_v1 - w_v0) / g;
    let ts = t_v0 / g;
    let ntgt = (t_v1 - t_v0) / g;
    lemma_aligned_exact(w_v0);
    lemma_aligned_exact(w_v1);
    lemma_aligned_exact(t_v0);
    lemma_aligned_exact(t_v1);
    assert(w_v1 / g == ws + nw) by {
        vstd::arithmetic::div_mod::lemma_fundamental_div_mod_converse_div(w_v1 - w_v0, g, nw, 0);
        vstd::arithmetic::div_mod::lemma_fundamental_div_mod_converse_div(w_v1, g, ws + nw, 0);
    };
    assert(t_v1 / g == ts + ntgt) by {
        vstd::arithmetic::div_mod::lemma_fundamental_div_mod_converse_div(t_v1 - t_v0, g, ntgt, 0);
        vstd::arithmetic::div_mod::lemma_fundamental_div_mod_converse_div(t_v1, g, ts + ntgt, 0);
    };
    // A slot the step wrote holds a valid descriptor afterwards.
    assert forall|s: int|
        crate::page::spec_in_region(s, ws, ws + nw) implies crate::descriptor::spec_descriptor_valid(
        #[trigger] post.l3_slot(s),
    ) by {
        assert(crate::translation_table::spec_slot_clear(&pre, pre.num_tables(), s));
        let out = w_v0 + (s - ws) * g;
        assert(post.l3_slot(s) == crate::descriptor::spec_page_descriptor((out) as u64, w_attr));
        assert(out % g == 0) by {
            vstd::arithmetic::div_mod::lemma_mod_multiples_vanish(s - ws, w_v0, g);
        };
        assert(0 <= out < 0x1000000000000) by {
            assert((s - ws) * g >= 0) by (nonlinear_arith)
                requires s >= ws, g > 0;
            assert((s - ws) * g <= (nw - 1) * g) by (nonlinear_arith)
                requires s - ws <= nw - 1, g > 0;
        };
        crate::descriptor::lemma_page_descriptor_round_trip((out) as u64, w_attr);
    }
    if spec_map_fits_at(&pre, t_v0, t_v1, t_p0, t_p1) && spec_regions_disjoint(
        t_v0,
        t_v1,
        w_v0,
        w_v1,
    ) {
        assert forall|s: int|
            crate::page::spec_in_region(s, ts, ts + ntgt) implies #[trigger] crate::translation_table::spec_slot_clear(
            &post,
            post.num_tables(),
            s,
        ) by {
            assert(crate::translation_table::spec_slot_clear(&pre, pre.num_tables(), s));
            if t_v1 <= w_v0 {
                vstd::arithmetic::div_mod::lemma_div_is_ordered(t_v1, w_v0, g);
                assert(!crate::page::spec_in_region(s, ws, ws + nw));
            } else {
                vstd::arithmetic::div_mod::lemma_div_is_ordered(w_v1, t_v0, g);
                assert(!crate::page::spec_in_region(s, ws, ws + nw));
            }
            assert(post.l3_slot(s) == pre.l3_slot(s));
        }
        assert(spec_map_fits_at(&post, t_v0, t_v1, t_p0, t_p1));
    }
    if spec_map_fits_at(&post, t_v0, t_v1, t_p0, t_p1) {
        assert forall|s: int|
            crate::page::spec_in_region(s, ts, ts + ntgt) implies #[trigger] crate::translation_table::spec_slot_clear(
            &pre,
            pre.num_tables(),
            s,
        ) by {
            assert(crate::translation_table::spec_slot_clear(&post, post.num_tables(), s));
            if crate::page::spec_in_region(s, ws, ws + nw) {
                assert(crate::descriptor::spec_descriptor_valid(post.l3_slot(s)));
                assert(false);
            }
            assert(post.l3_slot(s) == pre.l3_slot(s));
        }
        assert(spec_map_fits_at(&pre, t_v0, t_v1, t_p0, t_p1));
        if !spec_regions_disjoint(t_v0, t_v1, w_v0, w_v1) {
            // The regions share a byte, so they share a page slot; that
            // slot is both freshly valid and still clear — impossible.
            let m = if t_v0 >= w_v0 {
                t_v0
            } else {
                w_v0
            };
            let sm = m / g;
            assert(spec_page_aligned(m));
            lemma_aligned_exact(m);
            assert(m + g <= t_v1 && m + g <= w_v1) by {
                crate::lemma_remainder_facts(t_v1, g);
                crate::lemma_remainder_facts(w_v1, g);
            };
            assert(crate::page::spec_in_region(sm, ts, ts + ntgt)) by {
                vstd::arithmetic::div_mod::lemma_div_is_ordered(t_v0, m, g);
                vstd::arithmetic::div_mod::lemma_div_is_ordered(m + g, t_v1, g);
                vstd::arithmetic::div_mod::lemma_fundamental_div_mod_converse_div(
                    m + g,
                    g,
                    sm + 1,
                    0,
                );
            };
            assert(crate::page::spec_in_region(sm, ws, ws + nw)) by {
                vstd::arithmetic::div_mod::lemma_div_is_ordered(w_v0, m, g);
                vstd::arithmetic::div_mod::lemma_div_is_ordered(m + g, w_v1, g);
                vstd::arithmetic::div_mod::lemma_fundamental_div_mod_converse_div(
                    m + g,
                    g,
                    sm + 1,
                    0,
                );
            };
            assert(crate::translation_table::spec_slot_clear(&post, post.num_tables(), sm));
            assert(crate::descriptor::spec_descriptor_valid(post.l3_slot(sm)));
            assert(false);
        }
    }
}

} // verus!
