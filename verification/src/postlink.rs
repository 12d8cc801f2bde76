//! Link-step computations for patching the built kernel image: classifying
//! the binary's load segments into mapping requests, resolving symbols,
//! and translating between virtual addresses, physical addresses and file
//! offsets.
//!
//! The program header and symbol values arrive as plain integers; reading
//! them out of the image file is the caller's business.

use vstd::prelude::*;

use crate::spec_is_power_of_two;

verus! {

/// The fields of one program header this step reads.
#[derive(Copy, Clone, Debug, PartialEq, Eq, Structural)]
pub struct SegmentInfo {
    /// Segment type; load segments carry 1.
    pub p_type: u32,
    /// Permission flags: readable 4, writable 2, executable 1.
    pub p_flags: u32,
    /// Virtual start address.
    pub p_vaddr: u64,
    /// Physical start address.
    pub p_paddr: u64,
    /// Offset of the segment's bytes in the image file.
    pub p_offset: u64,
    /// Size of the segment in memory.
    pub p_memsz: u64,
    /// Alignment of the segment.
    pub p_align: u64,
}

/// The readable flag of a segment.
pub open spec fn spec_readable(s: SegmentInfo) -> bool {
    s.p_flags & 4 == 4
}

/// The writable flag of a segment.
pub open spec fn spec_writable(s: SegmentInfo) -> bool {
    s.p_flags & 2 == 2
}

/// The executable flag of a segment.
pub open spec fn spec_executable(s: SegmentInfo) -> bool {
    s.p_flags & 1 == 1
}

/// Whether `vma` is attributed to the segment. The lower bound masks the
/// virtual start with the complement of the alignment value itself — not
/// of `alignment - 1`. That is what this step has always done; it is kept
/// as observed rather than silently corrected.
pub open spec fn spec_vma_in(s: SegmentInfo, vma: int) -> bool {
    (s.p_vaddr & !s.p_align) <= vma <= s.p_vaddr + s.p_memsz
}

impl SegmentInfo {
    /// The readable flag.
    pub fn readable(&self) -> (r: bool)
        ensures
            r == spec_readable(*self),
    {
        (self.p_flags & 4) == 4
    }

    /// The writable flag.
    pub fn writable(&self) -> (r: bool)
        ensures
            r == spec_writable(*self),
    {
        (self.p_flags & 2) == 2
    }

    /// The executable flag.
    pub fn executable(&self) -> (r: bool)
        ensures
            r == spec_executable(*self),
    {
        (self.p_flags & 1) == 1
    }

    /// Whether `vma` is attributed to this segment.
    pub fn vma_in(&self, vma: u64) -> (r: bool)
        requires
            self.p_vaddr + self.p_memsz <= u64::MAX,
        ensures
            r == spec_vma_in(*self, vma as int),
    {
        vma >= (self.p_vaddr & !self.p_align) && vma <= self.p_vaddr + self.p_memsz
    }

    /// The file offset of the byte mapped at `vma`.
    pub fn vma_to_offset(&self, vma: u64) -> (r: u64)
        requires
            vma >= self.p_vaddr,
            vma - self.p_vaddr + self.p_offset <= u64::MAX,
        ensures
            r == vma - self.p_vaddr + self.p_offset,
    {
        vma - self.p_vaddr + self.p_offset
    }
}

/// One symbol this step looks for: its name and its value.
pub struct SymbolInfo {
    pub name: String,
    pub value: u64,
}

/// Whether some symbol in the prefix `symbols.take(n)` is named `name`.
pub open spec fn spec_has_symbol(symbols: Seq<SymbolInfo>, name: Seq<char>) -> bool {
    exists|i: int| 0 <= i < symbols.len() && (#[trigger] symbols[i]).name@ == name
}

/// Look a symbol up by name; the first match decides. A missing symbol
/// yields nothing (the caller treats it as a fatal image defect).
#[verifier::loop_isolation(false)]
pub fn get_symbol_value(symbols: &Vec<SymbolInfo>, name: &String) -> (r: Option<u64>)
    ensures
        r is Some <==> spec_has_symbol(symbols@, name@),
        r is Some ==> exists|i: int|
            0 <= i < symbols@.len() && (#[trigger] symbols@[i]).name@ == name@ && r->Some_0
                == symbols@[i].value,
{
    let len: usize = symbols.len();
    for i in 0..len
        invariant
            len == symbols@.len(),
            forall|q: int| 0 <= q < i ==> (#[trigger] symbols@[q]).name@ != name@,
    {
        if symbols[i].name.eq(name) {
            return Some(symbols[i].value);
        }
    }
    None
}

/// The first segment to which `vma` is attributed, if any.
pub open spec fn spec_find_segment(segments: Seq<SegmentInfo>, vma: int) -> Option<SegmentInfo>
    decreases segments.len(),
{
    if segments.len() == 0 {
        None
    } else if spec_vma_in(segments[0], vma) {
        Some(segments[0])
    } else {
        spec_find_segment(segments.drop_first(), vma)
    }
}

/// No segment's address arithmetic wraps around.
pub open spec fn spec_segments_wf(segments: Seq<SegmentInfo>) -> bool {
    forall|i: int|
        0 <= i < segments.len() ==> (#[trigger] segments[i]).p_vaddr + segments[i].p_memsz
            <= u64::MAX && segments[i].p_paddr <= segments[i].p_vaddr
}

/// Translate a virtual address to its physical address through the segment
/// that carries it. A virtual address no segment carries, or one below its
/// segment's load bias, is a fatal image defect for the caller and is
/// ruled out by precondition.
#[verifier::loop_isolation(false)]
pub fn virt_to_phys(segments: &Vec<SegmentInfo>, virt_addr: u64) -> (r: u64)
    requires
        spec_segments_wf(segments@),
        spec_find_segment(segments@, virt_addr as int) is Some,
        virt_addr + spec_find_segment(segments@, virt_addr as int)->Some_0.p_paddr
            >= spec_find_segment(segments@, virt_addr as int)->Some_0.p_vaddr,
    ensures
        ({
            let s = spec_find_segment(segments@, virt_addr as int)->Some_0;
            r == virt_addr - (s.p_vaddr - s.p_paddr)
        }),
{
    let len: usize = segments.len();
    proof {
        assert(segments@.skip(0) =~= segments@);
    }
    for i in 0..len
        invariant
            len == segments@.len(),
            spec_find_segment(segments@, virt_addr as int) == spec_find_segment(
                segments@.skip(i as int),
                virt_addr as int,
            ),
            spec_find_segment(segments@.skip(i as int), virt_addr as int) is Some,
    {
        let segment = &segments[i];
        proof {
            assert(segments@.skip(i as int)[0] == segments@[i as int]);
            assert(segments@.skip(i as int).drop_first() =~= segments@.skip(i as int + 1));
        }
        if segment.vma_in(virt_addr) {
            let translation_offset: u64 = segment.p_vaddr - segment.p_paddr;
            return virt_addr - translation_offset;
        }
    }
    proof {
        assert(segments@.skip(len as int).len() == 0);
    }
    unreached()
}

/// Translate a virtual address to its offset in the image file, through
/// the segment that carries it.
#[verifier::loop_isolation(false)]
pub fn virt_addr_to_file_offset(segments: &Vec<SegmentInfo>, virt_addr: u64) -> (r: u64)
    requires
        spec_segments_wf(segments@),
        spec_find_segment(segments@, virt_addr as int) is Some,
        virt_addr >= spec_find_segment(segments@, virt_addr as int)->Some_0.p_vaddr,
        virt_addr - spec_find_segment(segments@, virt_addr as int)->Some_0.p_vaddr
            + spec_find_segment(segments@, virt_addr as int)->Some_0.p_offset <= u64::MAX,
    ensures
        ({
            let s = spec_find_segment(segments@, virt_addr as int)->Some_0;
            r == virt_addr - s.p_vaddr + s.p_offset
        }),
{
    let len: usize = segments.len();
    proof {
        assert(segments@.skip(0) =~= segments@);
    }
    for i in 0..len
        invariant
            len == segments@.len(),
            spec_find_segment(segments@, virt_addr as int) == spec_find_segment(
                segments@.skip(i as int),
                virt_addr as int,
            ),
            spec_find_segment(segments@.skip(i as int), virt_addr as int) is Some,
    {
        let segment = &segments[i];
        proof {
            assert(segments@.skip(i as int)[0] == segments@[i as int]);
            assert(segments@.skip(i as int).drop_first() =~= segments@.skip(i as int + 1));
        }
        if segment.vma_in(virt_addr) {
            return segment.vma_to_offset(virt_addr);
        }
    }
    proof {
        assert(segments@.skip(len as int).len() == 0);
    }
    unreached()
}

/// Align up.
pub fn align_up(ptr: u64, alignment: u64) -> (r: u64)
    requires
        spec_is_power_of_two(alignment as int),
        crate::spec_align_up(ptr as int, alignment as int) <= u64::MAX,
    ensures
        r == crate::spec_align_up(ptr as int, alignment as int),
{
    proof {
        crate::lemma_power_of_two_pos(alignment as int);
        crate::lemma_remainder_facts(ptr as int, alignment as int);
    }
    let rem = ptr % alignment;
    if rem == 0 {
        ptr
    } else {
        ptr + (alignment - rem)
    }
}

/// A type that describes a region of memory in quantities of pages, at the
/// byte granularity this step works in.
#[derive(Copy, Clone, Debug, PartialEq, Eq, Structural)]
pub struct MemoryRegion {
    pub start: u64,
    pub size: u64,
}

impl MemoryRegion {
    /// Whether the region covers no pages.
    pub fn is_empty(&self) -> (r: bool)
        ensures
            r == (self.size == 0),
    {
        self.size == 0
    }
}

/// One mapping request distilled from a load segment.
#[derive(Copy, Clone, Debug, PartialEq, Eq, Structural)]
pub struct MappingDescriptor {
    pub virt_region: MemoryRegion,
    pub phys_region: MemoryRegion,
    pub attributes: crate::attributes::AttributeFields,
}

/// The mapping request a load segment stands for: its memory span rounded
/// up to whole pages, read-only unless writable, executable only when
/// marked so, always cacheable DRAM.
pub open spec fn spec_segment_descriptor(s: SegmentInfo) -> MappingDescriptor {
    let size = crate::spec_align_up(s.p_memsz as int, GRANULE_SIZE_U64 as int) as u64;
    MappingDescriptor {
        virt_region: MemoryRegion { start: s.p_vaddr, size },
        phys_region: MemoryRegion { start: s.p_paddr, size },
        attributes: crate::attributes::AttributeFields {
            mem_attributes: crate::attributes::MemAttributes::CacheableDRAM,
            acc_perms: if spec_writable(s) {
                crate::attributes::AccessPermissions::ReadWrite
            } else {
                crate::attributes::AccessPermissions::ReadOnly
            },
            execute_never: !spec_executable(s),
        },
    }
}

/// The granule size, in the 64-bit arithmetic of this step.
pub const GRANULE_SIZE_U64: u64 = 65536;

/// The mapping requests of all load segments, in order.
pub open spec fn spec_load_descriptors(segments: Seq<SegmentInfo>) -> Seq<MappingDescriptor>
    decreases segments.len(),
{
    if segments.len() == 0 {
        Seq::empty()
    } else if segments[0].p_type == 1 {
        seq![spec_segment_descriptor(segments[0])] + spec_load_descriptors(segments.drop_first())
    } else {
        spec_load_descriptors(segments.drop_first())
    }
}

/// Distill the mapping requests for the kernel binary from its program
/// headers: one per load segment. An unreadable load segment, like a
/// memory size so close to the limit that page rounding wraps, is a fatal
/// image defect and is ruled out by precondition.
#[verifier::loop_isolation(false)]
pub fn map_kernel_binary(segments: &Vec<SegmentInfo>) -> (r: Vec<MappingDescriptor>)
    requires
        forall|i: int|
            0 <= i < segments@.len() && (#[trigger] segments@[i]).p_type == 1 ==> spec_readable(
                segments@[i],
            ) && segments@[i].p_memsz + GRANULE_SIZE_U64 <= u64::MAX,
    ensures
        r@ == spec_load_descriptors(segments@),
{
    let mut descriptors: Vec<MappingDescriptor> = Vec::new();
    let len: usize = segments.len();
    proof {
        assert(segments@.skip(0) =~= segments@);
    }
    for i in 0..len
        invariant
            len == segments@.len(),
            spec_load_descriptors(segments@) =~= descriptors@ + spec_load_descriptors(
                segments@.skip(i as int),
            ),
    {
        let segment = &segments[i];
        proof {
            assert(segments@.skip(i as int)[0] == segments@[i as int]);
            assert(segments@.skip(i as int).drop_first() =~= segments@.skip(i as int + 1));
        }
        if segment.p_type == 1 {
            proof {
                crate::lemma_granule_is_power_of_two();
                crate::lemma_remainder_facts(segment.p_memsz as int, GRANULE_SIZE_U64 as int);
            }
            let size: u64 = align_up(segment.p_memsz, GRANULE_SIZE_U64);
            let acc_perms = if segment.writable() {
                crate::attributes::AccessPermissions::ReadWrite
            } else {
                crate::attributes::AccessPermissions::ReadOnly
            };
            let execute_never = !segment.executable();
            let descriptor = MappingDescriptor {
                virt_region: MemoryRegion { start: segment.p_vaddr, size },
                phys_region: MemoryRegion { start: segment.p_paddr, size },
                attributes: crate::attributes::AttributeFields {
                    mem_attributes: crate::attributes::MemAttributes::CacheableDRAM,
                    acc_perms,
                    execute_never,
                },
            };
            descriptors.push(descriptor);
        }
    }
    proof {
        assert(spec_load_descriptors(segments@.skip(len as int)) =~= Seq::<
            MappingDescriptor,
        >::empty());
        assert(descriptors@ + Seq::<MappingDescriptor>::empty() =~= descriptors@);
    }
    descriptors
}

} // verus!
