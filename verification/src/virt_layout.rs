//! The board's special-range virtual memory layout: a table of named
//! address ranges with their translation and attributes, consulted to
//! answer what a virtual address maps to. Addresses outside every special
//! range are identity mapped with default attributes.

use vstd::prelude::*;

use vstd::string::StringExecFns;

use crate::attributes::{AccessPermissions, AttributeFields, MemAttributes};

verus! {

/// Architecture agnostic translation types.
#[derive(Copy, Clone, Debug, PartialEq, Eq, Structural)]
pub enum Translation {
    Identity,
    Offset(usize),
}

/// Architecture agnostic descriptor for a memory range: the inclusive
/// bounds of the virtual range, how it translates, and its attributes.
#[derive(Copy, Clone, Debug)]
pub struct TranslationDescriptor {
    pub name: &'static str,
    pub virtual_range_start: usize,
    pub virtual_range_end_inclusive: usize,
    pub physical_range_translation: Translation,
    pub attribute_fields: AttributeFields,
}

/// A descriptor is usable: its range is ordered and an offset translation
/// cannot overflow anywhere in the range.
pub open spec fn spec_descriptor_usable(d: TranslationDescriptor) -> bool {
    &&& d.virtual_range_start <= d.virtual_range_end_inclusive
    &&& (d.physical_range_translation matches Translation::Offset(a) ==> a
        + (d.virtual_range_end_inclusive - d.virtual_range_start) <= usize::MAX)
}

/// Whether `addr` falls in the descriptor's virtual range.
pub open spec fn spec_descriptor_contains(d: TranslationDescriptor, addr: int) -> bool {
    d.virtual_range_start <= addr <= d.virtual_range_end_inclusive
}

/// The output address the descriptor gives for `addr`.
pub open spec fn spec_descriptor_output(d: TranslationDescriptor, addr: int) -> int {
    match d.physical_range_translation {
        Translation::Identity => addr,
        Translation::Offset(a) => a + (addr - d.virtual_range_start),
    }
}

/// The answer of the layout scan: the first descriptor containing `addr`
/// decides; without one, the address is identity mapped with default
/// attributes.
pub open spec fn spec_virt_addr_properties(
    descriptors: Seq<TranslationDescriptor>,
    addr: int,
) -> (int, AttributeFields)
    decreases descriptors.len(),
{
    if descriptors.len() == 0 {
        (
            addr,
            AttributeFields {
                mem_attributes: MemAttributes::CacheableDRAM,
                acc_perms: AccessPermissions::ReadWrite,
                execute_never: true,
            },
        )
    } else if spec_descriptor_contains(descriptors[0], addr) {
        (spec_descriptor_output(descriptors[0], addr), descriptors[0].attribute_fields)
    } else {
        spec_virt_addr_properties(descriptors.drop_first(), addr)
    }
}

/// Type for expressing the kernel's virtual memory layout.
pub struct KernelVirtualLayout {
    /// The last (inclusive) address of the address space.
    max_virt_addr_inclusive: usize,
    /// Descriptors for non-standard memory ranges.
    descriptors: Vec<TranslationDescriptor>,
}

impl KernelVirtualLayout {
    /// The last (inclusive) address of the address space.
    pub closed spec fn max_addr(&self) -> int {
        self.max_virt_addr_inclusive as int
    }

    /// The special-range descriptors, in scan order.
    pub closed spec fn ranges(&self) -> Seq<TranslationDescriptor> {
        self.descriptors@
    }

    /// Every descriptor is usable.
    pub open spec fn wf(&self) -> bool {
        forall|i: int|
            0 <= i < self.ranges().len() ==> spec_descriptor_usable(#[trigger] self.ranges()[i])
    }

    /// Create a new instance.
    pub fn new(max: usize, layout: Vec<TranslationDescriptor>) -> (r: Self)
        requires
            forall|i: int|
                0 <= i < layout@.len() ==> spec_descriptor_usable(#[trigger] layout@[i]),
        ensures
            r.wf(),
            r.max_addr() == max,
            r.ranges() == layout@,
    {
        KernelVirtualLayout { max_virt_addr_inclusive: max, descriptors: layout }
    }

    /// For a virtual address, find and return the physical output address
    /// and corresponding attributes. An address beyond the address space is
    /// rejected; one in no special range is identity mapped with default
    /// attributes.
    #[verifier::loop_isolation(false)]
    pub fn virt_addr_properties(&self, virt_addr: usize) -> (r: Result<
        (usize, AttributeFields),
        &'static str,
    >)
        requires
            self.wf(),
        ensures
            virt_addr > self.max_addr() ==> r is Err && r->Err_0@ == "Address out of range"@,
            virt_addr <= self.max_addr() ==> r is Ok && (r->Ok_0.0 as int, r->Ok_0.1)
                == spec_virt_addr_properties(self.ranges(), virt_addr as int),
    {
        if virt_addr > self.max_virt_addr_inclusive {
            return Err("Address out of range");
        }
        let len: usize = self.descriptors.len();
        proof {
            assert(self.ranges().skip(0) =~= self.ranges());
        }
        for i in 0..len
            invariant
                len == self.ranges().len(),
                spec_virt_addr_properties(self.ranges(), virt_addr as int)
                    == spec_virt_addr_properties(
                    self.ranges().skip(i as int),
                    virt_addr as int,
                ),
        {
            let descriptor = &self.descriptors[i];
            if descriptor.virtual_range_start <= virt_addr && virt_addr
                <= descriptor.virtual_range_end_inclusive {
                let output_addr: usize = match descriptor.physical_range_translation {
                    Translation::Identity => virt_addr,
                    Translation::Offset(a) => a + (virt_addr - descriptor.virtual_range_start),
                };
                proof {
                    assert(self.ranges().skip(i as int)[0] == self.ranges()[i as int]);
                }
                return Ok((output_addr, descriptor.attribute_fields));
            }
            proof {
                assert(self.ranges().skip(i as int)[0] == self.ranges()[i as int]);
                assert(self.ranges().skip(i as int).drop_first() =~= self.ranges().skip(
                    i as int + 1,
                ));
            }
        }
        proof {
            assert(self.ranges().skip(len as int).len() == 0);
        }
        Ok(
            (
                virt_addr,
                AttributeFields {
                    mem_attributes: MemAttributes::CacheableDRAM,
                    acc_perms: AccessPermissions::ReadWrite,
                    execute_never: true,
                },
            ),
        )
    }

    /// Human-readable dump of the special ranges, one line per
    /// descriptor in scan order.
    #[verifier::loop_isolation(false)]
    pub fn print_layout(&self) -> (r: String)
        requires
            self.wf(),
        ensures
            r@ == spec_print_layout(self.ranges(), 0),
    {
        let mut text = String::new();
        let len: usize = self.descriptors.len();
        for i in 0..len
            invariant
                len == self.ranges().len(),
                self.wf(),
                text@ + spec_print_layout(self.ranges(), i as int) == spec_print_layout(
                    self.ranges(),
                    0,
                ),
        {
            let ghost before = text@;
            let rendered = render_layout_line(&self.descriptors[i]);
            text.append(rendered.as_str());
            proof {
                assert(spec_print_layout(self.ranges(), i as int) == spec_layout_line(
                    self.ranges()[i as int],
                ) + spec_print_layout(self.ranges(), i + 1));
                assert(text@ + spec_print_layout(self.ranges(), i + 1) =~= before
                    + spec_print_layout(self.ranges(), i as int));
            }
        }
        proof {
            assert(spec_print_layout(self.ranges(), len as int) =~= Seq::<char>::empty());
            assert(text@ + Seq::<char>::empty() =~= text@);
        }
        text
    }
}

/// Render the dump line of one range descriptor.
fn render_layout_line(descriptor: &TranslationDescriptor) -> (r: String)
    ensures
        r@ == spec_layout_line(*descriptor),
{
    let mut text = String::new();
    let rendered = crate::render::hex_addr(descriptor.virtual_range_start);
    text.append(rendered.as_str());
    text.append(" - ");
    let rendered = crate::render::hex_addr(descriptor.virtual_range_end_inclusive);
    text.append(rendered.as_str());
    text.append(" | ");
    text.append(
        match descriptor.attribute_fields.mem_attributes {
            MemAttributes::CacheableDRAM => "C",
            MemAttributes::Device => "Dev",
        },
    );
    text.append(" | ");
    text.append(
        match descriptor.attribute_fields.acc_perms {
            AccessPermissions::ReadOnly => "RO",
            AccessPermissions::ReadWrite => "RW",
        },
    );
    text.append(" ");
    text.append(
        if descriptor.attribute_fields.execute_never {
            "PXN"
        } else {
            "PX"
        },
    );
    text.append(" | ");
    text.append(descriptor.name);
    text.append("\n");
    proof {
        assert(text@ =~= spec_layout_line(*descriptor));
    }
    text
}

/// The dump line of one range descriptor.
pub open spec fn spec_layout_line(d: TranslationDescriptor) -> Seq<char> {
    crate::render::spec_hex_addr(d.virtual_range_start as int) + " - "@
        + crate::render::spec_hex_addr(d.virtual_range_end_inclusive as int) + " | "@ + (
    match d.attribute_fields.mem_attributes {
        MemAttributes::CacheableDRAM => "C"@,
        MemAttributes::Device => "Dev"@,
    }) + " | "@ + (match d.attribute_fields.acc_perms {
        AccessPermissions::ReadOnly => "RO"@,
        AccessPermissions::ReadWrite => "RW"@,
    }) + " "@ + (if d.attribute_fields.execute_never {
        "PXN"@
    } else {
        "PX"@
    }) + " | "@ + d.name@ + "\n"@
}

/// The dump lines of the descriptors from position `i` on, in scan order.
pub open spec fn spec_print_layout(descriptors: Seq<TranslationDescriptor>, i: int) -> Seq<char>
    decreases descriptors.len() - i,
{
    if i < 0 || i >= descriptors.len() {
        Seq::empty()
    } else {
        spec_layout_line(descriptors[i]) + spec_print_layout(descriptors, i + 1)
    }
}

} // verus!
