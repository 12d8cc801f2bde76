//! Verified core of a bare-metal AArch64 kernel's virtual-memory subsystem:
//! a typed physical/virtual address model, page-granular memory regions, the
//! two-level 64 KiB-granule translation table with its descriptor encoding,
//! a bump page allocator for MMIO remap windows, an audit record of active
//! mappings, the one-shot MMU-enable state machine, and the two lifecycle
//! synchronization disciplines that gate mutation of the shared structures.
//!
//! Everything that touches hardware registers, linker symbols, or a device
//! is kept outside; the functions here take those machine-provided values as
//! plain arguments and are verified for every value they may carry.

pub mod attributes;
pub mod bsp;
pub mod exception;
pub mod granule;
pub mod kernel;
pub mod descriptor;
pub mod mapping_record;
pub mod mmu_enable;
pub mod memory;
pub mod page;
pub mod page_alloc;
pub mod postlink;
pub mod render;
pub mod synchronization;
pub mod translation_table;
pub mod virt_layout;

use vstd::prelude::*;

verus! {

/// Size in bytes of the translation granule (one page): 64 KiB.
pub const GRANULE_SIZE: usize = 65536;

/// log2 of `GRANULE_SIZE`.
pub const GRANULE_SHIFT: usize = 16;

/// Span in bytes of one level-2 table window: 512 MiB.
pub const L2_SPAN: usize = 536870912;

/// log2 of `L2_SPAN`.
pub const L2_SPAN_SHIFT: usize = 29;

/// Number of page descriptors in one level-3 block: `L2_SPAN / GRANULE_SIZE`.
pub const NUM_LVL3_ENTRIES: usize = 8192;

/// True when `n` is a power of two.
pub open spec fn spec_is_power_of_two(n: int) -> bool {
    vstd::arithmetic::power2::is_pow2(n)
}

/// Rounding `size` down to a multiple of `alignment`.
pub open spec fn spec_align_down(size: int, alignment: int) -> int {
    size - size % alignment
}

/// Rounding `size` up to a multiple of `alignment`.
pub open spec fn spec_align_up(size: int, alignment: int) -> int {
    if size % alignment == 0 {
        size
    } else {
        size + alignment - size % alignment
    }
}

/// Check if a value is aligned to a given size.
///
/// An alignment that is not a power of two is a programming error and is
/// ruled out by precondition.
pub fn is_aligned(ptr: usize, alignment: usize) -> (r: bool)
    requires
        spec_is_power_of_two(alignment as int),
    ensures
        r == (ptr as int % alignment as int == 0),
{
    proof {
        lemma_power_of_two_pos(alignment as int);
    }
    ptr % alignment == 0
}

/// Align down to a multiple of `alignment`.
pub fn align_down(ptr: usize, alignment: usize) -> (r: usize)
    requires
        spec_is_power_of_two(alignment as int),
    ensures
        r == spec_align_down(ptr as int, alignment as int),
        r as int % alignment as int == 0,
        r <= ptr,
        ptr - r < alignment,
{
    proof {
        lemma_power_of_two_pos(alignment as int);
        lemma_remainder_facts(ptr as int, alignment as int);
    }
    ptr - ptr % alignment
}

/// Align up to a multiple of `alignment`.
///
/// Address arithmetic that would overflow is a fatal kernel fault; the
/// overflowing inputs are ruled out by precondition.
pub fn align_up(ptr: usize, alignment: usize) -> (r: usize)
    requires
        spec_is_power_of_two(alignment as int),
        spec_align_up(ptr as int, alignment as int) <= usize::MAX,
    ensures
        r == spec_align_up(ptr as int, alignment as int),
        r as int % alignment as int == 0,
        ptr <= r,
        r - ptr < alignment,
{
    proof {
        lemma_power_of_two_pos(alignment as int);
        lemma_remainder_facts(ptr as int, alignment as int);
    }
    let rem = ptr % alignment;
    if rem == 0 {
        ptr
    } else {
        ptr + (alignment - rem)
    }
}

/// The granule size is a power of two.
pub proof fn lemma_granule_is_power_of_two()
    ensures
        spec_is_power_of_two(GRANULE_SIZE as int),
{
    vstd::arithmetic::power2::lemma2_to64();
    assert(vstd::arithmetic::power::pow(2, 16) == 65536) by {
        vstd::arithmetic::power::lemma_pow_positive(2, 16);
    };
    assert(vstd::arithmetic::power2::is_pow2_exists(GRANULE_SIZE as int));
    vstd::arithmetic::power2::is_pow2_equiv(GRANULE_SIZE as int);
}

/// A power of two is positive.
pub proof fn lemma_power_of_two_pos(n: int)
    requires
        spec_is_power_of_two(n),
    ensures
        n > 0,
{
    reveal(vstd::arithmetic::power2::is_pow2);
}

/// Facts about the remainder that the alignment helpers rest on: its bounds,
/// and that stripping it (or completing it to the next multiple) lands on a
/// multiple of `m`.
pub proof fn lemma_remainder_facts(x: int, m: int)
    requires
        x >= 0,
        m > 0,
    ensures
        0 <= x % m < m,
        x % m <= x,
        (x - x % m) % m == 0,
        x % m != 0 ==> (x + (m - x % m)) % m == 0,
{
    vstd::arithmetic::div_mod::lemma_fundamental_div_mod(x, m);
    let q = x / m;
    assert(x - x % m == q * m + 0) by (nonlinear_arith)
        requires
            x == m * (x / m) + x % m,
            q == x / m,
    ;
    vstd::arithmetic::div_mod::lemma_fundamental_div_mod_converse_mod(x - x % m, m, q, 0);
    if x % m != 0 {
        assert(x + (m - x % m) == (q + 1) * m + 0) by {
            assert((q + 1) * m == q * m + m) by (nonlinear_arith);
        };
        vstd::arithmetic::div_mod::lemma_fundamental_div_mod_converse_mod(
            x + (m - x % m),
            m,
            q + 1,
            0,
        );
    }
    if x < m {
        vstd::arithmetic::div_mod::lemma_small_mod(x as nat, m as nat);
    }
}

/// Bytes in one KiB.
pub const KIB: usize = 1024;

/// Bytes in one MiB.
pub const MIB: usize = 1048576;

/// Bytes in one GiB.
pub const GIB: usize = 1073741824;

/// Numerator of `size` scaled to the unit named by the returned suffix,
/// rounded up.
pub open spec fn spec_size_human_readable_ceil(size: int) -> int {
    if size / GIB as int > 0 {
        (size + GIB - 1) / GIB as int
    } else if size / MIB as int > 0 {
        (size + MIB - 1) / MIB as int
    } else if size / KIB as int > 0 {
        (size + KIB - 1) / KIB as int
    } else {
        size
    }
}

/// The unit suffix that `size_human_readable_ceil` scales to.
pub open spec fn spec_size_unit(size: int) -> Seq<char> {
    if size / GIB as int > 0 {
        "GiB"@
    } else if size / MIB as int > 0 {
        "MiB"@
    } else if size / KIB as int > 0 {
        "KiB"@
    } else {
        "Byte"@
    }
}

/// Convert a size into human readable format: the amount, rounded up, in the
/// largest binary unit the size reaches, together with that unit's name.
pub fn size_human_readable_ceil(size: usize) -> (r: (usize, &'static str))
    ensures
        r.0 == spec_size_human_readable_ceil(size as int),
        r.1@ == spec_size_unit(size as int),
{
    if size / GIB > 0 {
        (div_ceil(size, GIB), "GiB")
    } else if size / MIB > 0 {
        (div_ceil(size, MIB), "MiB")
    } else if size / KIB > 0 {
        (div_ceil(size, KIB), "KiB")
    } else {
        (size, "Byte")
    }
}

/// `size / unit`, rounded up, computed without intermediate overflow.
fn div_ceil(size: usize, unit: usize) -> (r: usize)
    requires
        unit > 0,
    ensures
        r == (size as int + unit as int - 1) / unit as int,
{
    let q = size / unit;
    let rem = size % unit;
    proof {
        vstd::arithmetic::div_mod::lemma_fundamental_div_mod(size as int, unit as int);
    }
    if rem == 0 {
        proof {
            vstd::arithmetic::div_mod::lemma_fundamental_div_mod_converse_div(
                size as int + unit as int - 1,
                unit as int,
                q as int,
                unit as int - 1,
            );
        }
        q
    } else {
        proof {
            assert((q as int + 1) * unit as int == q as int * unit as int + unit as int)
                by (nonlinear_arith);
            vstd::arithmetic::div_mod::lemma_fundamental_div_mod_converse_div(
                size as int + unit as int - 1,
                unit as int,
                q as int + 1,
                rem as int - 1,
            );
            assert(q as int <= unit as int * q as int) by (nonlinear_arith)
                requires q >= 0 && unit >= 1;
        }
        q + 1
    }
}

} // verus!
