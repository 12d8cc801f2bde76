//! Board support: the Raspberry Pi 4's physical memory map constants.

use vstd::prelude::*;

verus! {

/// One past the highest physical address of the board (the inclusive end
/// `0xFFFF_FFFF`, plus one). Mapping requests beyond it are rejected.
pub const PHYS_ADDR_SPACE_END_EXCLUSIVE: u64 = 0x1_0000_0000;

/// The address on which the board's firmware loads every binary by default.
pub const BOARD_DEFAULT_LOAD_ADDRESS: usize = 0x8_0000;

/// Physical start of the MMIO window.
pub const MMIO_START: usize = 0xFE00_0000;

/// Physical start of the GPIO block.
pub const MMIO_GPIO_START: usize = 0xFE20_0000;

/// Physical start of the PL011 UART block.
pub const MMIO_PL011_UART_START: usize = 0xFE20_1000;

/// Physical inclusive end of the MMIO window.
pub const MMIO_END_INCLUSIVE: usize = 0xFF84_FFFF;

/// Size of the kernel's virtual address space: 1 GiB.
pub const KERNEL_VADDR_SPACE_SIZE: usize = 0x4000_0000;

/// log2 of `KERNEL_VADDR_SPACE_SIZE`.
pub const KERNEL_VADDR_SPACE_SIZE_SHIFT: usize = 30;

/// The board's name.
pub fn board_name() -> (r: &'static str)
    ensures
        r@ == "Raspberry Pi 4"@,
{
    "Raspberry Pi 4"
}

/// The address on which the board's firmware loads every binary by default.
pub fn board_default_load_addr() -> (r: usize)
    ensures
        r == BOARD_DEFAULT_LOAD_ADDRESS,
{
    BOARD_DEFAULT_LOAD_ADDRESS
}

/// A wrapper type for usize with integrated range bound check.
#[derive(Copy, Clone, Debug)]
pub struct BoundedUsize<const MAX_INCLUSIVE: usize> {
    value: usize,
}

impl<const MAX_INCLUSIVE: usize> BoundedUsize<MAX_INCLUSIVE> {
    /// The wrapped number never exceeds the bound.
    #[verifier::type_invariant]
    spec fn type_inv(self) -> bool {
        self.value <= MAX_INCLUSIVE
    }

    /// The wrapped number.
    pub closed spec fn spec_get(&self) -> usize {
        self.value
    }

    /// Creates a new instance. A number over the bound is a programming
    /// error and is ruled out by precondition.
    pub fn new(number: usize) -> (r: Self)
        requires
            number <= MAX_INCLUSIVE,
        ensures
            r.spec_get() == number,
    {
        BoundedUsize { value: number }
    }

    /// Return the wrapped number.
    pub fn get(self) -> (r: usize)
        ensures
            r == self.spec_get(),
            r <= MAX_INCLUSIVE,
    {
        proof {
            use_type_invariant(self);
        }
        self.value
    }
}

} // verus!
