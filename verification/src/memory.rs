//! Typed physical/virtual address model.
//!
//! An [`Address`] is a raw address tagged, at the type level, with the
//! address space it belongs to. The tags make it impossible to mix the two
//! spaces silently; every crossing is an explicit conversion.

use vstd::prelude::*;

use crate::{GRANULE_SIZE, spec_align_down, spec_align_up};

verus! {

/// Metadata trait for marking the type of an address.
pub trait AddressType: Sized {

}

/// Zero-sized type to mark a physical address.
#[derive(Copy, Clone, Debug, PartialEq, Eq, Structural)]
pub struct Physical {}

impl AddressType for Physical {

}

/// Zero-sized type to mark a virtual address.
#[derive(Copy, Clone, Debug, PartialEq, Eq, Structural)]
pub struct Virtual {}

impl AddressType for Virtual {

}

/// Generic address type: a raw address plus its space tag.
#[derive(Debug)]
pub struct Address<T: AddressType> {
    value: usize,
    address_space: core::marker::PhantomData<T>,
}

impl<T: AddressType> View for Address<T> {
    type V = int;

    /// The raw address value.
    closed spec fn view(&self) -> int {
        self.value as int
    }
}

impl<T: AddressType> Clone for Address<T> {
    fn clone(&self) -> (r: Self)
        ensures
            r == *self,
    {
        Address { value: self.value, address_space: core::marker::PhantomData }
    }
}

impl<T: AddressType> Copy for Address<T> {

}

impl<T: AddressType> PartialEq for Address<T> {
    fn eq(&self, other: &Self) -> (r: bool) {
        self.value == other.value
    }
}

impl<T: AddressType> Eq for Address<T> {

}

impl<T: AddressType> vstd::std_specs::cmp::PartialEqSpecImpl for Address<T> {
    open spec fn obeys_eq_spec() -> bool {
        true
    }

    open spec fn eq_spec(&self, other: &Self) -> bool {
        self@ == other@
    }
}

/// An address view always fits the machine word it wraps.
pub broadcast proof fn lemma_address_view_bounds<T: AddressType>(a: Address<T>)
    ensures
        0 <= #[trigger] a@ <= usize::MAX,
{
}

/// True when `value` is a multiple of the translation granule.
pub open spec fn spec_page_aligned(value: int) -> bool {
    value % GRANULE_SIZE as int == 0
}

impl<T: AddressType> Address<T> {
    /// Create an instance.
    pub fn new(value: usize) -> (r: Self)
        ensures
            r@ == value,
    {
        Address { value, address_space: core::marker::PhantomData }
    }

    /// Convert to usize.
    pub fn as_usize(self) -> (r: usize)
        ensures
            r == self@,
    {
        self.value
    }

    /// Align down to page size.
    pub fn align_down_page(self) -> (r: Self)
        ensures
            r@ == spec_align_down(self@, GRANULE_SIZE as int),
            spec_page_aligned(r@),
            r@ <= self@,
    {
        proof {
            crate::lemma_granule_is_power_of_two();
        }
        let aligned = crate::align_down(self.value, GRANULE_SIZE);
        Address::new(aligned)
    }

    /// Align up to page size.
    ///
    /// Overflow of the rounded-up value is a fatal kernel fault and is ruled
    /// out by precondition.
    pub fn align_up_page(self) -> (r: Self)
        requires
            spec_align_up(self@, GRANULE_SIZE as int) <= usize::MAX,
        ensures
            r@ == spec_align_up(self@, GRANULE_SIZE as int),
            spec_page_aligned(r@),
            r@ >= self@,
    {
        proof {
            crate::lemma_granule_is_power_of_two();
        }
        let aligned = crate::align_up(self.value, GRANULE_SIZE);
        Address::new(aligned)
    }

    /// Checks if the address is page aligned.
    pub fn is_page_aligned(&self) -> (r: bool)
        ensures
            r == spec_page_aligned(self@),
    {
        proof {
            crate::lemma_granule_is_power_of_two();
        }
        crate::is_aligned(self.value, GRANULE_SIZE)
    }

    /// Return the address' offset into the corresponding page.
    pub fn offset_into_page(&self) -> (r: usize)
        ensures
            r == self@ % GRANULE_SIZE as int,
    {
        self.value % GRANULE_SIZE
    }

    /// Address addition.
    ///
    /// Overflow signals a logic defect and is a fatal kernel fault; it is
    /// ruled out by precondition.
    pub fn offset_by(self, rhs: usize) -> (r: Self)
        requires
            self@ + rhs <= usize::MAX,
        ensures
            r@ == self@ + rhs,
    {
        Address::new(self.value + rhs)
    }

    /// Address subtraction.
    ///
    /// Underflow signals a logic defect and is a fatal kernel fault; it is
    /// ruled out by precondition.
    pub fn offset_back_by(self, rhs: Address<T>) -> (r: Self)
        requires
            self@ - rhs@ >= 0,
        ensures
            r@ == self@ - rhs@,
    {
        Address::new(self.value - rhs.value)
    }
}

} // verus!
