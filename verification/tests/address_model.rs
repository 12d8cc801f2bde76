//! The address and region model: alignment helpers, page-granular
//! addresses, region splitting, and MMIO window descriptors.

use rp4os::GRANULE_SIZE;
use rp4os::align_down;
use rp4os::align_up;
use rp4os::is_aligned;
use rp4os::memory::Address;
use rp4os::memory::Physical;
use rp4os::memory::Virtual;
use rp4os::page::MMIODescriptor;
use rp4os::page::MemoryRegion;
use rp4os::page::PageAddress;
use rp4os::size_human_readable_ceil;

#[test]
fn alignment_helpers() {
    assert!(is_aligned(0x2_0000, GRANULE_SIZE));
    assert!(!is_aligned(0x2_0001, GRANULE_SIZE));
    assert_eq!(align_down(0x2_0001, GRANULE_SIZE), 0x2_0000);
    assert_eq!(align_down(0x2_0000, GRANULE_SIZE), 0x2_0000);
    assert_eq!(align_up(0x2_0001, GRANULE_SIZE), 0x3_0000);
    assert_eq!(align_up(0x2_0000, GRANULE_SIZE), 0x2_0000);
    assert_eq!(align_up(1, 2), 2);
    assert_eq!(align_down(7, 4), 4);
}

#[test]
fn address_page_operations() {
    let a: Address<Virtual> = Address::new(0x2_1234);
    assert_eq!(a.as_usize(), 0x2_1234);
    assert_eq!(a.align_down_page().as_usize(), 0x2_0000);
    assert_eq!(a.align_up_page().as_usize(), 0x3_0000);
    assert!(!a.is_page_aligned());
    assert_eq!(a.offset_into_page(), 0x1234);
    let b: Address<Virtual> = Address::new(0x2_0000);
    assert!(b.is_page_aligned());
    assert_eq!(b.offset_into_page(), 0);
    assert_eq!(a.offset_by(0x10).as_usize(), 0x2_1244);
    assert_eq!(a.offset_back_by(Address::new(0x1234)).as_usize(), 0x2_0000);
    assert!(Address::<Virtual>::new(7) == Address::<Virtual>::new(7));
    assert!(Address::<Virtual>::new(7) != Address::<Virtual>::new(8));
}

#[test]
fn checked_offset_zero_is_identity() {
    let p: PageAddress<Virtual> = PageAddress::from_usize(0x4_0000);
    let q = p.checked_offset(0).unwrap();
    assert_eq!(q.address().as_usize(), 0x4_0000);
}

#[test]
fn checked_offset_round_trip() {
    let p: PageAddress<Virtual> = PageAddress::from_usize(0x4_0000);
    let forward = p.checked_offset(3).unwrap();
    assert_eq!(forward.address().as_usize(), 0x7_0000);
    let back = forward.checked_offset(-3).unwrap();
    assert_eq!(back.address().as_usize(), 0x4_0000);
}

#[test]
fn checked_offset_overflow_is_none() {
    let p: PageAddress<Virtual> = PageAddress::from_usize(0x4_0000);
    assert!(p.checked_offset(-5).is_none());
    let top: PageAddress<Virtual> =
        PageAddress::from_usize(usize::MAX - (GRANULE_SIZE - 1));
    assert!(top.checked_offset(1).is_none());
}

#[test]
fn steps_between_counts_pages() {
    let lo: PageAddress<Virtual> = PageAddress::from_usize(0x4_0000);
    let hi: PageAddress<Virtual> = PageAddress::from_usize(0x8_0000);
    assert_eq!(PageAddress::steps_between(&lo, &hi), Some(4));
    assert_eq!(PageAddress::steps_between(&hi, &hi), Some(0));
    assert_eq!(PageAddress::steps_between(&hi, &lo), None);
}

#[test]
fn region_basics() {
    let start: PageAddress<Virtual> = PageAddress::from_usize(0x4_0000);
    let end: PageAddress<Virtual> = PageAddress::from_usize(0x8_0000);
    let region = MemoryRegion::new(start, end);
    assert_eq!(region.num_pages(), 4);
    assert_eq!(region.size(), 4 * GRANULE_SIZE);
    assert_eq!(region.end_inclusive_page_addr().address().as_usize(), 0x7_0000);
    assert!(region.contains(Address::new(0x4_0000)));
    assert!(region.contains(Address::new(0x7_FFFF)));
    assert!(!region.contains(Address::new(0x8_0000)));
    assert!(!region.contains(Address::new(0x3_FFFF)));
}

#[test]
fn region_overlap_two_point_check() {
    let region = MemoryRegion::new(
        PageAddress::<Virtual>::from_usize(0x4_0000),
        PageAddress::<Virtual>::from_usize(0x8_0000),
    );
    let inside = MemoryRegion::new(
        PageAddress::<Virtual>::from_usize(0x5_0000),
        PageAddress::<Virtual>::from_usize(0x6_0000),
    );
    let straddling = MemoryRegion::new(
        PageAddress::<Virtual>::from_usize(0x7_0000),
        PageAddress::<Virtual>::from_usize(0x9_0000),
    );
    let disjoint = MemoryRegion::new(
        PageAddress::<Virtual>::from_usize(0x9_0000),
        PageAddress::<Virtual>::from_usize(0xA_0000),
    );
    assert!(region.overlaps(&inside));
    assert!(region.overlaps(&straddling));
    assert!(!region.overlaps(&disjoint));
    // The documented two-point limitation: a region that strictly contains
    // this one has neither endpoint inside it, and the check misses it.
    let containing = MemoryRegion::new(
        PageAddress::<Virtual>::from_usize(0x0),
        PageAddress::<Virtual>::from_usize(0xA_0000),
    );
    assert!(!region.overlaps(&containing));
}

#[test]
fn take_first_n_pages_sequence() {
    // A pool of 4 pages: requests succeed while the running sum fits and
    // fail exactly when the next request would exceed the remainder; the
    // pieces come out adjacent, disjoint, in request order.
    let mut pool = MemoryRegion::new(
        PageAddress::<Virtual>::from_usize(0x10_0000),
        PageAddress::<Virtual>::from_usize(0x14_0000),
    );
    let first = pool.take_first_n_pages(2).unwrap();
    assert_eq!(first.start_page().address().as_usize(), 0x10_0000);
    assert_eq!(first.end_page_exclusive().address().as_usize(), 0x12_0000);
    let second = pool.take_first_n_pages(1).unwrap();
    assert_eq!(second.start_page().address().as_usize(), 0x12_0000);
    assert_eq!(second.end_page_exclusive().address().as_usize(), 0x13_0000);
    let too_big = pool.take_first_n_pages(2);
    assert_eq!(too_big.unwrap_err(), "Not enough free pages");
    // The failed request changed nothing.
    assert_eq!(pool.start_page().address().as_usize(), 0x13_0000);
    let third = pool.take_first_n_pages(1).unwrap();
    assert_eq!(third.start_page().address().as_usize(), 0x13_0000);
    let empty = pool.take_first_n_pages(1);
    assert_eq!(empty.unwrap_err(), "Not enough free pages");
    assert_eq!(pool.num_pages(), 0);
}

#[test]
fn take_first_n_pages_offset_overflow() {
    let top = usize::MAX - (GRANULE_SIZE - 1);
    let mut pool = MemoryRegion::new(
        PageAddress::<Virtual>::from_usize(top),
        PageAddress::<Virtual>::from_usize(top),
    );
    let r = pool.take_first_n_pages(1);
    assert_eq!(r.unwrap_err(), "Overflow while calculating left_end_exclusive");
}

#[test]
fn mmio_descriptor_rounds_to_pages() {
    let desc = MMIODescriptor::new(Address::<Physical>::new(0xFE20_1000), 0x48);
    assert_eq!(desc.start().as_usize(), 0xFE20_1000);
    assert_eq!(desc.end_exclusive().as_usize(), 0xFE20_1048);
    let region = desc.page_region();
    assert_eq!(region.start_page().address().as_usize(), 0xFE20_0000);
    assert_eq!(region.end_page_exclusive().address().as_usize(), 0xFE21_0000);
    assert_eq!(region.num_pages(), 1);
}

#[test]
fn human_readable_sizes() {
    assert_eq!(size_human_readable_ceil(1), (1, "Byte"));
    assert_eq!(size_human_readable_ceil(1023), (1023, "Byte"));
    assert_eq!(size_human_readable_ceil(1024), (1, "KiB"));
    assert_eq!(size_human_readable_ceil(65536), (64, "KiB"));
    assert_eq!(size_human_readable_ceil(1024 * 1024), (1, "MiB"));
    assert_eq!(size_human_readable_ceil(1024 * 1024 + 1), (2, "MiB"));
    assert_eq!(size_human_readable_ceil(1024 * 1024 * 1024), (1, "GiB"));
    assert_eq!(size_human_readable_ceil(3 * 1024 * 1024 * 1024 - 1), (3, "GiB"));
}
