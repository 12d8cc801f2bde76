//! The one-shot MMU-enable state machine on the modeled machine state.

use rp4os::memory::Address;
use rp4os::memory::Physical;
use rp4os::mmu_enable::Aarch64Mmu;
use rp4os::mmu_enable::MMUEnableError;
use rp4os::mmu_enable::MemoryAttributeClass;
use rp4os::mmu_enable::MemoryManagementUnit;
use rp4os::mmu_enable::MmuHardware;
use rp4os::mmu_enable::enable_mmu_and_caching;

fn powered_on() -> MmuHardware {
    MmuHardware {
        mmu_enabled: false,
        dcache_enabled: false,
        icache_enabled: false,
        granule64_supported: true,
        mair: None,
        tcr: None,
        ttbr0_base: None,
    }
}

#[test]
fn enable_programs_the_machine() {
    let mut hw = powered_on();
    let base = Address::<Physical>::new(0x0102_0000);
    enable_mmu_and_caching(&mut hw, base).unwrap();
    assert!(hw.mmu_enabled);
    assert!(hw.dcache_enabled);
    assert!(hw.icache_enabled);
    assert_eq!(hw.ttbr0_base, Some(0x0102_0000));
    let mair = hw.mair.unwrap();
    assert_eq!(mair.attr0, MemoryAttributeClass::DeviceNonGatheringNonReordering);
    assert_eq!(mair.attr1, MemoryAttributeClass::NormalWriteBackReadWriteAlloc);
    let tcr = hw.tcr.unwrap();
    assert!(tcr.granule_64_kib);
    assert!(tcr.ttbr0_walks_enabled);
    assert!(tcr.ttbr1_walks_disabled);
    assert_eq!(tcr.phys_address_size_bits, 40);
    // 1 GiB of input address space: 64 - 30.
    assert_eq!(tcr.t0sz, 34);
}

#[test]
fn enable_twice_reports_already_enabled_and_reprograms_nothing() {
    let mut hw = powered_on();
    let base = Address::<Physical>::new(0x0102_0000);
    enable_mmu_and_caching(&mut hw, base).unwrap();
    let programmed = hw;
    let second = enable_mmu_and_caching(&mut hw, Address::<Physical>::new(0x0900_0000));
    assert!(matches!(second, Err(MMUEnableError::AlreadyEnabled)));
    assert_eq!(hw, programmed);
    // In particular the base register still holds the first base.
    assert_eq!(hw.ttbr0_base, Some(0x0102_0000));
}

#[test]
fn enable_refuses_unsupported_granule() {
    let mut hw = powered_on();
    hw.granule64_supported = false;
    let before = hw;
    let r = enable_mmu_and_caching(&mut hw, Address::<Physical>::new(0x0102_0000));
    match r {
        Err(MMUEnableError::Other(message)) => {
            assert_eq!(message, "Translation granule not supported in HW");
        },
        _ => panic!("expected the granule to be refused"),
    }
    assert_eq!(hw, before);
}

#[test]
fn is_enabled_reports_the_machine_bit() {
    let mmu = Aarch64Mmu;
    let mut hw = powered_on();
    assert!(!mmu.is_enabled(&hw));
    hw.mmu_enabled = true;
    assert!(mmu.is_enabled(&hw));
}

#[test]
fn error_messages() {
    assert_eq!(MMUEnableError::AlreadyEnabled.message(), "MMU is already enabled");
    assert_eq!(MMUEnableError::Other("custom").message(), "custom");
}
