//! Interrupt-mask state, exception levels, the lifecycle locks, and the
//! plain-text renderers.

use rp4os::bsp;
use rp4os::exception::DAIF_IRQ_MASK;
use rp4os::exception::DaifFlag;
use rp4os::exception::ExceptionLevel;
use rp4os::exception::PrivilegeLevel;
use rp4os::exception::bool_str;
use rp4os::exception::current_privilege_level;
use rp4os::exception::daif_flag_masked;
use rp4os::exception::is_local_irq_masked;
use rp4os::exception::local_irq_enabled;
use rp4os::exception::local_irq_mask;
use rp4os::exception::local_irq_mask_and_save;
use rp4os::exception::local_irq_restore;
use rp4os::exception::local_irq_unmask;
use rp4os::exception::print_exception_state;
use rp4os::render::decimal;
use rp4os::render::hex_addr;
use rp4os::render::hex_fixed;
use rp4os::synchronization::IRQSafeNullLock;
use rp4os::synchronization::InitStateLock;
use rp4os::synchronization::LifecycleState;
use rp4os::synchronization::Mutex;
use rp4os::synchronization::ReadWriteExclusive;

#[test]
fn irq_mask_discipline() {
    let mut daif: u64 = 0;
    assert!(local_irq_enabled(daif));
    assert!(!is_local_irq_masked(daif));
    local_irq_mask(&mut daif);
    assert_eq!(daif, DAIF_IRQ_MASK);
    assert!(!local_irq_enabled(daif));
    assert!(is_local_irq_masked(daif));
    local_irq_unmask(&mut daif);
    assert_eq!(daif, 0);
}

#[test]
fn mask_and_save_round_trip() {
    let mut daif: u64 = 0x3C0;
    let saved = local_irq_mask_and_save(&mut daif);
    assert_eq!(saved, 0x3C0);
    assert!(is_local_irq_masked(daif));
    local_irq_restore(&mut daif, saved);
    assert_eq!(daif, 0x3C0);
}

#[test]
fn daif_flags_read_their_bits() {
    let daif: u64 = 0x240;
    assert!(daif_flag_masked(daif, DaifFlag::Debug));
    assert!(!daif_flag_masked(daif, DaifFlag::SError));
    assert!(!daif_flag_masked(daif, DaifFlag::Irq));
    assert!(daif_flag_masked(daif, DaifFlag::Fiq));
}

#[test]
fn exception_state_dump_exact() {
    let text = print_exception_state(0x80);
    assert_eq!(
        text,
        "Debug:  masked: false\nSError: masked: false\nIRQ:    masked: true\nFIQ:    masked: false\n"
    );
}

#[test]
fn exception_level_decoding() {
    assert_eq!(ExceptionLevel::current_level(0x0), ExceptionLevel::User);
    assert_eq!(ExceptionLevel::current_level(0x4), ExceptionLevel::Kernel);
    assert_eq!(ExceptionLevel::current_level(0x8), ExceptionLevel::Hypervisor);
    assert_eq!(ExceptionLevel::current_level(0xC), ExceptionLevel::Unknown);
    assert_eq!(ExceptionLevel::Kernel.name(), "EL1");
    let (level, name) = current_privilege_level(0x4);
    assert_eq!(level, PrivilegeLevel::Kernel);
    assert_eq!(name, "EL1");
    let (level, name) = current_privilege_level(0x8);
    assert_eq!(level, PrivilegeLevel::Hypervisor);
    assert_eq!(name, "EL2");
}

#[test]
fn renderers_exact_output() {
    assert_eq!(bool_str(true), "true");
    assert_eq!(bool_str(false), "false");
    assert_eq!(decimal(0), "0");
    assert_eq!(decimal(7), "7");
    assert_eq!(decimal(12034), "12034");
    assert_eq!(decimal(u64::MAX), "18446744073709551615");
    assert_eq!(hex_fixed(0xAB, 4), "00ab");
    assert_eq!(hex_addr(0x8_0000), "0x0000000000080000");
    assert_eq!(hex_addr(usize::MAX), "0xffffffffffffffff");
}

#[test]
fn board_constants() {
    assert_eq!(bsp::board_name(), "Raspberry Pi 4");
    assert_eq!(bsp::board_default_load_addr(), 0x8_0000);
    assert_eq!(bsp::PHYS_ADDR_SPACE_END_EXCLUSIVE, 0x1_0000_0000);
    assert_eq!(bsp::MMIO_PL011_UART_START, 0xFE20_1000);
}

#[test]
fn lifecycle_state_transition() {
    let mut state = LifecycleState::Init;
    assert!(state.is_init());
    state.transition_to_single_core_main();
    assert!(!state.is_init());
}

#[test]
fn init_state_lock_gates_reads_and_writes() {
    let mut lock: InitStateLock<u32> = InitStateLock::new(7);
    assert_eq!(*lock.read(), 7);
    let state = LifecycleState::Init;
    let daif: u64 = 0;
    let value = lock.write(&state, daif);
    *value = 9;
    assert_eq!(*lock.read(), 9);
}

#[test]
fn irq_safe_lock_masks_and_restores() {
    let mut lock: IRQSafeNullLock<u32> = IRQSafeNullLock::new(1);
    let mut daif: u64 = 0;
    let (value, saved) = lock.lock(&mut daif);
    *value = 2;
    // Inside the critical section IRQs are masked.
    assert_eq!(daif & DAIF_IRQ_MASK, DAIF_IRQ_MASK);
    IRQSafeNullLock::<u32>::unlock(&mut daif, saved);
    assert_eq!(daif, 0);
    let (value, saved) = lock.lock(&mut daif);
    assert_eq!(*value, 2);
    IRQSafeNullLock::<u32>::unlock(&mut daif, saved);
}

#[test]
fn bounded_usize_checks_its_range() {
    let bounded: rp4os::bsp::BoundedUsize<31> = rp4os::bsp::BoundedUsize::new(17);
    assert_eq!(bounded.get(), 17);
    let at_max: rp4os::bsp::BoundedUsize<31> = rp4os::bsp::BoundedUsize::new(31);
    assert_eq!(at_max.get(), 31);
}

#[test]
fn granule_types_report_their_sizes() {
    assert_eq!(rp4os::granule::MemorySize::<65536>::size_checked(), 65536);
    assert_eq!(rp4os::granule::TranslationGranule::<65536>::size_checked(), 65536);
    assert_eq!(
        rp4os::granule::AddressSpace::<0x4000_0000>::size_checked(),
        0x4000_0000
    );
}
