//! Exception-level and interrupt-mask state, modeled on values.
//!
//! The hardware keeps the interrupt mask bits in a status register and the
//! current exception level in another; reading and writing them is a
//! two-instruction affair that lives outside this crate. Everything that
//! can be decided *about* those values — which flag a bit position means,
//! what level a register value encodes, what the mask/restore discipline
//! does — is here, verified for every value.

use vstd::prelude::*;

use vstd::string::StringExecFns;

verus! {

/// Debug-exception mask bit of the interrupt status word.
pub const DAIF_DEBUG_MASK: u64 = 512;

/// SError mask bit of the interrupt status word.
pub const DAIF_SERROR_MASK: u64 = 256;

/// IRQ mask bit of the interrupt status word.
pub const DAIF_IRQ_MASK: u64 = 128;

/// FIQ mask bit of the interrupt status word.
pub const DAIF_FIQ_MASK: u64 = 64;

/// The four maskable exception classes.
#[derive(Copy, Clone, Debug, PartialEq, Eq, Structural)]
pub enum DaifFlag {
    Debug,
    SError,
    Irq,
    Fiq,
}

/// The mask bit of a flag.
pub open spec fn spec_daif_flag_mask(flag: DaifFlag) -> u64 {
    match flag {
        DaifFlag::Debug => DAIF_DEBUG_MASK,
        DaifFlag::SError => DAIF_SERROR_MASK,
        DaifFlag::Irq => DAIF_IRQ_MASK,
        DaifFlag::Fiq => DAIF_FIQ_MASK,
    }
}

/// Whether `flag` is masked in the status word `daif`.
pub open spec fn spec_daif_flag_masked(daif: u64, flag: DaifFlag) -> bool {
    daif & spec_daif_flag_mask(flag) != 0
}

/// Whether IRQs are masked in the status word `daif`.
pub open spec fn spec_irq_masked(daif: u64) -> bool {
    spec_daif_flag_masked(daif, DaifFlag::Irq)
}

/// Whether `flag` is masked in the status word `daif`.
pub fn daif_flag_masked(daif: u64, flag: DaifFlag) -> (r: bool)
    ensures
        r == spec_daif_flag_masked(daif, flag),
{
    let mask: u64 = match flag {
        DaifFlag::Debug => DAIF_DEBUG_MASK,
        DaifFlag::SError => DAIF_SERROR_MASK,
        DaifFlag::Irq => DAIF_IRQ_MASK,
        DaifFlag::Fiq => DAIF_FIQ_MASK,
    };
    daif & mask != 0
}

/// Returns whether IRQs can be taken on the executing core: its IRQ mask
/// bit is clear.
pub fn local_irq_enabled(daif: u64) -> (r: bool)
    ensures
        r == !spec_irq_masked(daif),
{
    daif & DAIF_IRQ_MASK == 0
}

/// Returns whether IRQs are masked on the executing core.
pub fn is_local_irq_masked(daif: u64) -> (r: bool)
    ensures
        r == spec_irq_masked(daif),
{
    daif & DAIF_IRQ_MASK != 0
}

/// Unmask IRQs on the executing core.
pub fn local_irq_unmask(daif: &mut u64)
    ensures
        *final(daif) == *old(daif) & !DAIF_IRQ_MASK,
{
    *daif = *daif & !DAIF_IRQ_MASK;
}

/// Mask IRQs on the executing core.
pub fn local_irq_mask(daif: &mut u64)
    ensures
        *final(daif) == *old(daif) | DAIF_IRQ_MASK,
{
    *daif = *daif | DAIF_IRQ_MASK;
}

/// Mask IRQs on the executing core and return the previously saved
/// interrupt mask bits.
pub fn local_irq_mask_and_save(daif: &mut u64) -> (saved: u64)
    ensures
        saved == *old(daif),
        *final(daif) == *old(daif) | DAIF_IRQ_MASK,
{
    let saved: u64 = *daif;
    local_irq_mask(daif);
    saved
}

/// Restore the interrupt mask bits using the callee's argument. No sanity
/// checks on the input.
pub fn local_irq_restore(daif: &mut u64, saved: u64)
    ensures
        *final(daif) == saved,
{
    *daif = saved;
}

/// Kernel privilege levels.
#[derive(Copy, Clone, Debug, PartialEq, Eq, Structural)]
pub enum ExceptionLevel {
    User,
    Kernel,
    Hypervisor,
    Unknown,
}

/// The exception level a current-level register value encodes, in its bits
/// 3:2.
pub open spec fn spec_exception_level(current_el: u64) -> ExceptionLevel {
    if (current_el >> 2) & 3 == 0 {
        ExceptionLevel::User
    } else if (current_el >> 2) & 3 == 1 {
        ExceptionLevel::Kernel
    } else if (current_el >> 2) & 3 == 2 {
        ExceptionLevel::Hypervisor
    } else {
        ExceptionLevel::Unknown
    }
}

impl ExceptionLevel {
    /// Decode the processing element's current privilege level from its
    /// current-level register value.
    pub fn current_level(current_el: u64) -> (r: ExceptionLevel)
        ensures
            r == spec_exception_level(current_el),
    {
        let bits: u64 = (current_el >> 2) & 3;
        if bits == 0 {
            ExceptionLevel::User
        } else if bits == 1 {
            ExceptionLevel::Kernel
        } else if bits == 2 {
            ExceptionLevel::Hypervisor
        } else {
            ExceptionLevel::Unknown
        }
    }

    /// The level's conventional name.
    pub fn name(&self) -> (r: &'static str)
        ensures
            *self is User ==> r@ == "EL0"@,
            *self is Kernel ==> r@ == "EL1"@,
            *self is Hypervisor ==> r@ == "EL2"@,
            *self is Unknown ==> r@ == "Unknown"@,
    {
        match self {
            ExceptionLevel::User => "EL0",
            ExceptionLevel::Kernel => "EL1",
            ExceptionLevel::Hypervisor => "EL2",
            ExceptionLevel::Unknown => "Unknown",
        }
    }
}

/// Kernel privilege levels.
#[derive(Copy, Clone, Debug, PartialEq, Eq, Structural)]
pub enum PrivilegeLevel {
    User,
    Kernel,
    Hypervisor,
    Unknown,
}

/// The privilege level a current-level register value encodes.
pub open spec fn spec_privilege_level(current_el: u64) -> PrivilegeLevel {
    if (current_el >> 2) & 3 == 0 {
        PrivilegeLevel::User
    } else if (current_el >> 2) & 3 == 1 {
        PrivilegeLevel::Kernel
    } else if (current_el >> 2) & 3 == 2 {
        PrivilegeLevel::Hypervisor
    } else {
        PrivilegeLevel::Unknown
    }
}

/// The processing element's current privilege level, with its conventional
/// name.
pub fn current_privilege_level(current_el: u64) -> (r: (PrivilegeLevel, &'static str))
    ensures
        r.0 == spec_privilege_level(current_el),
        r.0 is User ==> r.1@ == "EL0"@,
        r.0 is Kernel ==> r.1@ == "EL1"@,
        r.0 is Hypervisor ==> r.1@ == "EL2"@,
        r.0 is Unknown ==> r.1@ == "Unknown"@,
{
    let bits: u64 = (current_el >> 2) & 3;
    if bits == 0 {
        (PrivilegeLevel::User, "EL0")
    } else if bits == 1 {
        (PrivilegeLevel::Kernel, "EL1")
    } else if bits == 2 {
        (PrivilegeLevel::Hypervisor, "EL2")
    } else {
        (PrivilegeLevel::Unknown, "Unknown")
    }
}

/// The text of a boolean.
pub open spec fn spec_bool_str(b: bool) -> Seq<char> {
    if b {
        "true"@
    } else {
        "false"@
    }
}

/// The text of a boolean.
pub fn bool_str(b: bool) -> (r: &'static str)
    ensures
        r@ == spec_bool_str(b),
{
    if b {
        "true"
    } else {
        "false"
    }
}

/// The exception status dump for the status word `daif`: one line per
/// maskable class, reporting whether it is masked.
pub open spec fn spec_exception_state(daif: u64) -> Seq<char> {
    "Debug:  masked: "@ + spec_bool_str(spec_daif_flag_masked(daif, DaifFlag::Debug)) + "\n"@
        + "SError: masked: "@ + spec_bool_str(spec_daif_flag_masked(daif, DaifFlag::SError))
        + "\n"@ + "IRQ:    masked: "@ + spec_bool_str(spec_daif_flag_masked(daif, DaifFlag::Irq))
        + "\n"@ + "FIQ:    masked: "@ + spec_bool_str(spec_daif_flag_masked(daif, DaifFlag::Fiq))
        + "\n"@
}

/// Render the exception status for the status word `daif`.
pub fn print_exception_state(daif: u64) -> (r: String)
    ensures
        r@ == spec_exception_state(daif),
{
    let mut text = String::new();
    text.append("Debug:  masked: ");
    text.append(bool_str(daif_flag_masked(daif, DaifFlag::Debug)));
    text.append("\n");
    text.append("SError: masked: ");
    text.append(bool_str(daif_flag_masked(daif, DaifFlag::SError)));
    text.append("\n");
    text.append("IRQ:    masked: ");
    text.append(bool_str(daif_flag_masked(daif, DaifFlag::Irq)));
    text.append("\n");
    text.append("FIQ:    masked: ");
    text.append(bool_str(daif_flag_masked(daif, DaifFlag::Fiq)));
    text.append("\n");
    proof {
        assert(text@ =~= spec_exception_state(daif));
    }
    text
}

} // verus!
