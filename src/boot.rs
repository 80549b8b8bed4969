//! Reset-vector decisions: which core goes on, and how the boot core gets
//! from the level it was reset into to EL1 before the image initialiser runs.
use vstd::prelude::*;
use crate::STACK_START;

verus! {

/// MPIDR_EL1.Aff0 bits that identify a core of the cluster.
pub const CORE_MASK: u64 = 0x3;

/// The only core that runs the bring-up sequence.
pub const BOOT_CORE: u64 = 0;

/// CNTHCTL_EL2.EL1PCTEN: EL1 may read the physical counter.
pub const CNTHCTL_EL1PCTEN: u64 = 0x1;

/// CNTHCTL_EL2.EL1PCEN: EL1 may access the physical timer.
pub const CNTHCTL_EL1PCEN: u64 = 0x2;

/// HCR_EL2.RW: EL1 executes in AArch64.
pub const HCR_RW: u64 = 0x8000_0000;

/// SPSR_EL2.D, .A, .I and .F: every asynchronous exception class masked.
pub const SPSR_DAIF_MASKED: u64 = 0x3C0;

/// SPSR_EL2.M = EL1h: return to EL1, using SP_EL1.
pub const SPSR_M_EL1H: u64 = 0x5;

/// A privilege level that the boot path knows how to handle.
#[derive(Clone, Copy, Debug, PartialEq, Eq, Structural)]
pub enum PrivilegeLevel {
    /// EL2, where the board resets: may demote itself.
    Hypervisor,
    /// EL1, where the kernel runs.
    Kernel,
}

/// What the reset vector does on this core.
#[derive(Clone, Copy, Debug, PartialEq, Eq, Structural)]
pub enum BootPath {
    /// Wait for events forever: this core takes no part.
    Park,
    /// Already at EL1: set SP to `sp` and call the image initialiser.
    EnterInit { sp: u64 },
    /// At EL2: write CNTHCTL_EL2, CNTVOFF_EL2, set HCR_EL2.RW, write
    /// SPSR_EL2, ELR_EL2 and SP_EL1, then `eret`.
    DropToKernel { cnthctl: u64, cntvoff: u64, spsr: u64, elr: u64, sp_el1: u64 },
}

/// The core number held in an MPIDR_EL1 value.
pub open spec fn core_of(mpidr: u64) -> int {
    mpidr as int % 4
}

/// The level named by a CurrentEL value (its EL field, bits 3:2), where the
/// boot path handles it.
pub open spec fn level_of(current_el: u64) -> Option<PrivilegeLevel> {
    let el = (current_el as int / 4) % 4;
    if el == 2 {
        Some(PrivilegeLevel::Hypervisor)
    } else if el == 1 {
        Some(PrivilegeLevel::Kernel)
    } else {
        None
    }
}

/// The level that `eret` from EL2 enters with this SPSR_EL2 value.
pub open spec fn eret_target(spsr: u64) -> Option<PrivilegeLevel> {
    let m = spsr as int % 16;
    if m == 5 || m == 4 {
        Some(PrivilegeLevel::Kernel)
    } else if m == 9 || m == 8 {
        Some(PrivilegeLevel::Hypervisor)
    } else {
        None
    }
}

/// An SPSR value with D, A, I and F all set.
pub open spec fn masks_all_exceptions(spsr: u64) -> bool {
    (spsr as int / 64) % 16 == 15
}

/// Whether control reaches the image initialiser at `init_entry`.
pub open spec fn reaches_init(path: BootPath, init_entry: u64) -> bool {
    match path {
        BootPath::Park => false,
        BootPath::EnterInit { .. } => true,
        BootPath::DropToKernel { elr, .. } => elr == init_entry,
    }
}

/// The level at which the image initialiser starts, for a core reset at `start`.
pub open spec fn level_after(path: BootPath, start: PrivilegeLevel) -> Option<PrivilegeLevel> {
    match path {
        BootPath::DropToKernel { spsr, .. } => eret_target(spsr),
        _ => Some(start),
    }
}

/// The stack pointer that the image initialiser starts with.
pub open spec fn stack_after(path: BootPath) -> u64 {
    match path {
        BootPath::DropToKernel { sp_el1, .. } => sp_el1,
        BootPath::EnterInit { sp } => sp,
        BootPath::Park => 0,
    }
}

/// The core number of an MPIDR_EL1 value.
pub fn core_id(mpidr: u64) -> (r: u64)
    ensures
        r == core_of(mpidr),
{
    assert(mpidr & 3 == mpidr % 4) by (bit_vector);
    mpidr & CORE_MASK
}

/// Decodes a CurrentEL value.
pub fn decode_level(current_el: u64) -> (r: Option<PrivilegeLevel>)
    ensures
        r == level_of(current_el),
{
    assert((current_el >> 2) & 3 == (current_el / 4) % 4) by (bit_vector);
    let el = (current_el >> 2) & 3;
    if el == 2 {
        Some(PrivilegeLevel::Hypervisor)
    } else if el == 1 {
        Some(PrivilegeLevel::Kernel)
    } else {
        None
    }
}

/// HCR_EL2 with EL1 set to execute in AArch64, the other bits kept.
pub fn hcr_for_kernel(hcr: u64) -> (r: u64)
    ensures
        r == hcr | HCR_RW,
{
    hcr | HCR_RW
}

/// Decides what the reset vector does on the core with this MPIDR_EL1 value,
/// reset at the level given by this CurrentEL value. `init_entry` is the
/// address of the image initialiser.
///
/// Every core but core 0 parks, and so does core 0 at a level other than EL1
/// or EL2. Core 0 at EL1 calls the initialiser on the fixed stack. Core 0 at
/// EL2 opens the physical timer and counter to EL1, zeroes the virtual
/// offset, and returns to the initialiser at EL1h with every asynchronous
/// exception masked and SP_EL1 at the fixed stack.
pub fn boot_path(mpidr: u64, current_el: u64, init_entry: u64) -> (r: BootPath)
    ensures
        core_of(mpidr) != BOOT_CORE ==> r == BootPath::Park,
        core_of(mpidr) == BOOT_CORE && level_of(current_el) == Some(PrivilegeLevel::Kernel)
            ==> r == (BootPath::EnterInit { sp: STACK_START }),
        core_of(mpidr) == BOOT_CORE && level_of(current_el) == Some(PrivilegeLevel::Hypervisor)
            ==> r == (BootPath::DropToKernel {
                cnthctl: CNTHCTL_EL1PCEN | CNTHCTL_EL1PCTEN,
                cntvoff: 0,
                spsr: SPSR_DAIF_MASKED | SPSR_M_EL1H,
                elr: init_entry,
                sp_el1: STACK_START,
            }),
        level_of(current_el) is None ==> r == BootPath::Park,
        // only the boot core, at a level it handles, reaches the initialiser
        reaches_init(r, init_entry) <==> (core_of(mpidr) == BOOT_CORE && level_of(current_el) is Some),
        // and it gets there at EL1, on the fixed stack
        reaches_init(r, init_entry) ==> level_after(r, level_of(current_el).unwrap())
            == Some(PrivilegeLevel::Kernel) && stack_after(r) == STACK_START,
        // the drop from EL2 masks every asynchronous exception
        r matches BootPath::DropToKernel { spsr, .. } ==> masks_all_exceptions(spsr),
{
    if core_id(mpidr) != BOOT_CORE {
        return BootPath::Park;
    }
    match decode_level(current_el) {
        Some(PrivilegeLevel::Kernel) => BootPath::EnterInit { sp: STACK_START },
        Some(PrivilegeLevel::Hypervisor) => {
            let spsr: u64 = SPSR_DAIF_MASKED | SPSR_M_EL1H;
            assert(SPSR_DAIF_MASKED | SPSR_M_EL1H == 0x3C5u64) by (bit_vector);
            BootPath::DropToKernel {
                cnthctl: CNTHCTL_EL1PCEN | CNTHCTL_EL1PCTEN,
                cntvoff: 0,
                spsr,
                elr: init_entry,
                sp_el1: STACK_START,
            }
        },
        None => BootPath::Park,
    }
}

} // verus!
