//! Bring-up logic for a Raspberry Pi 3 class board: core selection and the
//! drop from EL2 to EL1, zeroing of the uninitialised-data region, the
//! property mailbox to the firmware, the PL011 UART driver and the sequence
//! that ties them together.
//!
//! Nothing here touches hardware. Each component is a state machine that
//! names the next register access (or system-register write) to perform and
//! is told what a read returned; the board support code performs the accesses.
use vstd::prelude::*;

pub mod boot;
pub mod bss;
pub mod mbox;
pub mod uart;
pub mod bringup;

verus! {

/// Initial stack pointer: the stack grows down from the 4 MiB boundary.
pub const STACK_START: u64 = 0x0040_0000;

/// Base of the peripheral MMIO window.
pub const MMIO_BASE: u32 = 0x3F00_0000;

/// One memory-mapped 32-bit access for the board support code to perform.
#[derive(Clone, Copy, Debug, PartialEq, Eq, Structural)]
pub enum Access {
    /// Read the register at `addr` and hand the value back.
    Read { addr: u32 },
    /// Write `value` to the register at `addr`.
    Write { addr: u32, value: u32 },
}

/// One step of a bring-up sequence for the board support code to perform.
#[derive(Clone, Copy, Debug, PartialEq, Eq, Structural)]
pub enum Action {
    /// A register or shared-memory access.
    Access(Access),
    /// Route UART0's TX and RX to GPIO pins 14 and 15.
    MapPins,
    /// Wait for events forever.
    WaitForEvent,
}

} // verus!
