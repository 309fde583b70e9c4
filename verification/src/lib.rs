//! Interrupt-handling foundation for a bare-metal kernel on an ARM core with a
//! PL390-class interrupt controller.
//!
//! The crate models the hardware state the drivers manipulate — the core's
//! control registers and the controller's register banks — as explicit data,
//! so every driver operation carries a contract over that state. A platform
//! port maps the model's register writes onto real memory-mapped stores; a
//! host harness can drive the same code against the simulated registers.

use vstd::prelude::*;

pub mod cpu;
pub mod irc;
pub mod pl390;

use cpu::CpuControlBlock;
use irc::{IsrEntry, IsrTable};

verus! {

/// Kernel-wide interrupt state, constructed once at startup and passed by
/// reference into the driver calls, rather than living in process-wide
/// mutable variables.
pub struct Kernel {
    /// Per-core saved interrupt mask, consumed by `cpu::cpu_unlock`.
    pub cpu_cb: cpu::CpuControlBlock,
    /// Dispatch table mapping interrupt identifiers to registered routines.
    pub isr_table: irc::IsrTable,
}

/// Builds the kernel's interrupt state: a control block with no saved mask
/// and a dispatch table with every slot empty.
pub fn initialize() -> (k: Kernel)
    ensures
        k.cpu_cb.imask == 0,
        k.isr_table.wf(),
        forall|i: int| 0 <= i < 256 ==> k.isr_table@[i] == (IsrEntry::Empty),
{
    Kernel { cpu_cb: CpuControlBlock { imask: 0 }, isr_table: IsrTable::new() }
}

} // verus!
