use vstd::prelude::*;

verus! {

/// F bit of the program status register: masks the fast-interrupt class.
pub const PSR_F_BIT: u32 = 0x40;
/// I bit of the program status register: masks the ordinary interrupt class.
pub const PSR_I_BIT: u32 = 0x80;
/// Both maskable interrupt classes together.
pub const PSR_INT_MASK: u32 = 0xc0;

/// System control register bit that enables the instruction cache.
pub const SCTLR_ICACHE: u32 = 0x1000;
/// System control register bit that enables the data cache.
pub const SCTLR_DCACHE: u32 = 0x4;

/// Auxiliary control register bit that disables the return stack.
pub const ACTLR_RSDIS: u32 = 0x20000;
/// Auxiliary control register branch-prediction policy bits (BP[1:0], bits 16 and 15).
pub const ACTLR_BP1: u32 = 0x10000;
pub const ACTLR_BP0: u32 = 0x8000;
/// Auxiliary control register parity/ECC policy field (bits 5 to 3).
pub const ACTLR_PARITY_BITS: u32 = 0x38;
/// Value of the policy field's top bit alone: parity checking disabled.
pub const ACTLR_PARITY_DISABLE: u32 = 0x20;

/// Model of the core-local control registers that the interrupt and cache
/// primitives manipulate. One instance stands for one core; on hardware these
/// are the program status register and two coprocessor control registers.
#[derive(Clone, Copy, PartialEq, Eq, Structural, Debug)]
pub struct Cpu {
    /// Current program status register; the interrupt mask bits live here.
    pub cpsr: u32,
    /// System control register; holds the cache enable bits.
    pub sctlr: u32,
    /// Auxiliary control register; holds branch prediction and parity control.
    pub actlr: u32,
}

/// Per-core control block. `imask` holds the interrupt mask bits that
/// `cpu_unlock` re-applies, so that an outer critical section's partial mask
/// survives an inner lock/unlock pair. Whoever establishes a non-zero baseline
/// mask must store it here; with the zero default, unlock fully enables.
pub struct CpuControlBlock {
    pub imask: u32,
}

impl Default for CpuControlBlock {
    /// A fresh control block saves no mask bits, so unlock fully enables.
    fn default() -> (r: Self)
        ensures
            r.imask == 0,
    {
        CpuControlBlock { imask: 0 }
    }
}

/// The program status register after both interrupt classes are masked.
pub open spec fn locked_cpsr(cpsr: u32) -> u32 {
    cpsr | PSR_INT_MASK
}

/// The program status register after unlock: both mask bits cleared, then the
/// saved mask re-applied.
pub open spec fn unlocked_cpsr(cpsr: u32, imask: u32) -> u32 {
    (cpsr & !PSR_INT_MASK) | imask
}

/// Unconditionally disables both maskable interrupt classes at the core level.
/// Callers must pair every `cpu_lock` with exactly one `cpu_unlock`.
pub fn cpu_lock(cpu: &mut Cpu)
    ensures
        *final(cpu) == (Cpu { cpsr: locked_cpsr(old(cpu).cpsr), ..*old(cpu) }),
{
    cpu.cpsr = cpu.cpsr | PSR_INT_MASK;
}

/// Re-enables the interrupt classes, re-applying the mask bits saved in the
/// control block rather than clearing everything, so nested critical sections
/// keep an outer lock's intended partial mask.
pub fn cpu_unlock(cpu: &mut Cpu, cb: &CpuControlBlock)
    ensures
        *final(cpu) == (Cpu { cpsr: unlocked_cpsr(old(cpu).cpsr, cb.imask), ..*old(cpu) }),
{
    cpu.cpsr = (cpu.cpsr & !PSR_INT_MASK) | cb.imask;
}

/// Law: a `cpu_lock` immediately followed by `cpu_unlock`, with no mask
/// mutation in between, leaves the core's interrupt-enable state exactly as it
/// was, provided the control block saved precisely the mask bits that were
/// active before the lock. (With a stale saved mask, for example `imask == 0`
/// while the F bit was set, unlock would fully enable instead.)
pub proof fn lemma_lock_unlock_roundtrip(cpsr: u32, imask: u32)
    requires
        imask == cpsr & PSR_INT_MASK,
    ensures
        unlocked_cpsr(locked_cpsr(cpsr), imask) == cpsr,
{
    assert(((cpsr | 0xc0u32) & !0xc0u32) | (cpsr & 0xc0u32) == cpsr) by (bit_vector);
}

/// Blocks the core until the next event or unmasked interrupt arrives; no
/// timeout, not cancellable. Intended for an idle loop. No core register
/// visible to this model changes.
pub fn wfi(cpu: &mut Cpu)
    ensures
        *final(cpu) == *old(cpu),
{
}

/// Enables branch prediction: clears the return-stack disable bit and selects
/// the global history table (BP field zeroed). A data barrier follows the
/// control write on hardware.
pub fn enable_bpredict(cpu: &mut Cpu)
    ensures
        *final(cpu) == (Cpu {
            actlr: old(cpu).actlr & !(ACTLR_RSDIS | ACTLR_BP1 | ACTLR_BP0),
            ..*old(cpu)
        }),
{
    cpu.actlr = cpu.actlr & !(ACTLR_RSDIS | ACTLR_BP1 | ACTLR_BP0);
}

/// Disables branch prediction: sets the return-stack disable bit and selects
/// the branch-always-not-taken policy (BP field b10). A data barrier follows
/// the control write on hardware.
pub fn disable_bpredict(cpu: &mut Cpu)
    ensures
        *final(cpu) == (Cpu {
            actlr: (old(cpu).actlr | ACTLR_RSDIS | ACTLR_BP1) & !ACTLR_BP0,
            ..*old(cpu)
        }),
{
    cpu.actlr = (cpu.actlr | ACTLR_RSDIS | ACTLR_BP1) & !ACTLR_BP0;
}

/// Enables the instruction cache. On hardware the entire instruction cache is
/// invalidated before the enable bit is written, and an instruction barrier
/// orders subsequent fetches after the write.
pub fn enable_icache(cpu: &mut Cpu)
    ensures
        *final(cpu) == (Cpu { sctlr: old(cpu).sctlr | SCTLR_ICACHE, ..*old(cpu) }),
{
    cpu.sctlr = cpu.sctlr | SCTLR_ICACHE;
}

/// Disables the instruction cache; an instruction barrier follows the write on
/// hardware.
pub fn disable_icache(cpu: &mut Cpu)
    ensures
        *final(cpu) == (Cpu { sctlr: old(cpu).sctlr & !SCTLR_ICACHE, ..*old(cpu) }),
{
    cpu.sctlr = cpu.sctlr & !SCTLR_ICACHE;
}

/// Enables the data cache. On hardware a data barrier precedes the control
/// write and the entire data cache is invalidated before enabling.
pub fn enable_dcache(cpu: &mut Cpu)
    ensures
        *final(cpu) == (Cpu { sctlr: old(cpu).sctlr | SCTLR_DCACHE, ..*old(cpu) }),
{
    cpu.sctlr = cpu.sctlr | SCTLR_DCACHE;
}

/// Disables the data cache.
///
/// Hardware precondition, not checked in software: the data cache must hold no
/// dirty lines when it is disabled, or a full clean must be performed first;
/// otherwise the dirty data is silently lost. A data barrier precedes the
/// control write on hardware.
pub fn disable_dcache(cpu: &mut Cpu)
    ensures
        *final(cpu) == (Cpu { sctlr: old(cpu).sctlr & !SCTLR_DCACHE, ..*old(cpu) }),
{
    cpu.sctlr = cpu.sctlr & !SCTLR_DCACHE;
}

/// Enables both caches at once. On hardware both caches are invalidated before
/// the enable bits are written, with a data barrier before and an instruction
/// barrier after the write.
pub fn enable_cache(cpu: &mut Cpu)
    ensures
        *final(cpu) == (Cpu {
            sctlr: old(cpu).sctlr | (SCTLR_ICACHE | SCTLR_DCACHE),
            ..*old(cpu)
        }),
{
    cpu.sctlr = cpu.sctlr | (SCTLR_ICACHE | SCTLR_DCACHE);
}

/// Disables both caches at once.
///
/// Hardware precondition, not checked in software: the data cache must hold no
/// dirty lines, or a full clean must be performed first. A data barrier
/// precedes and an instruction barrier follows the control write on hardware.
pub fn disable_cache(cpu: &mut Cpu)
    ensures
        *final(cpu) == (Cpu {
            sctlr: old(cpu).sctlr & !(SCTLR_ICACHE | SCTLR_DCACHE),
            ..*old(cpu)
        }),
{
    cpu.sctlr = cpu.sctlr & !(SCTLR_ICACHE | SCTLR_DCACHE);
}

/// Enables ECC memory checking: zeroes the parity policy field, selecting
/// "generate abort on parity errors".
///
/// Hardware precondition: toggling this field while any cache is enabled is
/// undefined hardware behavior, so callers must disable both caches first;
/// the model makes that state observable and requires it.
pub fn enable_ecc(cpu: &mut Cpu)
    requires
        old(cpu).sctlr & (SCTLR_ICACHE | SCTLR_DCACHE) == 0,
    ensures
        *final(cpu) == (Cpu { actlr: old(cpu).actlr & !ACTLR_PARITY_BITS, ..*old(cpu) }),
{
    cpu.actlr = cpu.actlr & !ACTLR_PARITY_BITS;
}

/// Disables ECC memory checking: sets the parity policy field to b100,
/// "parity checking disabled".
///
/// Hardware precondition: as for `enable_ecc`, both caches must be disabled,
/// which the model requires.
pub fn disable_ecc(cpu: &mut Cpu)
    requires
        old(cpu).sctlr & (SCTLR_ICACHE | SCTLR_DCACHE) == 0,
    ensures
        *final(cpu) == (Cpu {
            actlr: (old(cpu).actlr & !ACTLR_PARITY_BITS) | ACTLR_PARITY_DISABLE,
            ..*old(cpu)
        }),
{
    cpu.actlr = (cpu.actlr & !ACTLR_PARITY_BITS) | ACTLR_PARITY_DISABLE;
}

} // verus!
