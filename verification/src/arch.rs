//! Per-architecture selection of the breakpoint trap.
//!
//! A debugger-breakpoint primitive exists to halt execution under a debugger;
//! emitting a wrong instruction would instead crash an un-debugged process.
//! So the selection maps each recognized architecture class to its trap
//! instruction and every other architecture to a harmless no-op — never to an
//! error. The table is consulted at build time; the instruction itself is
//! emitted by unverified code that follows this table.

use vstd::prelude::*;

verus! {

/// The instruction-set architecture classes the breakpoint primitive tells
/// apart. Exactly one class describes a build; anything unrecognized is
/// `Other`.
#[derive(Clone, Copy, PartialEq, Eq, Structural, Debug)]
pub enum ArchClass {
    /// x86 or x86-64.
    X86,
    /// 32-bit ARM.
    Arm,
    /// AArch64.
    Aarch64,
    /// RISC-V, 32- or 64-bit.
    RiscV,
    /// MIPS, 32- or 64-bit.
    Mips,
    /// Any architecture not listed above.
    Other,
}

/// What the breakpoint primitive does on a given build: one trap instruction
/// per recognized architecture class, or nothing at all.
#[derive(Clone, Copy, PartialEq, Eq, Structural, Debug)]
pub enum TrapAction {
    /// The x86 software-breakpoint instruction `int3`.
    X86Int3,
    /// The 32-bit ARM breakpoint instruction `bkpt`.
    ArmBkpt,
    /// The AArch64 breakpoint instruction `brk` with the given immediate.
    Aarch64Brk { imm: u16 },
    /// The RISC-V environment-break instruction `ebreak`.
    RiscvEbreak,
    /// The MIPS `break` instruction.
    MipsBreak,
    /// Silently do nothing.
    NoOp,
}

/// The trap each architecture class receives. AArch64 carries the immediate
/// `0xf000`, matching what the compiler's own breakpoint emits there.
pub open spec fn breakpoint_action_spec(arch: ArchClass) -> TrapAction {
    match arch {
        ArchClass::X86 => TrapAction::X86Int3,
        ArchClass::Arm => TrapAction::ArmBkpt,
        ArchClass::Aarch64 => TrapAction::Aarch64Brk { imm: 0xf000 },
        ArchClass::RiscV => TrapAction::RiscvEbreak,
        ArchClass::Mips => TrapAction::MipsBreak,
        ArchClass::Other => TrapAction::NoOp,
    }
}

/// Selects the trap to emit for the breakpoint primitive on the given
/// architecture class. An unrecognized architecture always gets the silent
/// no-op, so the primitive can never crash a process it was not meant to
/// halt.
pub fn breakpoint_action(arch: ArchClass) -> (r: TrapAction)
    ensures
        r == breakpoint_action_spec(arch),
        arch == ArchClass::Other ==> r == TrapAction::NoOp,
{
    match arch {
        ArchClass::X86 => TrapAction::X86Int3,
        ArchClass::Arm => TrapAction::ArmBkpt,
        ArchClass::Aarch64 => TrapAction::Aarch64Brk { imm: 0xf000 },
        ArchClass::RiscV => TrapAction::RiscvEbreak,
        ArchClass::Mips => TrapAction::MipsBreak,
        ArchClass::Other => TrapAction::NoOp,
    }
}

} // verus!
