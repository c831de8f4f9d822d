//! The trap taxonomy: architectural exceptions, interrupts, and their
//! cause codes.

use vstd::prelude::*;

verus! {

/// Synchronous exceptions. Faulting variants carry the trap value (the
/// offending address, or the program counter for breakpoints).
#[derive(Debug, Clone, Copy, PartialEq, Eq, Structural)]
pub enum Exception {
    InstructionAccessFault(u64),
    IllegalInstruction,
    Breakpoint(u64),
    LoadAddressMisaligned(u64),
    LoadAccessFault(u64),
    StoreAMOAddressMisaligned(u64),
    StoreAMOAccessFault(u64),
    EnvironmentCallFromUMode,
    EnvironmentCallFromSMode,
    EnvironmentCallFromMMode,
    InstructionPageFault(u64),
    LoadPageFault(u64),
    StoreAMOPageFault(u64),
}

/// Asynchronous interrupts, software/timer/external for each of the two
/// trap-taking privilege modes.
#[derive(Debug, Clone, Copy, PartialEq, Eq, Structural)]
pub enum Interrupt {
    SupervisorSoftware,
    MachineSoftware,
    SupervisorTimer,
    MachineTimer,
    SupervisorExternal,
    MachineExternal,
}

/// Either failure surface of an instruction.
#[derive(Debug, Clone, Copy, PartialEq, Eq, Structural)]
pub enum Trap {
    Exception(Exception),
    Interrupt(Interrupt),
}

/// The privilege level an interrupt targets: 0 for user, 1 for
/// supervisor, 3 for machine (the architectural encoding).
pub open spec fn spec_interrupt_mode(i: Interrupt) -> u8 {
    match i {
        Interrupt::SupervisorSoftware => 1,
        Interrupt::SupervisorTimer => 1,
        Interrupt::SupervisorExternal => 1,
        Interrupt::MachineSoftware => 3,
        Interrupt::MachineTimer => 3,
        Interrupt::MachineExternal => 3,
    }
}

/// The architectural cause code of a trap, without the interrupt bit.
pub open spec fn spec_trap_code(t: Trap) -> u64 {
    match t {
        Trap::Interrupt(Interrupt::SupervisorSoftware) => 1,
        Trap::Interrupt(Interrupt::MachineSoftware) => 3,
        Trap::Interrupt(Interrupt::SupervisorTimer) => 5,
        Trap::Interrupt(Interrupt::MachineTimer) => 7,
        Trap::Interrupt(Interrupt::SupervisorExternal) => 9,
        Trap::Interrupt(Interrupt::MachineExternal) => 11,
        Trap::Exception(Exception::InstructionAccessFault(_)) => 1,
        Trap::Exception(Exception::IllegalInstruction) => 2,
        Trap::Exception(Exception::Breakpoint(_)) => 3,
        Trap::Exception(Exception::LoadAddressMisaligned(_)) => 4,
        Trap::Exception(Exception::LoadAccessFault(_)) => 5,
        Trap::Exception(Exception::StoreAMOAddressMisaligned(_)) => 6,
        Trap::Exception(Exception::StoreAMOAccessFault(_)) => 7,
        Trap::Exception(Exception::EnvironmentCallFromUMode) => 8,
        Trap::Exception(Exception::EnvironmentCallFromSMode) => 9,
        Trap::Exception(Exception::EnvironmentCallFromMMode) => 11,
        Trap::Exception(Exception::InstructionPageFault(_)) => 12,
        Trap::Exception(Exception::LoadPageFault(_)) => 13,
        Trap::Exception(Exception::StoreAMOPageFault(_)) => 15,
    }
}

/// The trap value written to MTVAL/STVAL: the carried address for
/// faulting variants, zero for everything else.
pub open spec fn spec_trap_value(t: Trap) -> u64 {
    match t {
        Trap::Exception(Exception::InstructionAccessFault(v)) => v,
        Trap::Exception(Exception::Breakpoint(v)) => v,
        Trap::Exception(Exception::LoadAddressMisaligned(v)) => v,
        Trap::Exception(Exception::LoadAccessFault(v)) => v,
        Trap::Exception(Exception::StoreAMOAddressMisaligned(v)) => v,
        Trap::Exception(Exception::StoreAMOAccessFault(v)) => v,
        Trap::Exception(Exception::InstructionPageFault(v)) => v,
        Trap::Exception(Exception::LoadPageFault(v)) => v,
        Trap::Exception(Exception::StoreAMOPageFault(v)) => v,
        _ => 0,
    }
}

impl Interrupt {
    /// The privilege mode this interrupt targets, encoded as in MPP.
    pub fn mode(&self) -> (r: u8)
        ensures
            r == spec_interrupt_mode(*self),
    {
        match self {
            Interrupt::SupervisorSoftware => 1,
            Interrupt::SupervisorTimer => 1,
            Interrupt::SupervisorExternal => 1,
            Interrupt::MachineSoftware => 3,
            Interrupt::MachineTimer => 3,
            Interrupt::MachineExternal => 3,
        }
    }
}

impl Trap {
    /// The architectural cause code (the interrupt bit is added by trap
    /// delivery, not here).
    pub fn code(&self) -> (r: u64)
        ensures
            r == spec_trap_code(*self),
    {
        match self {
            Trap::Interrupt(Interrupt::SupervisorSoftware) => 1,
            Trap::Interrupt(Interrupt::MachineSoftware) => 3,
            Trap::Interrupt(Interrupt::SupervisorTimer) => 5,
            Trap::Interrupt(Interrupt::MachineTimer) => 7,
            Trap::Interrupt(Interrupt::SupervisorExternal) => 9,
            Trap::Interrupt(Interrupt::MachineExternal) => 11,
            Trap::Exception(Exception::InstructionAccessFault(_)) => 1,
            Trap::Exception(Exception::IllegalInstruction) => 2,
            Trap::Exception(Exception::Breakpoint(_)) => 3,
            Trap::Exception(Exception::LoadAddressMisaligned(_)) => 4,
            Trap::Exception(Exception::LoadAccessFault(_)) => 5,
            Trap::Exception(Exception::StoreAMOAddressMisaligned(_)) => 6,
            Trap::Exception(Exception::StoreAMOAccessFault(_)) => 7,
            Trap::Exception(Exception::EnvironmentCallFromUMode) => 8,
            Trap::Exception(Exception::EnvironmentCallFromSMode) => 9,
            Trap::Exception(Exception::EnvironmentCallFromMMode) => 11,
            Trap::Exception(Exception::InstructionPageFault(_)) => 12,
            Trap::Exception(Exception::LoadPageFault(_)) => 13,
            Trap::Exception(Exception::StoreAMOPageFault(_)) => 15,
        }
    }

    /// The trap value carried to MTVAL/STVAL.
    pub fn value(&self) -> (r: u64)
        ensures
            r == spec_trap_value(*self),
    {
        match self {
            Trap::Exception(Exception::InstructionAccessFault(v)) => *v,
            Trap::Exception(Exception::Breakpoint(v)) => *v,
            Trap::Exception(Exception::LoadAddressMisaligned(v)) => *v,
            Trap::Exception(Exception::LoadAccessFault(v)) => *v,
            Trap::Exception(Exception::StoreAMOAddressMisaligned(v)) => *v,
            Trap::Exception(Exception::StoreAMOAccessFault(v)) => *v,
            Trap::Exception(Exception::InstructionPageFault(v)) => *v,
            Trap::Exception(Exception::LoadPageFault(v)) => *v,
            Trap::Exception(Exception::StoreAMOPageFault(v)) => *v,
            _ => 0,
        }
    }
}

} // verus!
