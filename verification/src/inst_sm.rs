//! The privileged instructions: trap returns, wait-for-interrupt, and
//! the (TLB-less, hence no-op) address-fence.

use vstd::prelude::*;
use crate::csr::{spec_mret, spec_sret};
use crate::hart::{Hart, Mode, spec_mode_encoding};
use crate::trap::Exception;

verus! {

/// MRET: return from a machine-mode trap. Only machine mode may run
/// it; the target pc is MEPC less the instruction length, which the
/// step loop adds back.
pub fn exec_mret(hart: &mut Hart, len: u64) -> (r: Result<(), Exception>)
    requires
        old(hart).wf(),
    ensures
        final (hart).wf(),
        final (hart).regs@ == old(hart).regs@ && final (hart).fregs@ == old(hart).fregs@ && final (
        hart).table == old(hart).table && final (hart).wfi == old(hart).wfi,
        old(hart).mode != Mode::Machine ==> r == Err::<(), Exception>(
            Exception::IllegalInstruction,
        ) && *final (hart) == *old(hart),
        old(hart).mode == Mode::Machine ==> r == Ok::<(), Exception>(()) && final (hart).csr@
            == spec_mret(old(hart).csr@).2 && spec_mode_encoding(final (hart).mode) == spec_mret(
            old(hart).csr@,
        ).1 && final (hart).pc == vstd::wrapping::u64_specs::wrapping_sub(
            spec_mret(old(hart).csr@).0,
            len,
        ),
{
    if hart.mode.as_u8() < 3 {
        return Err(Exception::IllegalInstruction);
    }
    let (pc, mode) = hart.csr.mret();
    hart.pc = pc.wrapping_sub(len);
    hart.mode = Mode::from_u8(mode);
    Ok(())
}

/// SRET: return from a supervisor-mode trap. Legal at supervisor or
/// machine privilege, and refused at supervisor privilege when
/// MSTATUS.TSR is set.
pub fn exec_sret(hart: &mut Hart, len: u64) -> (r: Result<(), Exception>)
    requires
        old(hart).wf(),
    ensures
        final (hart).wf(),
        final (hart).regs@ == old(hart).regs@ && final (hart).fregs@ == old(hart).fregs@ && final (
        hart).table == old(hart).table && final (hart).wfi == old(hart).wfi,
        old(hart).mode == Mode::User ==> r == Err::<(), Exception>(Exception::IllegalInstruction)
            && *final (hart) == *old(hart),
        old(hart).mode == Mode::Supervisor && (old(hart).csr@[crate::csr::MSTATUS as int] >> 22) & 1
            == 1 ==> r == Err::<(), Exception>(Exception::IllegalInstruction) && *final (hart)
            == *old(hart),
        (old(hart).mode == Mode::Machine || (old(hart).mode == Mode::Supervisor && (old(
        hart,
        ).csr@[crate::csr::MSTATUS as int] >> 22) & 1 != 1)) ==> r == Ok::<(), Exception>(())
            && final (hart).csr@ == spec_sret(old(hart).csr@).2 && spec_mode_encoding(
            final (hart).mode,
        ) == spec_sret(old(hart).csr@).1 && final (hart).pc
            == vstd::wrapping::u64_specs::wrapping_sub(spec_sret(old(hart).csr@).0, len),
{
    if hart.mode.as_u8() < 1 {
        return Err(Exception::IllegalInstruction);
    }
    if hart.mode.as_u8() == 1 && hart.csr.read_mstatus_tsr() {
        return Err(Exception::IllegalInstruction);
    }
    let (pc, mode) = hart.csr.sret();
    hart.pc = pc.wrapping_sub(len);
    hart.mode = Mode::from_u8(mode);
    Ok(())
}

/// WFI: set the waiting-for-interrupt flag; the hart resumes when any
/// enabled interrupt becomes pending.
pub fn exec_wfi(hart: &mut Hart) -> (r: Result<(), Exception>)
    requires
        old(hart).wf(),
    ensures
        final (hart).wf(),
        r == Ok::<(), Exception>(()),
        final (hart).wfi,
        final (hart).regs@ == old(hart).regs@ && final (hart).fregs@ == old(hart).fregs@ && final (
        hart).csr@ == old(hart).csr@ && final (hart).pc == old(hart).pc && final (hart).mode == old(
            hart,
        ).mode && final (hart).table == old(hart).table,
{
    hart.wfi = true;
    Ok(())
}

/// SFENCE.VMA: a no-op in a design with no translation caches.
pub fn exec_sfence_vma(hart: &mut Hart) -> (r: Result<(), Exception>)
    requires
        old(hart).wf(),
    ensures
        final (hart).wf(),
        *final (hart) == *old(hart),
        r == Ok::<(), Exception>(()),
{
    Ok(())
}

} // verus!
