//! The CSR instructions: six atomic read-modify-write variants with
//! the architectural side-effect suppression rules.

use vstd::prelude::*;
use crate::csr::{spec_read_raw, spec_write_raw, spec_csr_read_only, spec_csr_privilege};
use crate::fields::{rd_of, rs1_of, spec_rd, spec_rs1};
use crate::hart::{Hart, spec_set_reg, only_regs_changed, spec_mode_encoding};
use crate::trap::Exception;

verus! {

/// The CSR address held in instruction bits [31:20].
pub open spec fn spec_csr_addr(inst: u32) -> u16 {
    (inst >> 20) as u16
}

fn csr_addr(inst: u32) -> (r: u16)
    ensures
        r == spec_csr_addr(inst),
        r < 4096,
{
    proof {
        assert(inst >> 20 <= 0xFFF && (inst >> 20) as u16 == inst >> 20) by (bit_vector);
    }
    (inst >> 20) as u16
}

/// CSRRW: write rs1 into the CSR; the read is suppressed when the
/// destination is x0, so a read-only trap depends only on the write.
pub fn exec_csrrw(hart: &mut Hart, inst: u32) -> (r: Result<(), Exception>)
    requires
        old(hart).wf(),
    ensures
        final (hart).wf(),
        final (hart).pc == old(hart).pc && final (hart).fregs@ == old(hart).fregs@ && final (
        hart).mode == old(hart).mode && final (hart).wfi == old(hart).wfi && final (hart).table
            == old(hart).table,
        ({
            let addr = spec_csr_addr(inst);
            let m = spec_mode_encoding(old(hart).mode);
            let bad = spec_csr_read_only(addr) || spec_csr_privilege(addr) > m;
            &&& (bad ==> r == Err::<(), Exception>(Exception::IllegalInstruction) && final (
            hart).csr@ == old(hart).csr@ && final (hart).regs@ == old(hart).regs@)
            &&& (!bad ==> r == Ok::<(), Exception>(()) && final (hart).csr@ == spec_write_raw(
                old(hart).csr@,
                addr,
                old(hart).regs@[spec_rs1(inst)],
            ) && final (hart).regs@ == spec_set_reg(
                old(hart).regs@,
                spec_rd(inst),
                spec_read_raw(old(hart).csr@, addr),
            ))
        }),
{
    let addr = csr_addr(inst);
    let rd = rd_of(inst);
    let src = hart.regs.get(rs1_of(inst));
    let mode = hart.mode.as_u8();
    if rd != 0 {
        let res = match hart.csr.read(mode, addr) {
            Ok(v) => v,
            Err(e) => {
                return Err(e);
            },
        };
        match hart.csr.write(mode, addr, src) {
            Ok(_) => {},
            Err(e) => {
                return Err(e);
            },
        };
        hart.regs.set(rd, res);
        Ok(())
    } else {
        match hart.csr.write(mode, addr, src) {
            Ok(_) => Ok(()),
            Err(e) => Err(e),
        }
    }
}

/// CSRRS and CSRRC: read the CSR, and set or clear the rs1 bits unless
/// rs1 is x0, in which case the write (and a read-only trap with it)
/// is suppressed.
pub fn exec_csrrs_csrrc(hart: &mut Hart, inst: u32, clear: bool) -> (r: Result<(), Exception>)
    requires
        old(hart).wf(),
    ensures
        final (hart).wf(),
        final (hart).pc == old(hart).pc && final (hart).fregs@ == old(hart).fregs@ && final (
        hart).mode == old(hart).mode && final (hart).wfi == old(hart).wfi && final (hart).table
            == old(hart).table,
        ({
            let addr = spec_csr_addr(inst);
            let m = spec_mode_encoding(old(hart).mode);
            let res = spec_read_raw(old(hart).csr@, addr);
            let wdata = if clear {
                res & !old(hart).regs@[spec_rs1(inst)]
            } else {
                res | old(hart).regs@[spec_rs1(inst)]
            };
            let bad = spec_csr_privilege(addr) > m || (spec_rs1(inst) != 0 && spec_csr_read_only(
                addr,
            ));
            &&& (bad ==> r == Err::<(), Exception>(Exception::IllegalInstruction) && final (
            hart).csr@ == old(hart).csr@ && final (hart).regs@ == old(hart).regs@)
            &&& (!bad && spec_rs1(inst) != 0 ==> r == Ok::<(), Exception>(()) && final (hart).csr@
                == spec_write_raw(old(hart).csr@, addr, wdata) && final (hart).regs@
                == spec_set_reg(old(hart).regs@, spec_rd(inst), res))
            &&& (!bad && spec_rs1(inst) == 0 ==> r == Ok::<(), Exception>(()) && final (hart).csr@
                == old(hart).csr@ && final (hart).regs@ == spec_set_reg(
                old(hart).regs@,
                spec_rd(inst),
                res,
            ))
        }),
{
    let addr = csr_addr(inst);
    let rd = rd_of(inst);
    let rs1 = rs1_of(inst);
    let mode = hart.mode.as_u8();
    let res = match hart.csr.read(mode, addr) {
        Ok(v) => v,
        Err(e) => {
            return Err(e);
        },
    };
    if rs1 != 0 {
        let src = hart.regs.get(rs1);
        let wdata = if clear {
            res & !src
        } else {
            res | src
        };
        match hart.csr.write(mode, addr, wdata) {
            Ok(_) => {},
            Err(e) => {
                return Err(e);
            },
        };
    }
    hart.regs.set(rd, res);
    Ok(())
}

/// CSRRWI: as CSRRW, with the zero-extended rs1 field as the value.
pub fn exec_csrrwi(hart: &mut Hart, inst: u32) -> (r: Result<(), Exception>)
    requires
        old(hart).wf(),
    ensures
        final (hart).wf(),
        only_regs_changed(old(hart), final (hart)) || (final (hart).pc == old(hart).pc && final (
        hart).fregs@ == old(hart).fregs@ && final (hart).mode == old(hart).mode && final (
        hart).wfi == old(hart).wfi && final (hart).table == old(hart).table),
        ({
            let addr = spec_csr_addr(inst);
            let m = spec_mode_encoding(old(hart).mode);
            let bad = spec_csr_read_only(addr) || spec_csr_privilege(addr) > m;
            &&& (bad ==> r == Err::<(), Exception>(Exception::IllegalInstruction) && final (
            hart).csr@ == old(hart).csr@ && final (hart).regs@ == old(hart).regs@)
            &&& (!bad ==> r == Ok::<(), Exception>(()) && final (hart).csr@ == spec_write_raw(
                old(hart).csr@,
                addr,
                spec_rs1(inst) as u64,
            ) && final (hart).regs@ == spec_set_reg(
                old(hart).regs@,
                spec_rd(inst),
                spec_read_raw(old(hart).csr@, addr),
            ))
        }),
{
    let addr = csr_addr(inst);
    let rd = rd_of(inst);
    let uimm = rs1_of(inst) as u64;
    let mode = hart.mode.as_u8();
    if rd != 0 {
        let res = match hart.csr.read(mode, addr) {
            Ok(v) => v,
            Err(e) => {
                return Err(e);
            },
        };
        match hart.csr.write(mode, addr, uimm) {
            Ok(_) => {},
            Err(e) => {
                return Err(e);
            },
        };
        hart.regs.set(rd, res);
        Ok(())
    } else {
        match hart.csr.write(mode, addr, uimm) {
            Ok(_) => Ok(()),
            Err(e) => Err(e),
        }
    }
}

/// CSRRSI and CSRRCI: as CSRRS/CSRRC with the immediate; a zero
/// immediate suppresses the write.
pub fn exec_csrrsi_csrrci(hart: &mut Hart, inst: u32, clear: bool) -> (r: Result<(), Exception>)
    requires
        old(hart).wf(),
    ensures
        final (hart).wf(),
        final (hart).pc == old(hart).pc && final (hart).fregs@ == old(hart).fregs@ && final (
        hart).mode == old(hart).mode && final (hart).wfi == old(hart).wfi && final (hart).table
            == old(hart).table,
        ({
            let addr = spec_csr_addr(inst);
            let m = spec_mode_encoding(old(hart).mode);
            let res = spec_read_raw(old(hart).csr@, addr);
            let wdata = if clear {
                res & !(spec_rs1(inst) as u64)
            } else {
                res | (spec_rs1(inst) as u64)
            };
            let bad = spec_csr_privilege(addr) > m || (spec_rs1(inst) != 0 && spec_csr_read_only(
                addr,
            ));
            &&& (bad ==> r == Err::<(), Exception>(Exception::IllegalInstruction) && final (
            hart).csr@ == old(hart).csr@ && final (hart).regs@ == old(hart).regs@)
            &&& (!bad && spec_rs1(inst) != 0 ==> r == Ok::<(), Exception>(()) && final (hart).csr@
                == spec_write_raw(old(hart).csr@, addr, wdata) && final (hart).regs@
                == spec_set_reg(old(hart).regs@, spec_rd(inst), res))
            &&& (!bad && spec_rs1(inst) == 0 ==> r == Ok::<(), Exception>(()) && final (hart).csr@
                == old(hart).csr@ && final (hart).regs@ == spec_set_reg(
                old(hart).regs@,
                spec_rd(inst),
                res,
            ))
        }),
{
    let addr = csr_addr(inst);
    let rd = rd_of(inst);
    let rs1 = rs1_of(inst);
    let uimm = rs1 as u64;
    let mode = hart.mode.as_u8();
    let res = match hart.csr.read(mode, addr) {
        Ok(v) => v,
        Err(e) => {
            return Err(e);
        },
    };
    if rs1 != 0 {
        let wdata = if clear {
            res & !uimm
        } else {
            res | uimm
        };
        match hart.csr.write(mode, addr, wdata) {
            Ok(_) => {},
            Err(e) => {
                return Err(e);
            },
        };
    }
    hart.regs.set(rd, res);
    Ok(())
}

} // verus!
