//! The double-precision floating-point extension: values occupy the
//! whole 64-bit register, so no NaN boxing is involved except in the
//! format conversions to and from single precision.

use vstd::prelude::*;
use crate::fputil::{
    nanbox,
    unbox,
    spec_unbox,
    fflags_of_status,
    spec_fflags_of_status,
    round_mode,
    spec_round_mode,
    f64_eq,
    f64_lt,
    f64_le,
    f64_minmax,
    f64_classify,
    F64_QNAN,
};
use crate::fields::{
    rd_of,
    rs1_of,
    rs2_of,
    rs3_of,
    rm_of,
    imm_i,
    imm_s,
    spec_rd,
    spec_rs1,
    spec_rs2,
    spec_rs3,
    spec_rm,
    spec_imm_i,
    spec_imm_s,
};
use crate::hart::{Hart, spec_set_reg, only_fp_changed, only_regs_changed, spec_mode_encoding};
use crate::inst_f::{fp_gate, fp_flags, read_frm, spec_fs_dirty, spec_acc_fflags, sqrt_norm_f64};
use crate::memory::ram_range;
use crate::mmu::{MMU, AccessType, spec_translate};
use crate::softfloat::{
    f64_add,
    f64_sub,
    f64_mul,
    f64_div,
    f64_fma,
    f64_from_i,
    f64_from_u,
    f64_to_i,
    f64_to_u,
    f32_to_f64,
    f64_to_f32,
    spec_f64_add,
    spec_f64_sub,
    spec_f64_mul,
    spec_f64_div,
    spec_f64_fma,
    spec_f64_from_i,
    spec_f64_from_u,
    spec_f64_to_i,
    spec_f64_to_u,
    spec_f32_to_f64,
    spec_f64_to_f32,
};
use crate::trap::Exception;

verus! {

/// FADD.D: double-precision addition.
pub fn exec_fadd_d(hart: &mut Hart, inst: u32) -> (r: Result<(), Exception>)
    requires
        old(hart).wf(),
    ensures
        final (hart).wf(),
        only_fp_changed(old(hart), final (hart)) || only_regs_changed(old(hart), final (hart)),
        (old(hart).csr@[crate::csr::MSTATUS as int] >> 13) & 0x3 == 0 ==> r == Err::<
            (),
            Exception,
        >(Exception::IllegalInstruction) && *final (hart) == *old(hart),
        ({
            let frm = ((old(hart).csr@[crate::csr::FCSR as int] >> 5) & 0x7) as u8;
            let fs_on = (old(hart).csr@[crate::csr::MSTATUS as int] >> 13) & 0x3 != 0;
            let a = old(hart).fregs@[spec_rs1(inst)];
            let b = old(hart).fregs@[spec_rs2(inst)];
            &&& (fs_on ==> (spec_round_mode(spec_rm(inst), frm) matches Err(e) ==> r == Err::<
                (),
                Exception,
            >(e)))
            &&& (fs_on ==> (spec_round_mode(spec_rm(inst), frm) matches Ok(m) ==> r == Ok::<
                (),
                Exception,
            >(()) && final (hart).fregs@ == old(hart).fregs@.update(
                spec_rd(inst),
                spec_f64_add(a, b, m).0,
            ) && final (hart).csr@ == spec_acc_fflags(
                spec_fs_dirty(old(hart).csr@),
                spec_fflags_of_status(spec_f64_add(a, b, m).1),
            ) && final (hart).regs@ == old(hart).regs@))
        }),
{
    fp_gate(hart, true)?;
    let frm = read_frm(hart);
    let m = match round_mode(rm_of(inst), frm) {
        Ok(m) => m,
        Err(e) => {
            return Err(e);
        },
    };
    let a = hart.fregs.get(rs1_of(inst));
    let b = hart.fregs.get(rs2_of(inst));
    let (bits, st) = f64_add(a, b, m);
    let rd = rd_of(inst);
    hart.fregs.set(rd, bits);
    fp_flags(hart, fflags_of_status(st));
    Ok(())
}

/// FSUB.D: double-precision subtraction.
pub fn exec_fsub_d(hart: &mut Hart, inst: u32) -> (r: Result<(), Exception>)
    requires
        old(hart).wf(),
    ensures
        final (hart).wf(),
        only_fp_changed(old(hart), final (hart)) || only_regs_changed(old(hart), final (hart)),
        (old(hart).csr@[crate::csr::MSTATUS as int] >> 13) & 0x3 == 0 ==> r == Err::<
            (),
            Exception,
        >(Exception::IllegalInstruction) && *final (hart) == *old(hart),
        ({
            let frm = ((old(hart).csr@[crate::csr::FCSR as int] >> 5) & 0x7) as u8;
            let fs_on = (old(hart).csr@[crate::csr::MSTATUS as int] >> 13) & 0x3 != 0;
            let a = old(hart).fregs@[spec_rs1(inst)];
            let b = old(hart).fregs@[spec_rs2(inst)];
            &&& (fs_on ==> (spec_round_mode(spec_rm(inst), frm) matches Err(e) ==> r == Err::<
                (),
                Exception,
            >(e)))
            &&& (fs_on ==> (spec_round_mode(spec_rm(inst), frm) matches Ok(m) ==> r == Ok::<
                (),
                Exception,
            >(()) && final (hart).fregs@ == old(hart).fregs@.update(
                spec_rd(inst),
                spec_f64_sub(a, b, m).0,
            ) && final (hart).csr@ == spec_acc_fflags(
                spec_fs_dirty(old(hart).csr@),
                spec_fflags_of_status(spec_f64_sub(a, b, m).1),
            ) && final (hart).regs@ == old(hart).regs@))
        }),
{
    fp_gate(hart, true)?;
    let frm = read_frm(hart);
    let m = match round_mode(rm_of(inst), frm) {
        Ok(m) => m,
        Err(e) => {
            return Err(e);
        },
    };
    let a = hart.fregs.get(rs1_of(inst));
    let b = hart.fregs.get(rs2_of(inst));
    let (bits, st) = f64_sub(a, b, m);
    let rd = rd_of(inst);
    hart.fregs.set(rd, bits);
    fp_flags(hart, fflags_of_status(st));
    Ok(())
}

/// FMUL.D: double-precision multiplication.
pub fn exec_fmul_d(hart: &mut Hart, inst: u32) -> (r: Result<(), Exception>)
    requires
        old(hart).wf(),
    ensures
        final (hart).wf(),
        only_fp_changed(old(hart), final (hart)) || only_regs_changed(old(hart), final (hart)),
        (old(hart).csr@[crate::csr::MSTATUS as int] >> 13) & 0x3 == 0 ==> r == Err::<
            (),
            Exception,
        >(Exception::IllegalInstruction) && *final (hart) == *old(hart),
        ({
            let frm = ((old(hart).csr@[crate::csr::FCSR as int] >> 5) & 0x7) as u8;
            let fs_on = (old(hart).csr@[crate::csr::MSTATUS as int] >> 13) & 0x3 != 0;
            let a = old(hart).fregs@[spec_rs1(inst)];
            let b = old(hart).fregs@[spec_rs2(inst)];
            &&& (fs_on ==> (spec_round_mode(spec_rm(inst), frm) matches Err(e) ==> r == Err::<
                (),
                Exception,
            >(e)))
            &&& (fs_on ==> (spec_round_mode(spec_rm(inst), frm) matches Ok(m) ==> r == Ok::<
                (),
                Exception,
            >(()) && final (hart).fregs@ == old(hart).fregs@.update(
                spec_rd(inst),
                spec_f64_mul(a, b, m).0,
            ) && final (hart).csr@ == spec_acc_fflags(
                spec_fs_dirty(old(hart).csr@),
                spec_fflags_of_status(spec_f64_mul(a, b, m).1),
            ) && final (hart).regs@ == old(hart).regs@))
        }),
{
    fp_gate(hart, true)?;
    let frm = read_frm(hart);
    let m = match round_mode(rm_of(inst), frm) {
        Ok(m) => m,
        Err(e) => {
            return Err(e);
        },
    };
    let a = hart.fregs.get(rs1_of(inst));
    let b = hart.fregs.get(rs2_of(inst));
    let (bits, st) = f64_mul(a, b, m);
    let rd = rd_of(inst);
    hart.fregs.set(rd, bits);
    fp_flags(hart, fflags_of_status(st));
    Ok(())
}

/// FDIV.D: double-precision division.
pub fn exec_fdiv_d(hart: &mut Hart, inst: u32) -> (r: Result<(), Exception>)
    requires
        old(hart).wf(),
    ensures
        final (hart).wf(),
        only_fp_changed(old(hart), final (hart)) || only_regs_changed(old(hart), final (hart)),
        (old(hart).csr@[crate::csr::MSTATUS as int] >> 13) & 0x3 == 0 ==> r == Err::<
            (),
            Exception,
        >(Exception::IllegalInstruction) && *final (hart) == *old(hart),
        ({
            let frm = ((old(hart).csr@[crate::csr::FCSR as int] >> 5) & 0x7) as u8;
            let fs_on = (old(hart).csr@[crate::csr::MSTATUS as int] >> 13) & 0x3 != 0;
            let a = old(hart).fregs@[spec_rs1(inst)];
            let b = old(hart).fregs@[spec_rs2(inst)];
            &&& (fs_on ==> (spec_round_mode(spec_rm(inst), frm) matches Err(e) ==> r == Err::<
                (),
                Exception,
            >(e)))
            &&& (fs_on ==> (spec_round_mode(spec_rm(inst), frm) matches Ok(m) ==> r == Ok::<
                (),
                Exception,
            >(()) && final (hart).fregs@ == old(hart).fregs@.update(
                spec_rd(inst),
                spec_f64_div(a, b, m).0,
            ) && final (hart).csr@ == spec_acc_fflags(
                spec_fs_dirty(old(hart).csr@),
                spec_fflags_of_status(spec_f64_div(a, b, m).1),
            ) && final (hart).regs@ == old(hart).regs@))
        }),
{
    fp_gate(hart, true)?;
    let frm = read_frm(hart);
    let m = match round_mode(rm_of(inst), frm) {
        Ok(m) => m,
        Err(e) => {
            return Err(e);
        },
    };
    let a = hart.fregs.get(rs1_of(inst));
    let b = hart.fregs.get(rs2_of(inst));
    let (bits, st) = f64_div(a, b, m);
    let rd = rd_of(inst);
    hart.fregs.set(rd, bits);
    fp_flags(hart, fflags_of_status(st));
    Ok(())
}

/// The four fused multiply-add forms of double precision; the sign
/// flips are exact bit toggles before one fused operation.
pub fn exec_fma_d(hart: &mut Hart, inst: u32, neg_a: bool, neg_c: bool) -> (r: Result<(), Exception>)
    requires
        old(hart).wf(),
    ensures
        final (hart).wf(),
        only_fp_changed(old(hart), final (hart)) || only_regs_changed(old(hart), final (hart)),
        (old(hart).csr@[crate::csr::MSTATUS as int] >> 13) & 0x3 == 0 ==> r == Err::<
            (),
            Exception,
        >(Exception::IllegalInstruction) && *final (hart) == *old(hart),
        ({
            let frm = ((old(hart).csr@[crate::csr::FCSR as int] >> 5) & 0x7) as u8;
            let fs_on = (old(hart).csr@[crate::csr::MSTATUS as int] >> 13) & 0x3 != 0;
            let a = if neg_a {
                old(hart).fregs@[spec_rs1(inst)] ^ 0x8000_0000_0000_0000u64
            } else {
                old(hart).fregs@[spec_rs1(inst)]
            };
            let b = old(hart).fregs@[spec_rs2(inst)];
            let c = if neg_c {
                old(hart).fregs@[spec_rs3(inst)] ^ 0x8000_0000_0000_0000u64
            } else {
                old(hart).fregs@[spec_rs3(inst)]
            };
            &&& (fs_on ==> (spec_round_mode(spec_rm(inst), frm) matches Err(e) ==> r == Err::<
                (),
                Exception,
            >(e)))
            &&& (fs_on ==> (spec_round_mode(spec_rm(inst), frm) matches Ok(m) ==> r == Ok::<
                (),
                Exception,
            >(()) && final (hart).fregs@ == old(hart).fregs@.update(
                spec_rd(inst),
                spec_f64_fma(a, b, c, m).0,
            ) && final (hart).csr@ == spec_acc_fflags(
                spec_fs_dirty(old(hart).csr@),
                spec_fflags_of_status(spec_f64_fma(a, b, c, m).1),
            ) && final (hart).regs@ == old(hart).regs@))
        }),
{
    fp_gate(hart, true)?;
    let frm = read_frm(hart);
    let m = match round_mode(rm_of(inst), frm) {
        Ok(m) => m,
        Err(e) => {
            return Err(e);
        },
    };
    let a0 = hart.fregs.get(rs1_of(inst));
    let a = if neg_a {
        a0 ^ 0x8000_0000_0000_0000
    } else {
        a0
    };
    let b = hart.fregs.get(rs2_of(inst));
    let c0 = hart.fregs.get(rs3_of(inst));
    let c = if neg_c {
        c0 ^ 0x8000_0000_0000_0000
    } else {
        c0
    };
    let (bits, st) = f64_fma(a, b, c, m);
    let rd = rd_of(inst);
    hart.fregs.set(rd, bits);
    fp_flags(hart, fflags_of_status(st));
    Ok(())
}

/// FSGNJ/FSGNJN/FSGNJX.D, as their single-precision twins.
pub fn exec_fsgnj_d(hart: &mut Hart, inst: u32, kind: u8) -> (r: Result<(), Exception>)
    requires
        old(hart).wf(),
    ensures
        final (hart).wf(),
        only_fp_changed(old(hart), final (hart)) || only_regs_changed(old(hart), final (hart)),
        (old(hart).csr@[crate::csr::MSTATUS as int] >> 13) & 0x3 == 0 ==> r == Err::<
            (),
            Exception,
        >(Exception::IllegalInstruction) && *final (hart) == *old(hart),
        ({
            let fs_on = (old(hart).csr@[crate::csr::MSTATUS as int] >> 13) & 0x3 != 0;
            let a = old(hart).fregs@[spec_rs1(inst)];
            let b = old(hart).fregs@[spec_rs2(inst)];
            let v = if kind == 0 {
                (a & 0x7FFF_FFFF_FFFF_FFFFu64) | (b & 0x8000_0000_0000_0000u64)
            } else if kind == 1 {
                (a & 0x7FFF_FFFF_FFFF_FFFFu64) | ((b ^ 0x8000_0000_0000_0000u64)
                    & 0x8000_0000_0000_0000u64)
            } else {
                a ^ (b & 0x8000_0000_0000_0000u64)
            };
            fs_on ==> r == Ok::<(), Exception>(()) && final (hart).fregs@ == old(
                hart,
            ).fregs@.update(spec_rd(inst), v) && final (hart).csr@ == spec_fs_dirty(
                old(hart).csr@,
            ) && final (hart).regs@ == old(hart).regs@
        }),
{
    fp_gate(hart, true)?;
    let a = hart.fregs.get(rs1_of(inst));
    let b = hart.fregs.get(rs2_of(inst));
    let v = if kind == 0 {
        (a & 0x7FFF_FFFF_FFFF_FFFF) | (b & 0x8000_0000_0000_0000)
    } else if kind == 1 {
        (a & 0x7FFF_FFFF_FFFF_FFFF) | ((b ^ 0x8000_0000_0000_0000) & 0x8000_0000_0000_0000)
    } else {
        a ^ (b & 0x8000_0000_0000_0000)
    };
    let rd = rd_of(inst);
    hart.fregs.set(rd, v);
    Ok(())
}

/// FMIN.D and FMAX.D via the verified selection rule.
pub fn exec_fminmax_d(hart: &mut Hart, inst: u32, take_max: bool) -> (r: Result<(), Exception>)
    requires
        old(hart).wf(),
    ensures
        final (hart).wf(),
        only_fp_changed(old(hart), final (hart)) || only_regs_changed(old(hart), final (hart)),
        (old(hart).csr@[crate::csr::MSTATUS as int] >> 13) & 0x3 == 0 ==> r == Err::<
            (),
            Exception,
        >(Exception::IllegalInstruction) && *final (hart) == *old(hart),
        ({
            let fs_on = (old(hart).csr@[crate::csr::MSTATUS as int] >> 13) & 0x3 != 0;
            let a = old(hart).fregs@[spec_rs1(inst)];
            let b = old(hart).fregs@[spec_rs2(inst)];
            fs_on ==> r == Ok::<(), Exception>(()) && final (hart).fregs@ == old(
                hart,
            ).fregs@.update(
                spec_rd(inst),
                crate::fputil::spec_f64_minmax(a, b, take_max),
            ) && final (hart).regs@ == old(hart).regs@
        }),
{
    fp_gate(hart, true)?;
    let a = hart.fregs.get(rs1_of(inst));
    let b = hart.fregs.get(rs2_of(inst));
    let (v, fl) = f64_minmax(a, b, take_max);
    let rd = rd_of(inst);
    hart.fregs.set(rd, v);
    fp_flags(hart, fl);
    Ok(())
}

/// FEQ/FLT/FLE.D: the verified comparison into an integer register;
/// `kind` is 0 for FLE, 1 for FLT, 2 for FEQ.
pub fn exec_fcmp_d(hart: &mut Hart, inst: u32, kind: u8) -> (r: Result<(), Exception>)
    requires
        old(hart).wf(),
        kind <= 2,
    ensures
        final (hart).wf(),
        final (hart).pc == old(hart).pc && final (hart).mode == old(hart).mode && final (hart).wfi
            == old(hart).wfi && final (hart).table == old(hart).table && final (hart).fregs@ == old(
            hart,
        ).fregs@,
        (old(hart).csr@[crate::csr::MSTATUS as int] >> 13) & 0x3 == 0 ==> r == Err::<
            (),
            Exception,
        >(Exception::IllegalInstruction) && *final (hart) == *old(hart),
        ({
            let fs_on = (old(hart).csr@[crate::csr::MSTATUS as int] >> 13) & 0x3 != 0;
            let a = old(hart).fregs@[spec_rs1(inst)];
            let b = old(hart).fregs@[spec_rs2(inst)];
            let v: u64 = if (kind == 2 && crate::fputil::spec_f64_eq(a, b)) || (kind == 1
                && crate::fputil::spec_f64_lt(a, b)) || (kind == 0 && crate::fputil::spec_f64_le(
                a,
                b,
            )) {
                1
            } else {
                0
            };
            fs_on ==> r == Ok::<(), Exception>(()) && final (hart).regs@ == spec_set_reg(
                old(hart).regs@,
                spec_rd(inst),
                v,
            )
        }),
{
    fp_gate(hart, true)?;
    let a = hart.fregs.get(rs1_of(inst));
    let b = hart.fregs.get(rs2_of(inst));
    let (c, fl) = if kind == 2 {
        f64_eq(a, b)
    } else if kind == 1 {
        f64_lt(a, b)
    } else {
        f64_le(a, b)
    };
    let rd = rd_of(inst);
    let v: u64 = if c {
        1
    } else {
        0
    };
    hart.regs.set(rd, v);
    fp_flags(hart, fl);
    Ok(())
}

/// FCLASS.D: the one-hot category of rs1 into rd.
pub fn exec_fclass_d(hart: &mut Hart, inst: u32) -> (r: Result<(), Exception>)
    requires
        old(hart).wf(),
    ensures
        final (hart).wf(),
        only_regs_changed(old(hart), final (hart)),
        (old(hart).csr@[crate::csr::MSTATUS as int] >> 13) & 0x3 == 0 ==> r == Err::<
            (),
            Exception,
        >(Exception::IllegalInstruction) && *final (hart) == *old(hart),
        ({
            let fs_on = (old(hart).csr@[crate::csr::MSTATUS as int] >> 13) & 0x3 != 0;
            let a = old(hart).fregs@[spec_rs1(inst)];
            fs_on ==> r == Ok::<(), Exception>(()) && final (hart).regs@ == spec_set_reg(
                old(hart).regs@,
                spec_rd(inst),
                1u64 << crate::fputil::spec_f64_class_index(a),
            ) && final (hart).csr@ == old(hart).csr@
        }),
{
    fp_gate(hart, false)?;
    let a = hart.fregs.get(rs1_of(inst));
    let v = f64_classify(a);
    let rd = rd_of(inst);
    hart.regs.set(rd, v);
    Ok(())
}

/// FMV.X.D: the raw double-precision register into rd.
pub fn exec_fmv_x_d(hart: &mut Hart, inst: u32) -> (r: Result<(), Exception>)
    requires
        old(hart).wf(),
    ensures
        final (hart).wf(),
        only_regs_changed(old(hart), final (hart)),
        (old(hart).csr@[crate::csr::MSTATUS as int] >> 13) & 0x3 == 0 ==> r == Err::<
            (),
            Exception,
        >(Exception::IllegalInstruction) && *final (hart) == *old(hart),
        ({
            let fs_on = (old(hart).csr@[crate::csr::MSTATUS as int] >> 13) & 0x3 != 0;
            fs_on ==> r == Ok::<(), Exception>(()) && final (hart).regs@ == spec_set_reg(
                old(hart).regs@,
                spec_rd(inst),
                old(hart).fregs@[spec_rs1(inst)],
            ) && final (hart).csr@ == old(hart).csr@
        }),
{
    fp_gate(hart, false)?;
    let raw = hart.fregs.get(rs1_of(inst));
    let rd = rd_of(inst);
    hart.regs.set(rd, raw);
    Ok(())
}

/// FMV.D.X: rs1 moved raw into the double-precision register.
pub fn exec_fmv_d_x(hart: &mut Hart, inst: u32) -> (r: Result<(), Exception>)
    requires
        old(hart).wf(),
    ensures
        final (hart).wf(),
        only_fp_changed(old(hart), final (hart)),
        (old(hart).csr@[crate::csr::MSTATUS as int] >> 13) & 0x3 == 0 ==> r == Err::<
            (),
            Exception,
        >(Exception::IllegalInstruction) && *final (hart) == *old(hart),
        ({
            let fs_on = (old(hart).csr@[crate::csr::MSTATUS as int] >> 13) & 0x3 != 0;
            fs_on ==> r == Ok::<(), Exception>(()) && final (hart).fregs@ == old(
                hart,
            ).fregs@.update(spec_rd(inst), old(hart).regs@[spec_rs1(inst)]) && final (hart).csr@
                == spec_fs_dirty(old(hart).csr@) && final (hart).regs@ == old(hart).regs@
        }),
{
    fp_gate(hart, true)?;
    let raw = hart.regs.get(rs1_of(inst));
    let rd = rd_of(inst);
    hart.fregs.set(rd, raw);
    Ok(())
}

/// FCVT.S.D: narrow the double to single precision, NaN-boxed.
pub fn exec_fcvt_s_d(hart: &mut Hart, inst: u32) -> (r: Result<(), Exception>)
    requires
        old(hart).wf(),
    ensures
        final (hart).wf(),
        only_fp_changed(old(hart), final (hart)),
        (old(hart).csr@[crate::csr::MSTATUS as int] >> 13) & 0x3 == 0 ==> r == Err::<
            (),
            Exception,
        >(Exception::IllegalInstruction) && *final (hart) == *old(hart),
        ({
            let frm = ((old(hart).csr@[crate::csr::FCSR as int] >> 5) & 0x7) as u8;
            let fs_on = (old(hart).csr@[crate::csr::MSTATUS as int] >> 13) & 0x3 != 0;
            let a = old(hart).fregs@[spec_rs1(inst)];
            &&& (fs_on ==> (spec_round_mode(spec_rm(inst), frm) matches Err(e) ==> r == Err::<
                (),
                Exception,
            >(e)))
            &&& (fs_on ==> (spec_round_mode(spec_rm(inst), frm) matches Ok(m) ==> r == Ok::<
                (),
                Exception,
            >(()) && final (hart).fregs@ == old(hart).fregs@.update(
                spec_rd(inst),
                (spec_f64_to_f32(a, m).0 as u64) | 0xFFFF_FFFF_0000_0000u64,
            ) && final (hart).regs@ == old(hart).regs@))
        }),
{
    fp_gate(hart, true)?;
    let frm = read_frm(hart);
    let m = match round_mode(rm_of(inst), frm) {
        Ok(m) => m,
        Err(e) => {
            return Err(e);
        },
    };
    let a = hart.fregs.get(rs1_of(inst));
    let (bits, st) = f64_to_f32(a, m);
    let rd = rd_of(inst);
    let boxed = nanbox(bits);
    hart.fregs.set(rd, boxed);
    fp_flags(hart, fflags_of_status(st));
    Ok(())
}

/// FCVT.D.S: widen the unboxed single to double precision (exact).
pub fn exec_fcvt_d_s(hart: &mut Hart, inst: u32) -> (r: Result<(), Exception>)
    requires
        old(hart).wf(),
    ensures
        final (hart).wf(),
        only_fp_changed(old(hart), final (hart)),
        (old(hart).csr@[crate::csr::MSTATUS as int] >> 13) & 0x3 == 0 ==> r == Err::<
            (),
            Exception,
        >(Exception::IllegalInstruction) && *final (hart) == *old(hart),
        ({
            let fs_on = (old(hart).csr@[crate::csr::MSTATUS as int] >> 13) & 0x3 != 0;
            let a = spec_unbox(old(hart).fregs@[spec_rs1(inst)]);
            fs_on ==> r == Ok::<(), Exception>(()) && final (hart).fregs@ == old(
                hart,
            ).fregs@.update(spec_rd(inst), spec_f32_to_f64(a).0) && final (hart).regs@ == old(
                hart,
            ).regs@
        }),
{
    fp_gate(hart, true)?;
    let a = unbox(hart.fregs.get(rs1_of(inst)));
    let (bits, st) = f32_to_f64(a);
    let rd = rd_of(inst);
    hart.fregs.set(rd, bits);
    fp_flags(hart, fflags_of_status(st));
    Ok(())
}

/// What the conversions from double precision to an integer register
/// produce, as in the single-precision case.
pub open spec fn spec_fcvt_int_from_f64(a: u64, m: u8, signed: bool, width: u8) -> (u64, u8) {
    if crate::fputil::spec_f64_is_nan(a) {
        (
            if signed && width == 32 {
                0x7FFF_FFFFu64
            } else if signed {
                0x7FFF_FFFF_FFFF_FFFFu64
            } else {
                0xFFFF_FFFF_FFFF_FFFFu64
            },
            0x10,
        )
    } else if signed {
        (
            (spec_f64_to_i(a, width, m).0 as u64),
            spec_fflags_of_status(spec_f64_to_i(a, width, m).1),
        )
    } else if width == 32 {
        (
            (spec_f64_to_u(a, width, m).0 as u32 as i32 as i64 as u64),
            spec_fflags_of_status(spec_f64_to_u(a, width, m).1),
        )
    } else {
        (spec_f64_to_u(a, width, m).0, spec_fflags_of_status(spec_f64_to_u(a, width, m).1))
    }
}

/// FCVT.{W,WU,L,LU}.D: double precision to an integer register.
pub fn exec_fcvt_int_d(hart: &mut Hart, inst: u32, signed: bool, width: u8) -> (r: Result<
    (),
    Exception,
>)
    requires
        old(hart).wf(),
        width == 32 || width == 64,
    ensures
        final (hart).wf(),
        final (hart).pc == old(hart).pc && final (hart).mode == old(hart).mode && final (hart).wfi
            == old(hart).wfi && final (hart).table == old(hart).table,
        final (hart).fregs@ == old(hart).fregs@,
        (old(hart).csr@[crate::csr::MSTATUS as int] >> 13) & 0x3 == 0 ==> r == Err::<
            (),
            Exception,
        >(Exception::IllegalInstruction) && *final (hart) == *old(hart),
        ({
            let frm = ((old(hart).csr@[crate::csr::FCSR as int] >> 5) & 0x7) as u8;
            let fs_on = (old(hart).csr@[crate::csr::MSTATUS as int] >> 13) & 0x3 != 0;
            let a = old(hart).fregs@[spec_rs1(inst)];
            &&& (fs_on ==> (spec_round_mode(spec_rm(inst), frm) matches Err(e) ==> r == Err::<
                (),
                Exception,
            >(e)))
            &&& (fs_on ==> (spec_round_mode(spec_rm(inst), frm) matches Ok(m) ==> r == Ok::<
                (),
                Exception,
            >(()) && final (hart).regs@ == spec_set_reg(
                old(hart).regs@,
                spec_rd(inst),
                spec_fcvt_int_from_f64(a, m, signed, width).0,
            ) && final (hart).csr@ == spec_acc_fflags(
                spec_fs_dirty(old(hart).csr@),
                spec_fcvt_int_from_f64(a, m, signed, width).1,
            )))
        }),
{
    fp_gate(hart, true)?;
    let frm = read_frm(hart);
    let m = match round_mode(rm_of(inst), frm) {
        Ok(m) => m,
        Err(e) => {
            return Err(e);
        },
    };
    let a = hart.fregs.get(rs1_of(inst));
    let nan = (a >> 52) & 0x7FF == 0x7FF && a & 0xF_FFFF_FFFF_FFFF != 0;
    let (v, fl): (u64, u8) = if nan {
        (
            if signed && width == 32 {
                0x7FFF_FFFF
            } else if signed {
                0x7FFF_FFFF_FFFF_FFFF
            } else {
                0xFFFF_FFFF_FFFF_FFFF
            },
            0x10,
        )
    } else if signed {
        let (val, st) = f64_to_i(a, width, m);
        #[verifier::truncate]
        let w = val as u64;
        (w, fflags_of_status(st))
    } else {
        let (val, st) = f64_to_u(a, width, m);
        if width == 32 {
            #[verifier::truncate]
            let w = val as u32 as i32 as i64 as u64;
            (w, fflags_of_status(st))
        } else {
            (val, fflags_of_status(st))
        }
    };
    let rd = rd_of(inst);
    hart.regs.set(rd, v);
    fp_flags(hart, fl);
    Ok(())
}

/// FCVT.D.{W,WU,L,LU}: an integer register into double precision.
pub fn exec_fcvt_d_int(hart: &mut Hart, inst: u32, signed: bool, width: u8) -> (r: Result<
    (),
    Exception,
>)
    requires
        old(hart).wf(),
        width == 32 || width == 64,
    ensures
        final (hart).wf(),
        only_fp_changed(old(hart), final (hart)),
        (old(hart).csr@[crate::csr::MSTATUS as int] >> 13) & 0x3 == 0 ==> r == Err::<
            (),
            Exception,
        >(Exception::IllegalInstruction) && *final (hart) == *old(hart),
        ({
            let frm = ((old(hart).csr@[crate::csr::FCSR as int] >> 5) & 0x7) as u8;
            let fs_on = (old(hart).csr@[crate::csr::MSTATUS as int] >> 13) & 0x3 != 0;
            let x = old(hart).regs@[spec_rs1(inst)];
            let res = if signed && width == 32 {
                spec_f64_from_i(x as u32 as i32 as i64, crate::inst_f::m_of(spec_rm(inst), frm))
            } else if signed {
                spec_f64_from_i(x as i64, crate::inst_f::m_of(spec_rm(inst), frm))
            } else if width == 32 {
                spec_f64_from_u((x as u32) as u64, crate::inst_f::m_of(spec_rm(inst), frm))
            } else {
                spec_f64_from_u(x, crate::inst_f::m_of(spec_rm(inst), frm))
            };
            &&& (fs_on ==> (spec_round_mode(spec_rm(inst), frm) matches Err(e) ==> r == Err::<
                (),
                Exception,
            >(e)))
            &&& (fs_on ==> (spec_round_mode(spec_rm(inst), frm) matches Ok(m) ==> r == Ok::<
                (),
                Exception,
            >(()) && final (hart).fregs@ == old(hart).fregs@.update(spec_rd(inst), res.0) && final (
            hart).csr@ == spec_acc_fflags(
                spec_fs_dirty(old(hart).csr@),
                spec_fflags_of_status(res.1),
            ) && final (hart).regs@ == old(hart).regs@))
        }),
{
    fp_gate(hart, true)?;
    let frm = read_frm(hart);
    let m = match round_mode(rm_of(inst), frm) {
        Ok(m) => m,
        Err(e) => {
            return Err(e);
        },
    };
    let x = hart.regs.get(rs1_of(inst));
    let (bits, st): (u64, u8) = if signed && width == 32 {
        #[verifier::truncate]
        let arg = x as u32 as i32 as i64;
        f64_from_i(arg, m)
    } else if signed {
        #[verifier::truncate]
        let arg = x as i64;
        f64_from_i(arg, m)
    } else if width == 32 {
        #[verifier::truncate]
        let arg = (x as u32) as u64;
        f64_from_u(arg, m)
    } else {
        f64_from_u(x, m)
    };
    let rd = rd_of(inst);
    hart.fregs.set(rd, bits);
    fp_flags(hart, fflags_of_status(st));
    Ok(())
}

/// FSQRT.D: exact special cases, with positive finite operands on the
/// integer-root path.
pub fn exec_fsqrt_d(hart: &mut Hart, inst: u32) -> (r: Result<(), Exception>)
    requires
        old(hart).wf(),
    ensures
        final (hart).wf(),
        only_fp_changed(old(hart), final (hart)),
        (old(hart).csr@[crate::csr::MSTATUS as int] >> 13) & 0x3 == 0 ==> r == Err::<
            (),
            Exception,
        >(Exception::IllegalInstruction) && *final (hart) == *old(hart),
        ({
            let frm = ((old(hart).csr@[crate::csr::FCSR as int] >> 5) & 0x7) as u8;
            let fs_on = (old(hart).csr@[crate::csr::MSTATUS as int] >> 13) & 0x3 != 0;
            &&& (fs_on ==> (spec_round_mode(spec_rm(inst), frm) matches Err(e) ==> r == Err::<
                (),
                Exception,
            >(e)))
            &&& (fs_on ==> (spec_round_mode(spec_rm(inst), frm) matches Ok(m) ==> r == Ok::<
                (),
                Exception,
            >(()) && final (hart).regs@ == old(hart).regs@ && (crate::fputil::spec_f64_is_nan(
                old(hart).fregs@[spec_rs1(inst)],
            ) || (old(hart).fregs@[spec_rs1(inst)] >> 63 == 1 && old(
                hart,
            ).fregs@[spec_rs1(inst)] & 0x7FFF_FFFF_FFFF_FFFF != 0) ==> final (hart).fregs@ == old(
                hart,
            ).fregs@.update(spec_rd(inst), crate::fputil::F64_QNAN)) && ({
                let a = old(hart).fregs@[spec_rs1(inst)];
                !crate::fputil::spec_f64_is_nan(a) && a >> 63 == 0 && a & 0x7FFF_FFFF_FFFF_FFFF
                    != 0 && a != 0x7FF0_0000_0000_0000 ==> (exists|bits: u64, fl: u8|
                    #[trigger] crate::inst_f::spec_f64_sqrt_norm(a, m, bits, fl) && final (
                    hart).fregs@ == old(hart).fregs@.update(spec_rd(inst), bits) && final (
                    hart).csr@ == spec_acc_fflags(spec_fs_dirty(old(hart).csr@), fl))
            })))
        }),
{
    fp_gate(hart, true)?;
    let frm = read_frm(hart);
    let m = match round_mode(rm_of(inst), frm) {
        Ok(m) => m,
        Err(e) => {
            return Err(e);
        },
    };
    let a = hart.fregs.get(rs1_of(inst));
    let nan = (a >> 52) & 0x7FF == 0x7FF && a & 0xF_FFFF_FFFF_FFFF != 0;
    let snan = nan && (a >> 51) & 1 == 0;
    let rd = rd_of(inst);
    let (bits, fl): (u64, u8) = if nan {
        (F64_QNAN, if snan {
            0x10
        } else {
            0
        })
    } else if a >> 63 == 1 && a & 0x7FFF_FFFF_FFFF_FFFF != 0 {
        (F64_QNAN, 0x10)
    } else if a & 0x7FFF_FFFF_FFFF_FFFF == 0 || a == 0x7FF0_0000_0000_0000 {
        (a, 0)
    } else {
        proof {
            assert((a >> 52) & 0x7FF != 0x7FF && a >> 63 == 0) by (bit_vector)
                requires
                    !((a >> 52) & 0x7FF == 0x7FF && a & 0xF_FFFF_FFFF_FFFF != 0),
                    a != 0x7FF0_0000_0000_0000,
                    !(a >> 63 == 1 && a & 0x7FFF_FFFF_FFFF_FFFF != 0),
                    a & 0x7FFF_FFFF_FFFF_FFFF != 0,
            ;
        }
        sqrt_norm_f64(a, m)
    };
    hart.fregs.set(rd, bits);
    fp_flags(hart, fl);
    Ok(())
}

/// FLD: load a doubleword raw into the float register.
pub fn exec_fld(hart: &mut Hart, mmu: &mut MMU, inst: u32) -> (r: Result<(), Exception>)
    requires
        old(hart).wf(),
        old(mmu).wf(),
    ensures
        final (hart).wf(),
        final (mmu).wf(),
        final (mmu).ram() == old(mmu).ram(),
        final (mmu).reservations() == old(mmu).reservations(),
        only_fp_changed(old(hart), final (hart)),
        (old(hart).csr@[crate::csr::MSTATUS as int] >> 13) & 0x3 == 0 ==> r == Err::<
            (),
            Exception,
        >(Exception::IllegalInstruction) && *final (hart) == *old(hart),
        ({
            let fs_on = (old(hart).csr@[crate::csr::MSTATUS as int] >> 13) & 0x3 != 0;
            let addr = vstd::wrapping::u64_specs::wrapping_add(
                old(hart).regs@[spec_rs1(inst)],
                spec_imm_i(inst),
            );
            let t = spec_translate(
                old(mmu).ram(),
                old(hart).csr@[crate::csr::SATP as int],
                old(hart).csr@[crate::csr::MSTATUS as int],
                spec_mode_encoding(old(hart).mode),
                addr,
                AccessType::Read,
            );
            fs_on && addr % 8 == 0 ==> ((t matches Err(e) ==> r == Err::<(), Exception>(e)) && (
            t matches Ok(pa) ==> (ram_range(pa, 8) ==> r == Ok::<(), Exception>(()) && final (
            hart).fregs@ == old(hart).fregs@.update(
                spec_rd(inst),
                crate::memory::spec_read_u64(old(mmu).ram(), pa),
            ))))
        }),
{
    fp_gate(hart, false)?;
    let rd = rd_of(inst);
    let address = hart.regs.get(rs1_of(inst)).wrapping_add(imm_i(inst));
    let mode = hart.mode.as_u8();
    let data = match mmu.read64(&hart.csr, mode, address) {
        Ok(d) => d,
        Err(e) => {
            return Err(e);
        },
    };
    hart.csr.write_mstatus_fs(0x3);
    hart.fregs.set(rd, data);
    Ok(())
}

/// FSD: store the float register raw.
pub fn exec_fsd(hart: &mut Hart, mmu: &mut MMU, inst: u32) -> (r: Result<(), Exception>)
    requires
        old(hart).wf(),
        old(mmu).wf(),
    ensures
        final (hart).wf(),
        final (mmu).wf(),
        only_fp_changed(old(hart), final (hart)),
        final (hart).fregs@ == old(hart).fregs@,
        (old(hart).csr@[crate::csr::MSTATUS as int] >> 13) & 0x3 == 0 ==> r == Err::<
            (),
            Exception,
        >(Exception::IllegalInstruction) && *final (hart) == *old(hart) && final (mmu).ram() == old(
            mmu,
        ).ram(),
        ({
            let fs_on = (old(hart).csr@[crate::csr::MSTATUS as int] >> 13) & 0x3 != 0;
            let addr = vstd::wrapping::u64_specs::wrapping_add(
                old(hart).regs@[spec_rs1(inst)],
                spec_imm_s(inst),
            );
            let t = spec_translate(
                old(mmu).ram(),
                old(hart).csr@[crate::csr::SATP as int],
                old(hart).csr@[crate::csr::MSTATUS as int],
                spec_mode_encoding(old(hart).mode),
                addr,
                AccessType::Write,
            );
            fs_on && addr % 8 == 0 ==> ((t matches Err(e) ==> r == Err::<(), Exception>(e) && final (
            mmu).ram() == old(mmu).ram()) && (t matches Ok(pa) ==> (ram_range(pa, 8) ==> r == Ok::<
                (),
                Exception,
            >(()) && final (mmu).ram() == crate::memory::spec_write_u64(
                old(mmu).ram(),
                pa,
                old(hart).fregs@[spec_rs2(inst)],
            ))))
        }),
{
    fp_gate(hart, false)?;
    let address = hart.regs.get(rs1_of(inst)).wrapping_add(imm_s(inst));
    let data = hart.fregs.get(rs2_of(inst));
    let mode = hart.mode.as_u8();
    mmu.write64(&hart.csr, mode, address, data)
}

} // verus!
