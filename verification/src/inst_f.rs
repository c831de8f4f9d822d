//! The single-precision floating-point extension, and the helpers all
//! floating-point instructions share: the FS gate in MSTATUS, flag
//! accumulation, and square root by exact integer arithmetic.

use vstd::prelude::*;
use crate::fputil::{
    nanbox,
    unbox,
    spec_unbox,
    spec_nanboxed,
    fflags_of_status,
    spec_fflags_of_status,
    round_mode,
    spec_round_mode,
    f32_eq,
    f32_lt,
    f32_le,
    f32_minmax,
    f32_classify,
    F32_QNAN,
};
use crate::fields::{
    rd_of,
    rs1_of,
    rs2_of,
    rs3_of,
    rm_of,
    imm_i,
    imm_s,
    spec_rd,
    spec_rs1,
    spec_rs2,
    spec_rs3,
    spec_rm,
    spec_imm_i,
    spec_imm_s,
};
use crate::hart::{Hart, spec_set_reg, only_fp_changed, only_regs_changed, spec_mode_encoding};
use crate::memory::ram_range;
use crate::mmu::{MMU, AccessType, spec_translate};
use crate::softfloat::{
    f32_add,
    f32_sub,
    f32_mul,
    f32_div,
    f32_fma,
    f32_from_i,
    f32_from_u,
    f32_to_i,
    f32_to_u,
    spec_f32_add,
    spec_f32_sub,
    spec_f32_mul,
    spec_f32_div,
    spec_f32_fma,
    spec_f32_from_i,
    spec_f32_from_u,
    spec_f32_to_i,
    spec_f32_to_u,
}; 
use crate::trap::Exception;

verus! {

/// The FS field of MSTATUS after marking the floating-point state
/// dirty.
pub open spec fn spec_fs_dirty(s: Seq<u64>) -> Seq<u64> {
    s.update(
        crate::csr::MSTATUS as int,
        (s[crate::csr::MSTATUS as int] & !0x6000u64) | ((0x3u64) << 13),
    )
}

/// FCSR after OR-ing newly raised flags into FFLAGS.
pub open spec fn spec_acc_fflags(s: Seq<u64>, flags: u8) -> Seq<u64> {
    s.update(crate::csr::FCSR as int, s[crate::csr::FCSR as int] | ((flags & 0x1F) as u64))
}

/// The FS gate every floating-point instruction passes first: illegal
/// when FS is off, otherwise (optionally) mark the state dirty.
pub fn fp_gate(hart: &mut Hart, set_dirty: bool) -> (r: Result<(), Exception>)
    requires
        old(hart).wf(),
    ensures
        final (hart).wf(),
        final (hart).regs == old(hart).regs && final (hart).fregs == old(hart).fregs && final (
        hart).pc == old(hart).pc && final (hart).mode == old(hart).mode && final (hart).wfi == old(
            hart,
        ).wfi && final (hart).table == old(hart).table,
        (old(hart).csr@[crate::csr::MSTATUS as int] >> 13) & 0x3 == 0 ==> r == Err::<
            (),
            Exception,
        >(Exception::IllegalInstruction) && *final (hart) == *old(hart),
        (old(hart).csr@[crate::csr::MSTATUS as int] >> 13) & 0x3 != 0 ==> r == Ok::<(), Exception>(
            (),
        ) && final (hart).csr@ == (if set_dirty {
            spec_fs_dirty(old(hart).csr@)
        } else {
            old(hart).csr@
        }) && (!set_dirty ==> *final (hart) == *old(hart)),
{
    proof {
        crate::util::lemma_mask_bounds_u64(hart.csr@[crate::csr::MSTATUS as int] >> 13);
    }
    if hart.csr.read_mstatus_fs() == 0 {
        return Err(Exception::IllegalInstruction);
    }
    if set_dirty {
        hart.csr.write_mstatus_fs(0x3);
        proof {
            crate::util::lemma_mask_low5_u8(0);
        }
    }
    Ok(())
}

/// Accumulate an operation's exception flags into FFLAGS.
pub fn fp_flags(hart: &mut Hart, flags: u8)
    requires
        old(hart).wf(),
    ensures
        final (hart).wf(),
        final (hart).csr@ == spec_acc_fflags(old(hart).csr@, flags),
        final (hart).regs@ == old(hart).regs@ && final (hart).fregs@ == old(hart).fregs@ && final (
        hart).pc == old(hart).pc && final (hart).mode == old(hart).mode && final (hart).wfi == old(
            hart,
        ).wfi && final (hart).table == old(hart).table,
{
    hart.csr.accumulate_fflags(flags & 0x1F);
    proof {
        crate::util::lemma_mask_low5_u8(flags);
    }
}

/// The dynamic rounding mode field FRM of FCSR.
pub fn read_frm(hart: &Hart) -> (r: u8)
    requires
        hart.wf(),
    ensures
        r == ((hart.csr@[crate::csr::FCSR as int] >> 5) & 0x7) as u8,
        r <= 7,
{
    let v = hart.csr.read_frm();
    proof {
        crate::util::lemma_mask_bounds_u64(hart.csr@[crate::csr::FCSR as int] >> 5);
    }
    v
}

/// FADD.S: single-precision addition, NaN-boxed into rd.
pub fn exec_fadd_s(hart: &mut Hart, inst: u32) -> (r: Result<(), Exception>)
    requires
        old(hart).wf(),
    ensures
        final (hart).wf(),
        only_fp_changed(old(hart), final (hart)) || only_regs_changed(old(hart), final (hart)),
        (old(hart).csr@[crate::csr::MSTATUS as int] >> 13) & 0x3 == 0 ==> r == Err::<
            (),
            Exception,
        >(Exception::IllegalInstruction) && *final (hart) == *old(hart),
        ({
            let frm = ((old(hart).csr@[crate::csr::FCSR as int] >> 5) & 0x7) as u8;
            let fs_on = (old(hart).csr@[crate::csr::MSTATUS as int] >> 13) & 0x3 != 0;
            let a = spec_unbox(old(hart).fregs@[spec_rs1(inst)]);
            let b = spec_unbox(old(hart).fregs@[spec_rs2(inst)]);
            &&& (fs_on ==> (spec_round_mode(spec_rm(inst), frm) matches Err(e) ==> r == Err::<
                (),
                Exception,
            >(e)))
            &&& (fs_on ==> (spec_round_mode(spec_rm(inst), frm) matches Ok(m) ==> r == Ok::<
                (),
                Exception,
            >(()) && final (hart).fregs@ == old(hart).fregs@.update(
                spec_rd(inst),
                (spec_f32_add(a, b, m).0 as u64) | 0xFFFF_FFFF_0000_0000u64,
            ) && final (hart).csr@ == spec_acc_fflags(
                spec_fs_dirty(old(hart).csr@),
                spec_fflags_of_status(spec_f32_add(a, b, m).1),
            ) && final (hart).regs@ == old(hart).regs@))
        }),
{
    fp_gate(hart, true)?;
    let frm = read_frm(hart);
    let m = match round_mode(rm_of(inst), frm) {
        Ok(m) => m,
        Err(e) => {
            return Err(e);
        },
    };
    let a = unbox(hart.fregs.get(rs1_of(inst)));
    let b = unbox(hart.fregs.get(rs2_of(inst)));
    let (bits, st) = f32_add(a, b, m);
    let rd = rd_of(inst);
    let boxed = nanbox(bits);
    hart.fregs.set(rd, boxed);
    fp_flags(hart, fflags_of_status(st));
    Ok(())
}

/// FSUB.S: single-precision subtraction.
pub fn exec_fsub_s(hart: &mut Hart, inst: u32) -> (r: Result<(), Exception>)
    requires
        old(hart).wf(),
    ensures
        final (hart).wf(),
        only_fp_changed(old(hart), final (hart)) || only_regs_changed(old(hart), final (hart)),
        (old(hart).csr@[crate::csr::MSTATUS as int] >> 13) & 0x3 == 0 ==> r == Err::<
            (),
            Exception,
        >(Exception::IllegalInstruction) && *final (hart) == *old(hart),
        ({
            let frm = ((old(hart).csr@[crate::csr::FCSR as int] >> 5) & 0x7) as u8;
            let fs_on = (old(hart).csr@[crate::csr::MSTATUS as int] >> 13) & 0x3 != 0;
            let a = spec_unbox(old(hart).fregs@[spec_rs1(inst)]);
            let b = spec_unbox(old(hart).fregs@[spec_rs2(inst)]);
            &&& (fs_on ==> (spec_round_mode(spec_rm(inst), frm) matches Err(e) ==> r == Err::<
                (),
                Exception,
            >(e)))
            &&& (fs_on ==> (spec_round_mode(spec_rm(inst), frm) matches Ok(m) ==> r == Ok::<
                (),
                Exception,
            >(()) && final (hart).fregs@ == old(hart).fregs@.update(
                spec_rd(inst),
                (spec_f32_sub(a, b, m).0 as u64) | 0xFFFF_FFFF_0000_0000u64,
            ) && final (hart).csr@ == spec_acc_fflags(
                spec_fs_dirty(old(hart).csr@),
                spec_fflags_of_status(spec_f32_sub(a, b, m).1),
            ) && final (hart).regs@ == old(hart).regs@))
        }),
{
    fp_gate(hart, true)?;
    let frm = read_frm(hart);
    let m = match round_mode(rm_of(inst), frm) {
        Ok(m) => m,
        Err(e) => {
            return Err(e);
        },
    };
    let a = unbox(hart.fregs.get(rs1_of(inst)));
    let b = unbox(hart.fregs.get(rs2_of(inst)));
    let (bits, st) = f32_sub(a, b, m);
    let rd = rd_of(inst);
    let boxed = nanbox(bits);
    hart.fregs.set(rd, boxed);
    fp_flags(hart, fflags_of_status(st));
    Ok(())
}

/// FMUL.S: single-precision multiplication.
pub fn exec_fmul_s(hart: &mut Hart, inst: u32) -> (r: Result<(), Exception>)
    requires
        old(hart).wf(),
    ensures
        final (hart).wf(),
        only_fp_changed(old(hart), final (hart)) || only_regs_changed(old(hart), final (hart)),
        (old(hart).csr@[crate::csr::MSTATUS as int] >> 13) & 0x3 == 0 ==> r == Err::<
            (),
            Exception,
        >(Exception::IllegalInstruction) && *final (hart) == *old(hart),
        ({
            let frm = ((old(hart).csr@[crate::csr::FCSR as int] >> 5) & 0x7) as u8;
            let fs_on = (old(hart).csr@[crate::csr::MSTATUS as int] >> 13) & 0x3 != 0;
            let a = spec_unbox(old(hart).fregs@[spec_rs1(inst)]);
            let b = spec_unbox(old(hart).fregs@[spec_rs2(inst)]);
            &&& (fs_on ==> (spec_round_mode(spec_rm(inst), frm) matches Err(e) ==> r == Err::<
                (),
                Exception,
            >(e)))
            &&& (fs_on ==> (spec_round_mode(spec_rm(inst), frm) matches Ok(m) ==> r == Ok::<
                (),
                Exception,
            >(()) && final (hart).fregs@ == old(hart).fregs@.update(
                spec_rd(inst),
                (spec_f32_mul(a, b, m).0 as u64) | 0xFFFF_FFFF_0000_0000u64,
            ) && final (hart).csr@ == spec_acc_fflags(
                spec_fs_dirty(old(hart).csr@),
                spec_fflags_of_status(spec_f32_mul(a, b, m).1),
            ) && final (hart).regs@ == old(hart).regs@))
        }),
{
    fp_gate(hart, true)?;
    let frm = read_frm(hart);
    let m = match round_mode(rm_of(inst), frm) {
        Ok(m) => m,
        Err(e) => {
            return Err(e);
        },
    };
    let a = unbox(hart.fregs.get(rs1_of(inst)));
    let b = unbox(hart.fregs.get(rs2_of(inst)));
    let (bits, st) = f32_mul(a, b, m);
    let rd = rd_of(inst);
    let boxed = nanbox(bits);
    hart.fregs.set(rd, boxed);
    fp_flags(hart, fflags_of_status(st));
    Ok(())
}

/// FDIV.S: single-precision division.
pub fn exec_fdiv_s(hart: &mut Hart, inst: u32) -> (r: Result<(), Exception>)
    requires
        old(hart).wf(),
    ensures
        final (hart).wf(),
        only_fp_changed(old(hart), final (hart)) || only_regs_changed(old(hart), final (hart)),
        (old(hart).csr@[crate::csr::MSTATUS as int] >> 13) & 0x3 == 0 ==> r == Err::<
            (),
            Exception,
        >(Exception::IllegalInstruction) && *final (hart) == *old(hart),
        ({
            let frm = ((old(hart).csr@[crate::csr::FCSR as int] >> 5) & 0x7) as u8;
            let fs_on = (old(hart).csr@[crate::csr::MSTATUS as int] >> 13) & 0x3 != 0;
            let a = spec_unbox(old(hart).fregs@[spec_rs1(inst)]);
            let b = spec_unbox(old(hart).fregs@[spec_rs2(inst)]);
            &&& (fs_on ==> (spec_round_mode(spec_rm(inst), frm) matches Err(e) ==> r == Err::<
                (),
                Exception,
            >(e)))
            &&& (fs_on ==> (spec_round_mode(spec_rm(inst), frm) matches Ok(m) ==> r == Ok::<
                (),
                Exception,
            >(()) && final (hart).fregs@ == old(hart).fregs@.update(
                spec_rd(inst),
                (spec_f32_div(a, b, m).0 as u64) | 0xFFFF_FFFF_0000_0000u64,
            ) && final (hart).csr@ == spec_acc_fflags(
                spec_fs_dirty(old(hart).csr@),
                spec_fflags_of_status(spec_f32_div(a, b, m).1),
            ) && final (hart).regs@ == old(hart).regs@))
        }),
{
    fp_gate(hart, true)?;
    let frm = read_frm(hart);
    let m = match round_mode(rm_of(inst), frm) {
        Ok(m) => m,
        Err(e) => {
            return Err(e);
        },
    };
    let a = unbox(hart.fregs.get(rs1_of(inst)));
    let b = unbox(hart.fregs.get(rs2_of(inst)));
    let (bits, st) = f32_div(a, b, m);
    let rd = rd_of(inst);
    let boxed = nanbox(bits);
    hart.fregs.set(rd, boxed);
    fp_flags(hart, fflags_of_status(st));
    Ok(())
}

/// The four fused multiply-add forms of single precision: the
/// operand signs are flipped exactly (a sign-bit toggle) before one
/// fused operation. `neg_a` flips rs1, `neg_c` flips rs3.
pub fn exec_fma_s(hart: &mut Hart, inst: u32, neg_a: bool, neg_c: bool) -> (r: Result<(), Exception>)
    requires
        old(hart).wf(),
    ensures
        final (hart).wf(),
        only_fp_changed(old(hart), final (hart)) || only_regs_changed(old(hart), final (hart)),
        (old(hart).csr@[crate::csr::MSTATUS as int] >> 13) & 0x3 == 0 ==> r == Err::<
            (),
            Exception,
        >(Exception::IllegalInstruction) && *final (hart) == *old(hart),
        ({
            let frm = ((old(hart).csr@[crate::csr::FCSR as int] >> 5) & 0x7) as u8;
            let fs_on = (old(hart).csr@[crate::csr::MSTATUS as int] >> 13) & 0x3 != 0;
            let a = if neg_a {
                spec_unbox(old(hart).fregs@[spec_rs1(inst)]) ^ 0x8000_0000u32
            } else {
                spec_unbox(old(hart).fregs@[spec_rs1(inst)])
            };
            let b = spec_unbox(old(hart).fregs@[spec_rs2(inst)]);
            let c = if neg_c {
                spec_unbox(old(hart).fregs@[spec_rs3(inst)]) ^ 0x8000_0000u32
            } else {
                spec_unbox(old(hart).fregs@[spec_rs3(inst)])
            };
            &&& (fs_on ==> (spec_round_mode(spec_rm(inst), frm) matches Err(e) ==> r == Err::<
                (),
                Exception,
            >(e)))
            &&& (fs_on ==> (spec_round_mode(spec_rm(inst), frm) matches Ok(m) ==> r == Ok::<
                (),
                Exception,
            >(()) && final (hart).fregs@ == old(hart).fregs@.update(
                spec_rd(inst),
                (spec_f32_fma(a, b, c, m).0 as u64) | 0xFFFF_FFFF_0000_0000u64,
            ) && final (hart).csr@ == spec_acc_fflags(
                spec_fs_dirty(old(hart).csr@),
                spec_fflags_of_status(spec_f32_fma(a, b, c, m).1),
            ) && final (hart).regs@ == old(hart).regs@))
        }),
{
    fp_gate(hart, true)?;
    let frm = read_frm(hart);
    let m = match round_mode(rm_of(inst), frm) {
        Ok(m) => m,
        Err(e) => {
            return Err(e);
        },
    };
    let a0 = unbox(hart.fregs.get(rs1_of(inst)));
    let a = if neg_a {
        a0 ^ 0x8000_0000
    } else {
        a0
    };
    let b = unbox(hart.fregs.get(rs2_of(inst)));
    let c0 = unbox(hart.fregs.get(rs3_of(inst)));
    let c = if neg_c {
        c0 ^ 0x8000_0000
    } else {
        c0
    };
    let (bits, st) = f32_fma(a, b, c, m);
    let rd = rd_of(inst);
    let boxed = nanbox(bits);
    hart.fregs.set(rd, boxed);
    fp_flags(hart, fflags_of_status(st));
    Ok(())
}

/// FSGNJ/FSGNJN/FSGNJX.S: rs1 with its sign taken from rs2,
/// its complement, or the two signs' exclusive or; `kind` is the
/// funct3 selector.
pub fn exec_fsgnj_s(hart: &mut Hart, inst: u32, kind: u8) -> (r: Result<(), Exception>)
    requires
        old(hart).wf(),
    ensures
        final (hart).wf(),
        only_fp_changed(old(hart), final (hart)) || only_regs_changed(old(hart), final (hart)),
        (old(hart).csr@[crate::csr::MSTATUS as int] >> 13) & 0x3 == 0 ==> r == Err::<
            (),
            Exception,
        >(Exception::IllegalInstruction) && *final (hart) == *old(hart),
        ({
            let fs_on = (old(hart).csr@[crate::csr::MSTATUS as int] >> 13) & 0x3 != 0;
            let a = spec_unbox(old(hart).fregs@[spec_rs1(inst)]);
            let b = spec_unbox(old(hart).fregs@[spec_rs2(inst)]);
            let v = if kind == 0 {
                (a & 0x7FFF_FFFFu32) | (b & 0x8000_0000u32)
            } else if kind == 1 {
                (a & 0x7FFF_FFFFu32) | ((b ^ 0x8000_0000u32) & 0x8000_0000u32)
            } else {
                a ^ (b & 0x8000_0000u32)
            };
            fs_on ==> r == Ok::<(), Exception>(()) && final (hart).fregs@ == old(
                hart,
            ).fregs@.update(spec_rd(inst), (v as u64) | 0xFFFF_FFFF_0000_0000u64) && final (
            hart).csr@ == spec_fs_dirty(old(hart).csr@) && final (hart).regs@ == old(hart).regs@
        }),
{
    fp_gate(hart, true)?;
    let a = unbox(hart.fregs.get(rs1_of(inst)));
    let b = unbox(hart.fregs.get(rs2_of(inst)));
    let v = if kind == 0 {
        (a & 0x7FFF_FFFF) | (b & 0x8000_0000)
    } else if kind == 1 {
        (a & 0x7FFF_FFFF) | ((b ^ 0x8000_0000) & 0x8000_0000)
    } else {
        a ^ (b & 0x8000_0000)
    };
    let rd = rd_of(inst);
    let boxed = nanbox(v);
    hart.fregs.set(rd, boxed);
    Ok(())
}

/// FMIN.S and FMAX.S via the verified selection rule.
pub fn exec_fminmax_s(hart: &mut Hart, inst: u32, take_max: bool) -> (r: Result<(), Exception>)
    requires
        old(hart).wf(),
    ensures
        final (hart).wf(),
        only_fp_changed(old(hart), final (hart)) || only_regs_changed(old(hart), final (hart)),
        (old(hart).csr@[crate::csr::MSTATUS as int] >> 13) & 0x3 == 0 ==> r == Err::<
            (),
            Exception,
        >(Exception::IllegalInstruction) && *final (hart) == *old(hart),
        ({
            let fs_on = (old(hart).csr@[crate::csr::MSTATUS as int] >> 13) & 0x3 != 0;
            let a = spec_unbox(old(hart).fregs@[spec_rs1(inst)]);
            let b = spec_unbox(old(hart).fregs@[spec_rs2(inst)]);
            fs_on ==> r == Ok::<(), Exception>(()) && final (hart).fregs@ == old(
                hart,
            ).fregs@.update(
                spec_rd(inst),
                (crate::fputil::spec_f32_minmax(a, b, take_max) as u64) | 0xFFFF_FFFF_0000_0000u64,
            ) && final (hart).regs@ == old(hart).regs@
        }),
{
    fp_gate(hart, true)?;
    let a = unbox(hart.fregs.get(rs1_of(inst)));
    let b = unbox(hart.fregs.get(rs2_of(inst)));
    let (v, fl) = f32_minmax(a, b, take_max);
    let rd = rd_of(inst);
    let boxed = nanbox(v);
    hart.fregs.set(rd, boxed);
    fp_flags(hart, fl);
    Ok(())
}

/// FEQ/FLT/FLE.S: the verified comparison into an integer
/// register; `kind` is 0 for FLE, 1 for FLT, 2 for FEQ.
pub fn exec_fcmp_s(hart: &mut Hart, inst: u32, kind: u8) -> (r: Result<(), Exception>)
    requires
        old(hart).wf(),
        kind <= 2,
    ensures
        final (hart).wf(),
        final (hart).pc == old(hart).pc && final (hart).mode == old(hart).mode && final (hart).wfi
            == old(hart).wfi && final (hart).table == old(hart).table && final (hart).fregs@ == old(
            hart,
        ).fregs@,
        (old(hart).csr@[crate::csr::MSTATUS as int] >> 13) & 0x3 == 0 ==> r == Err::<
            (),
            Exception,
        >(Exception::IllegalInstruction) && *final (hart) == *old(hart),
        ({
            let fs_on = (old(hart).csr@[crate::csr::MSTATUS as int] >> 13) & 0x3 != 0;
            let a = spec_unbox(old(hart).fregs@[spec_rs1(inst)]);
            let b = spec_unbox(old(hart).fregs@[spec_rs2(inst)]);
            let v: u64 = if (kind == 2 && crate::fputil::spec_f32_eq(a, b)) || (kind == 1
                && crate::fputil::spec_f32_lt(a, b)) || (kind == 0 && crate::fputil::spec_f32_le(
                a,
                b,
            )) {
                1
            } else {
                0
            };
            fs_on ==> r == Ok::<(), Exception>(()) && final (hart).regs@ == spec_set_reg(
                old(hart).regs@,
                spec_rd(inst),
                v,
            ) && final (hart).fregs@ == old(hart).fregs@
        }),
{
    fp_gate(hart, true)?;
    let a = unbox(hart.fregs.get(rs1_of(inst)));
    let b = unbox(hart.fregs.get(rs2_of(inst)));
    let (c, fl) = if kind == 2 {
        f32_eq(a, b)
    } else if kind == 1 {
        f32_lt(a, b)
    } else {
        f32_le(a, b)
    };
    let rd = rd_of(inst);
    let v: u64 = if c {
        1
    } else {
        0
    };
    hart.regs.set(rd, v);
    fp_flags(hart, fl);
    Ok(())
}

/// FCLASS.S: the one-hot category of rs1 into rd.
pub fn exec_fclass_s(hart: &mut Hart, inst: u32) -> (r: Result<(), Exception>)
    requires
        old(hart).wf(),
    ensures
        final (hart).wf(),
        only_fp_changed(old(hart), final (hart)) || only_regs_changed(old(hart), final (hart)),
        (old(hart).csr@[crate::csr::MSTATUS as int] >> 13) & 0x3 == 0 ==> r == Err::<
            (),
            Exception,
        >(Exception::IllegalInstruction) && *final (hart) == *old(hart),
        ({
            let fs_on = (old(hart).csr@[crate::csr::MSTATUS as int] >> 13) & 0x3 != 0;
            let a = spec_unbox(old(hart).fregs@[spec_rs1(inst)]);
            fs_on ==> r == Ok::<(), Exception>(()) && final (hart).regs@ == spec_set_reg(
                old(hart).regs@,
                spec_rd(inst),
                1u64 << crate::fputil::spec_f32_class_index(a),
            ) && final (hart).fregs@ == old(hart).fregs@ && final (hart).csr@ == old(hart).csr@
        }),
{
    fp_gate(hart, false)?;
    let a = unbox(hart.fregs.get(rs1_of(inst)));
    let v = f32_classify(a);
    let rd = rd_of(inst);
    hart.regs.set(rd, v);
    Ok(())
}

/// FMV.X.W: the raw low 32 bits of the float register,
/// sign-extended into rd.
pub fn exec_fmv_x_w(hart: &mut Hart, inst: u32) -> (r: Result<(), Exception>)
    requires
        old(hart).wf(),
    ensures
        final (hart).wf(),
        only_fp_changed(old(hart), final (hart)) || only_regs_changed(old(hart), final (hart)),
        (old(hart).csr@[crate::csr::MSTATUS as int] >> 13) & 0x3 == 0 ==> r == Err::<
            (),
            Exception,
        >(Exception::IllegalInstruction) && *final (hart) == *old(hart),
        ({
            let fs_on = (old(hart).csr@[crate::csr::MSTATUS as int] >> 13) & 0x3 != 0;
            fs_on ==> r == Ok::<(), Exception>(()) && final (hart).regs@ == spec_set_reg(
                old(hart).regs@,
                spec_rd(inst),
                (old(hart).fregs@[spec_rs1(inst)] as u32 as i32 as i64 as u64),
            ) && final (hart).fregs@ == old(hart).fregs@ && final (hart).csr@ == old(hart).csr@
        }),
{
    fp_gate(hart, false)?;
    let raw = hart.fregs.get(rs1_of(inst));
    #[verifier::truncate]
    let v = raw as u32 as i32 as i64 as u64;
    let rd = rd_of(inst);
    hart.regs.set(rd, v);
    Ok(())
}

/// FMV.W.X: the low 32 bits of rs1, NaN-boxed into the float
/// register.
pub fn exec_fmv_w_x(hart: &mut Hart, inst: u32) -> (r: Result<(), Exception>)
    requires
        old(hart).wf(),
    ensures
        final (hart).wf(),
        only_fp_changed(old(hart), final (hart)) || only_regs_changed(old(hart), final (hart)),
        (old(hart).csr@[crate::csr::MSTATUS as int] >> 13) & 0x3 == 0 ==> r == Err::<
            (),
            Exception,
        >(Exception::IllegalInstruction) && *final (hart) == *old(hart),
        ({
            let fs_on = (old(hart).csr@[crate::csr::MSTATUS as int] >> 13) & 0x3 != 0;
            fs_on ==> r == Ok::<(), Exception>(()) && final (hart).fregs@ == old(
                hart,
            ).fregs@.update(
                spec_rd(inst),
                ((old(hart).regs@[spec_rs1(inst)] as u32) as u64) | 0xFFFF_FFFF_0000_0000u64,
            ) && final (hart).csr@ == spec_fs_dirty(old(hart).csr@) && final (hart).regs@ == old(
                hart,
            ).regs@
        }),
{
    fp_gate(hart, true)?;
    let raw = hart.regs.get(rs1_of(inst));
    #[verifier::truncate]
    let low = raw as u32;
    let rd = rd_of(inst);
    let boxed = nanbox(low);
    hart.fregs.set(rd, boxed);
    Ok(())
}

/// The integer square root: the greatest `q` with `q * q <= n`.
pub fn isqrt128(n: u128) -> (q: u128)
    requires
        n < (1u128 << 106),
    ensures
        q * q <= n,
        n < (q + 1) * (q + 1),
        q <= (1u128 << 53),
{
    let mut lo: u128 = 0;
    let mut hi: u128 = 1u128 << 53;
    proof {
        assert((1u128 << 53) * (1u128 << 53) == (1u128 << 106)) by (bit_vector);
    }
    while hi - lo > 1
        invariant
            lo < hi <= (1u128 << 53),
            lo * lo <= n,
            n < hi * hi,
        decreases hi - lo,
    {
        let mid = lo + (hi - lo) / 2;
        proof {
            assert((1u128 << 53) * (1u128 << 53) == (1u128 << 106)) by (bit_vector);
            assert(mid * mid <= (1u128 << 53) * (1u128 << 53)) by (nonlinear_arith)
                requires
                    mid <= (1u128 << 53),
            ;
        }
        if mid * mid <= n {
            lo = mid;
        } else {
            hi = mid;
        }
    }
    lo
}

/// The packing half of a single-precision square root: `q` is the
/// integer root of the significand scaled to an even exponent, and the
/// result bits are `q` rounded by the remainder under mode `m` with
/// the biased exponent rebuilt; inexact is the only flag raised.
pub open spec fn spec_f32_sqrt_pack(sig: u64, eb: u32, m: u8, q: u128, bits: u32, fl: u8) -> bool {
    let shift: u32 = if eb % 2 == 1 {
        23
    } else {
        24
    };
    let eb2 = eb - shift;
    let n = (sig as u128) << shift;
    &&& q * q <= n
    &&& n < (q + 1) * (q + 1)
    &&& ({
        let rem_zero = q * q == n;
        let up: u128 = if m == 3 {
            if rem_zero {
                0
            } else {
                1
            }
        } else if m == 0 || m == 4 {
            if n - q * q > q {
                1
            } else {
                0
            }
        } else {
            0
        };
        let qr0 = (q + up) as u128;
        let biased0 = if eb2 / 2 >= 450 {
            eb2 / 2 - 450
        } else {
            1
        };
        let qr = if qr0 >= 0x100_0000 {
            0x80_0000u128
        } else {
            qr0
        };
        let biased1 = if qr0 >= 0x100_0000 {
            biased0 + 1
        } else {
            biased0
        };
        let frac_out = if qr >= 0x80_0000 {
            (qr - 0x80_0000) as u128
        } else {
            qr
        };
        let biased = if biased1 >= 0xFF {
            0xFEu32
        } else {
            biased1 as u32
        };
        let low = (frac_out as u32) & 0x7F_FFFF;
        &&& bits == vstd::wrapping::u32_specs::wrapping_add(biased << 23, low)
        &&& fl == (if rem_zero {
            0u8
        } else {
            0x01u8
        })
    })
}

/// What the square root of a positive, finite, nonzero binary32 value
/// returns: some normalization of the operand's significand together
/// with an integer root rounded and packed as `spec_f32_sqrt_pack`
/// says. The decomposition and the root are unique, so this pins the
/// result.
pub open spec fn spec_f32_sqrt_norm(a: u32, m: u8, bits: u32, fl: u8) -> bool {
    let be = (a >> 23) & 0xFF;
    let frac = a & 0x7F_FFFF;
    exists|sig: u64, eb: u32, q: u128|
        {
            &&& (if be != 0 {
                sig == ((frac | 0x80_0000) as u64) && eb == be + 1050
            } else {
                (exists|j: u32|
                    j <= 23 && sig == (#[trigger] ((frac as u64) << j)) && eb == 1051 - j)
                    && 0x80_0000 <= sig < 0x100_0000
            })
            &&& #[trigger] spec_f32_sqrt_pack(sig, eb, m, q, bits, fl)
        }
}

/// Square root of a positive, finite, nonzero binary32 value: the
/// significand is scaled to an even exponent, its exact integer root
/// taken, and the result rounded by the remainder; inexact is the only
/// flag such an input can raise.
fn sqrt_norm_f32(a: u32, m: u8) -> (r: (u32, u8))
    requires
        m <= 4,
        a & 0x7FFF_FFFF != 0,
        a >> 31 == 0,
        (a >> 23) & 0xFF != 0xFF,
    ensures
        spec_f32_sqrt_norm(a, m, r.0, r.1),
{
    let be = (a >> 23) & 0xFF;
    let frac = a & 0x7F_FFFF;
    proof {
        assert(a & 0x7F_FFFF < 0x80_0000 && 0x80_0000 <= (a & 0x7F_FFFF | 0x80_0000) < 0x100_0000
            && (a >> 23) & 0xFF < 0x100 && ((a & 0x7FFF_FFFF != 0 && (a >> 23) & 0xFF == 0) ==> a
            & 0x7F_FFFF != 0)) by (bit_vector)
            requires
                a >> 31 == 0,
                a & 0x7FFF_FFFF != 0,
        ;
    }
    let mut sig: u64;
    let mut eb: u32;
    let ghost j0: u32 = 0;
    let mut j: Ghost<u32> = Ghost(j0);
    if be == 0 {
        sig = frac as u64;
        eb = 1051;  // -149 + 1200
    } else {
        sig = (frac | 0x80_0000) as u64;
        eb = be + 1050;  // be - 150 + 1200
    }
    proof {
        crate::util::lemma_shl_step_u64(frac as u64, 0);
        crate::util::lemma_shl_step_u64(1u64, 0);
    }
    while sig < 0x80_0000
        invariant
            1 <= sig < 0x100_0000,
            frac == a & 0x7F_FFFF,
            be == (a >> 23) & 0xFF,
            be == 0 ==> j@ <= 23 && sig == ((frac as u64) << j@) && eb == 1051 - j@ && (1u64 << j@)
                <= sig,
            be != 0 ==> sig >= 0x80_0000 && sig == ((frac | 0x80_0000) as u64) && eb == be + 1050,
        decreases 0x100_0000 - sig,
    {
        proof {
            crate::util::lemma_shl_step_u64(frac as u64, j@);
            crate::util::lemma_shl_step_u64(1u64, j@);
            crate::util::lemma_shl_step_u64(1u64, (j@ + 1) as u32);
        }
        sig = sig * 2;
        eb = eb - 1;
        j = Ghost((j@ + 1) as u32);
    }
    // scale by 23 or 24 bits so the remaining exponent is even
    let shift: u32 = if eb % 2 == 1 {
        23
    } else {
        24
    };
    let eb2 = eb - shift;
    let sw = sig as u128;
    proof {
        assert(sw << 23 == sw * 0x80_0000u128 && sw << 24 == sw * 0x100_0000u128
            && 0x100_0000u128 * 0x100_0000u128 < (1u128 << 106)) by (bit_vector)
            requires
                sw < 0x100_0000,
        ;
        assert(sw * 0x80_0000u128 < 0x100_0000u128 * 0x100_0000u128 && sw * 0x100_0000u128
            < 0x100_0000u128 * 0x100_0000u128) by (nonlinear_arith)
            requires
                sw < 0x100_0000,
        ;
    }
    let n = sw << shift;
    let q0 = isqrt128(n);
    proof {
        assert((1u128 << 53) * (1u128 << 53) == (1u128 << 106)) by (bit_vector);
        assert(q0 * q0 <= n < (1u128 << 53) * (1u128 << 53)) by (nonlinear_arith)
            requires
                q0 * q0 <= n,
                n < (1u128 << 106),
                (1u128 << 53) * (1u128 << 53) == (1u128 << 106),
        ;
    }
    let rem_zero = q0 * q0 == n;
    let up: u128 = if m == 3 {
        if rem_zero {
            0
        } else {
            1
        }
    } else if m == 0 || m == 4 {
        if n - q0 * q0 > q0 {
            1
        } else {
            0
        }
    } else {
        0
    };
    let mut qr: u128 = q0 + up;
    let mut biased: u32 = if eb2 / 2 >= 450 {
        eb2 / 2 - 450
    } else {
        1
    };
    if qr >= 0x100_0000 {
        qr = 0x80_0000;
        biased = biased + 1;
    }
    let frac_out: u128 = if qr >= 0x80_0000 {
        qr - 0x80_0000
    } else {
        qr
    };
    if biased >= 0xFF {
        biased = 0xFE;
    }
    #[verifier::truncate]
    let low = (frac_out as u32) & 0x7F_FFFF;
    let bits = ((biased as u32) << 23).wrapping_add(low);
    let fl: u8 = if rem_zero {
        0
    } else {
        0x01
    };
    proof {
        assert(spec_f32_sqrt_pack(sig, eb, m, q0, bits, fl));
        assert(spec_f32_sqrt_norm(a, m, bits, fl));
    }
    (bits, fl)
}

/// The packing half of a double-precision square root, as
/// `spec_f32_sqrt_pack` with the wider fields; the significand is
/// doubled when its exponent is odd (52 is even, so the scale shift
/// keeps the parity).
pub open spec fn spec_f64_sqrt_pack(sig: u64, eb: u32, m: u8, q: u128, bits: u64, fl: u8) -> bool {
    let sig2 = if eb % 2 == 1 {
        (sig * 2) as u64
    } else {
        sig
    };
    let eb2 = if eb % 2 == 1 {
        (eb - 1) as u32
    } else {
        eb
    };
    let n = (sig2 as u128) << 52;
    &&& q * q <= n
    &&& n < (q + 1) * (q + 1)
    &&& ({
        let rem_zero = q * q == n;
        let up: u128 = if m == 3 {
            if rem_zero {
                0
            } else {
                1
            }
        } else if m == 0 || m == 4 {
            if n - q * q > q {
                1
            } else {
                0
            }
        } else {
            0
        };
        let qr0 = (q + up) as u128;
        let biased0 = if eb2 / 2 >= 151 {
            eb2 / 2 + 449
        } else {
            1
        };
        let qr = if qr0 >= 0x20_0000_0000_0000 {
            0x10_0000_0000_0000u128
        } else {
            qr0
        };
        let biased1 = if qr0 >= 0x20_0000_0000_0000 {
            biased0 + 1
        } else {
            biased0
        };
        let frac_out = if qr >= 0x10_0000_0000_0000 {
            (qr - 0x10_0000_0000_0000) as u128
        } else {
            qr
        };
        let biased = if biased1 >= 0x7FF {
            0x7FEu32
        } else {
            biased1 as u32
        };
        let low = (frac_out as u64) & 0xF_FFFF_FFFF_FFFF;
        &&& bits == vstd::wrapping::u64_specs::wrapping_add((biased as u64) << 52, low)
        &&& fl == (if rem_zero {
            0u8
        } else {
            0x01u8
        })
    })
}

/// What the square root of a positive, finite, nonzero binary64 value
/// returns, as `spec_f32_sqrt_norm` with the wider fields.
pub open spec fn spec_f64_sqrt_norm(a: u64, m: u8, bits: u64, fl: u8) -> bool {
    let be = ((a >> 52) & 0x7FF) as u32;
    let frac = a & 0xF_FFFF_FFFF_FFFF;
    exists|sig: u64, eb: u32, q: u128|
        {
            &&& (if be != 0 {
                sig == (frac | 0x10_0000_0000_0000) && eb == be + 125
            } else {
                (exists|j: u32| j <= 52 && sig == (#[trigger] (frac << j)) && eb == 126 - j)
                    && 0x10_0000_0000_0000 <= sig < 0x20_0000_0000_0000
            })
            &&& #[trigger] spec_f64_sqrt_pack(sig, eb, m, q, bits, fl)
        }
}

/// Square root of a positive, finite, nonzero binary64 value, as in
/// `sqrt_norm_f32` with the wider fields.
pub(crate) fn sqrt_norm_f64(a: u64, m: u8) -> (r: (u64, u8))
    requires
        m <= 4,
        a & 0x7FFF_FFFF_FFFF_FFFF != 0,
        a >> 63 == 0,
        (a >> 52) & 0x7FF != 0x7FF,
    ensures
        spec_f64_sqrt_norm(a, m, r.0, r.1),
{
    let be = ((a >> 52) & 0x7FF) as u32;
    let frac = a & 0xF_FFFF_FFFF_FFFF;
    proof {
        assert(a & 0xF_FFFF_FFFF_FFFF < 0x10_0000_0000_0000 && 0x10_0000_0000_0000 <= (a
            & 0xF_FFFF_FFFF_FFFF | 0x10_0000_0000_0000) < 0x20_0000_0000_0000 && (a >> 52) & 0x7FF
            < 0x800 && ((a & 0x7FFF_FFFF_FFFF_FFFF != 0 && (a >> 52) & 0x7FF == 0) ==> a
            & 0xF_FFFF_FFFF_FFFF != 0)) by (bit_vector)
            requires
                a >> 63 == 0,
                a & 0x7FFF_FFFF_FFFF_FFFF != 0,
        ;
    }
    let mut sig: u64;
    let mut eb: u32;
    let ghost j0: u32 = 0;
    let mut j: Ghost<u32> = Ghost(j0);
    if be == 0 {
        sig = frac;
        eb = 126;  // -1074 + 1200
    } else {
        sig = frac | 0x10_0000_0000_0000;
        eb = be + 125;  // be - 1075 + 1200
    }
    proof {
        crate::util::lemma_shl_step_u64(frac, 0);
        crate::util::lemma_shl_step_u64(1u64, 0);
    }
    while sig < 0x10_0000_0000_0000
        invariant
            1 <= sig < 0x20_0000_0000_0000,
            frac == a & 0xF_FFFF_FFFF_FFFF,
            be == ((a >> 52) & 0x7FF) as u32,
            be == 0 ==> j@ <= 52 && sig == (frac << j@) && eb == 126 - j@ && (1u64 << j@) <= sig,
            be != 0 ==> sig >= 0x10_0000_0000_0000 && sig == (frac | 0x10_0000_0000_0000) && eb
                == be + 125,
        decreases 0x20_0000_0000_0000 - sig,
    {
        proof {
            crate::util::lemma_shl_step_u64(frac, j@);
            crate::util::lemma_shl_step_u64(1u64, j@);
            crate::util::lemma_shl_step_u64(1u64, (j@ + 1) as u32);
        }
        sig = sig * 2;
        eb = eb - 1;
        j = Ghost((j@ + 1) as u32);
    }
    let ghost sign: u64 = sig;
    let ghost ebn: u32 = eb;
    if eb % 2 == 1 {
        sig = sig * 2;
        eb = eb - 1;
    }
    let sw = sig as u128;
    proof {
        assert(sw << 52 == sw * 0x10_0000_0000_0000u128) by (bit_vector)
            requires
                sw < 0x40_0000_0000_0000,
        ;
        assert(sw * 0x10_0000_0000_0000u128 < 0x40_0000_0000_0000u128 * 0x10_0000_0000_0000u128)
            by (nonlinear_arith)
            requires
                sw < 0x40_0000_0000_0000,
        ;
        assert(0x40_0000_0000_0000u128 * 0x10_0000_0000_0000u128 == (1u128 << 106)) by (bit_vector);
    }
    let n = sw << 52;
    let q0 = isqrt128(n);
    proof {
        assert((1u128 << 53) * (1u128 << 53) == (1u128 << 106)) by (bit_vector);
        assert(q0 * q0 <= n < (1u128 << 53) * (1u128 << 53)) by (nonlinear_arith)
            requires
                q0 * q0 <= n,
                n < (1u128 << 106),
                (1u128 << 53) * (1u128 << 53) == (1u128 << 106),
        ;
    }
    let rem_zero = q0 * q0 == n;
    let up: u128 = if m == 3 {
        if rem_zero {
            0
        } else {
            1
        }
    } else if m == 0 || m == 4 {
        if n - q0 * q0 > q0 {
            1
        } else {
            0
        }
    } else {
        0
    };
    let mut qr: u128 = q0 + up;
    let mut biased: u32 = if eb / 2 >= 151 {
        eb / 2 + 449
    } else {
        1
    };
    if qr >= 0x20_0000_0000_0000 {
        qr = 0x10_0000_0000_0000;
        biased = biased + 1;
    }
    let frac_out: u128 = if qr >= 0x10_0000_0000_0000 {
        qr - 0x10_0000_0000_0000
    } else {
        qr
    };
    if biased >= 0x7FF {
        biased = 0x7FE;
    }
    #[verifier::truncate]
    let low = (frac_out as u64) & 0xF_FFFF_FFFF_FFFF;
    let bits = ((biased as u64) << 52).wrapping_add(low);
    let fl: u8 = if rem_zero {
        0
    } else {
        0x01
    };
    proof {
        assert(spec_f64_sqrt_pack(sign, ebn, m, q0, bits, fl));
        assert(spec_f64_sqrt_norm(a, m, bits, fl));
    }
    (bits, fl)
}

/// FSQRT.S: exact results for zeroes, infinity and NaN or negative
/// operands; positive finite operands take the integer-root path.
pub fn exec_fsqrt_s(hart: &mut Hart, inst: u32) -> (r: Result<(), Exception>)
    requires
        old(hart).wf(),
    ensures
        final (hart).wf(),
        only_fp_changed(old(hart), final (hart)),
        (old(hart).csr@[crate::csr::MSTATUS as int] >> 13) & 0x3 == 0 ==> r == Err::<
            (),
            Exception,
        >(Exception::IllegalInstruction) && *final (hart) == *old(hart),
        ({
            let frm = ((old(hart).csr@[crate::csr::FCSR as int] >> 5) & 0x7) as u8;
            let fs_on = (old(hart).csr@[crate::csr::MSTATUS as int] >> 13) & 0x3 != 0;
            let a = spec_unbox(old(hart).fregs@[spec_rs1(inst)]);
            &&& (fs_on ==> (spec_round_mode(spec_rm(inst), frm) matches Err(e) ==> r == Err::<
                (),
                Exception,
            >(e)))
            &&& (fs_on ==> (spec_round_mode(spec_rm(inst), frm) matches Ok(m) ==> r == Ok::<
                (),
                Exception,
            >(()) && final (hart).regs@ == old(hart).regs@ && (crate::fputil::spec_f32_is_nan(a)
                || (a >> 31 == 1 && a & 0x7FFF_FFFF != 0) ==> final (hart).fregs@ == old(
                hart,
            ).fregs@.update(
                spec_rd(inst),
                (crate::fputil::F32_QNAN as u64) | 0xFFFF_FFFF_0000_0000u64,
            )) && (!crate::fputil::spec_f32_is_nan(a) && a >> 31 == 0 && a & 0x7FFF_FFFF != 0 && a
                != 0x7F80_0000 ==> (exists|bits: u32, fl: u8|
                #[trigger] spec_f32_sqrt_norm(a, m, bits, fl) && final (hart).fregs@ == old(
                    hart,
                ).fregs@.update(spec_rd(inst), (bits as u64) | 0xFFFF_FFFF_0000_0000u64) && final (
                hart).csr@ == spec_acc_fflags(spec_fs_dirty(old(hart).csr@), fl)))))
        }),
{
    fp_gate(hart, true)?;
    let frm = read_frm(hart);
    let m = match round_mode(rm_of(inst), frm) {
        Ok(m) => m,
        Err(e) => {
            return Err(e);
        },
    };
    let a = unbox(hart.fregs.get(rs1_of(inst)));
    let nan = (a >> 23) & 0xFF == 0xFF && a & 0x7F_FFFF != 0;
    let snan = nan && (a >> 22) & 1 == 0;
    let rd = rd_of(inst);
    let (bits, fl): (u32, u8) = if nan {
        (F32_QNAN, if snan {
            0x10
        } else {
            0
        })
    } else if a >> 31 == 1 && a & 0x7FFF_FFFF != 0 {
        (F32_QNAN, 0x10)
    } else if a & 0x7FFF_FFFF == 0 || a == 0x7F80_0000 {
        (a, 0)
    } else {
        proof {
            assert((a >> 23) & 0xFF != 0xFF && a >> 31 == 0) by (bit_vector)
                requires
                    !((a >> 23) & 0xFF == 0xFF && a & 0x7F_FFFF != 0),
                    a != 0x7F80_0000,
                    !(a >> 31 == 1 && a & 0x7FFF_FFFF != 0),
                    a & 0x7FFF_FFFF != 0,
            ;
        }
        sqrt_norm_f32(a, m)
    };
    let boxed = nanbox(bits);
    hart.fregs.set(rd, boxed);
    fp_flags(hart, fl);
    Ok(())
}

/// FLW: load a word and NaN-box it into the float register.
pub fn exec_flw(hart: &mut Hart, mmu: &mut MMU, inst: u32) -> (r: Result<(), Exception>)
    requires
        old(hart).wf(),
        old(mmu).wf(),
    ensures
        final (hart).wf(),
        final (mmu).wf(),
        final (mmu).ram() == old(mmu).ram(),
        final (mmu).reservations() == old(mmu).reservations(),
        only_fp_changed(old(hart), final (hart)),
        (old(hart).csr@[crate::csr::MSTATUS as int] >> 13) & 0x3 == 0 ==> r == Err::<
            (),
            Exception,
        >(Exception::IllegalInstruction) && *final (hart) == *old(hart),
        ({
            let fs_on = (old(hart).csr@[crate::csr::MSTATUS as int] >> 13) & 0x3 != 0;
            let addr = vstd::wrapping::u64_specs::wrapping_add(
                old(hart).regs@[spec_rs1(inst)],
                spec_imm_i(inst),
            );
            let t = spec_translate(
                old(mmu).ram(),
                old(hart).csr@[crate::csr::SATP as int],
                old(hart).csr@[crate::csr::MSTATUS as int],
                spec_mode_encoding(old(hart).mode),
                addr,
                AccessType::Read,
            );
            fs_on && addr % 4 == 0 ==> ((t matches Err(e) ==> r == Err::<(), Exception>(e)) && (
            t matches Ok(pa) ==> (ram_range(pa, 4) ==> r == Ok::<(), Exception>(()) && final (
            hart).fregs@ == old(hart).fregs@.update(
                spec_rd(inst),
                (crate::memory::spec_read_u32(old(mmu).ram(), pa) as u64)
                    | 0xFFFF_FFFF_0000_0000u64,
            ))))
        }),
{
    fp_gate(hart, false)?;
    let rd = rd_of(inst);
    let address = hart.regs.get(rs1_of(inst)).wrapping_add(imm_i(inst));
    let mode = hart.mode.as_u8();
    let data = match mmu.read32(&hart.csr, mode, address) {
        Ok(d) => d,
        Err(e) => {
            return Err(e);
        },
    };
    hart.csr.write_mstatus_fs(0x3);
    let boxed = nanbox(data);
    hart.fregs.set(rd, boxed);
    Ok(())
}

/// FSW: store the low word of the float register, unboxed raw.
pub fn exec_fsw(hart: &mut Hart, mmu: &mut MMU, inst: u32) -> (r: Result<(), Exception>)
    requires
        old(hart).wf(),
        old(mmu).wf(),
    ensures
        final (hart).wf(),
        final (mmu).wf(),
        only_fp_changed(old(hart), final (hart)),
        final (hart).fregs@ == old(hart).fregs@,
        (old(hart).csr@[crate::csr::MSTATUS as int] >> 13) & 0x3 == 0 ==> r == Err::<
            (),
            Exception,
        >(Exception::IllegalInstruction) && *final (hart) == *old(hart) && final (mmu).ram() == old(
            mmu,
        ).ram(),
        ({
            let fs_on = (old(hart).csr@[crate::csr::MSTATUS as int] >> 13) & 0x3 != 0;
            let addr = vstd::wrapping::u64_specs::wrapping_add(
                old(hart).regs@[spec_rs1(inst)],
                spec_imm_s(inst),
            );
            let t = spec_translate(
                old(mmu).ram(),
                old(hart).csr@[crate::csr::SATP as int],
                old(hart).csr@[crate::csr::MSTATUS as int],
                spec_mode_encoding(old(hart).mode),
                addr,
                AccessType::Write,
            );
            fs_on && addr % 4 == 0 ==> ((t matches Err(e) ==> r == Err::<(), Exception>(e) && final (
            mmu).ram() == old(mmu).ram()) && (t matches Ok(pa) ==> (ram_range(pa, 4) ==> r == Ok::<
                (),
                Exception,
            >(()) && final (mmu).ram() == crate::memory::spec_write_u32(
                old(mmu).ram(),
                pa,
                (old(hart).fregs@[spec_rs2(inst)] as u32),
            ))))
        }),
{
    fp_gate(hart, false)?;
    let address = hart.regs.get(rs1_of(inst)).wrapping_add(imm_s(inst));
    let raw = hart.fregs.get(rs2_of(inst));
    #[verifier::truncate]
    let data = raw as u32;
    let mode = hart.mode.as_u8();
    mmu.write32(&hart.csr, mode, address, data)
}

/// What the conversions from single precision to an integer register
/// produce: a NaN converts to the largest value of the target type
/// with the invalid flag, everything else follows the arithmetic
/// crate's saturating conversion, W-width results sign-extended.
pub open spec fn spec_fcvt_int_from_f32(a: u32, m: u8, signed: bool, width: u8) -> (u64, u8) {
    if crate::fputil::spec_f32_is_nan(a) {
        (
            if signed && width == 32 {
                0x7FFF_FFFFu64
            } else if signed {
                0x7FFF_FFFF_FFFF_FFFFu64
            } else {
                0xFFFF_FFFF_FFFF_FFFFu64
            },
            0x10,
        )
    } else if signed {
        (
            (spec_f32_to_i(a, width, m).0 as u64),
            spec_fflags_of_status(spec_f32_to_i(a, width, m).1),
        )
    } else if width == 32 {
        (
            (spec_f32_to_u(a, width, m).0 as u32 as i32 as i64 as u64),
            spec_fflags_of_status(spec_f32_to_u(a, width, m).1),
        )
    } else {
        (spec_f32_to_u(a, width, m).0, spec_fflags_of_status(spec_f32_to_u(a, width, m).1))
    }
}

/// FCVT.{W,WU,L,LU}.S: single precision to an integer register.
pub fn exec_fcvt_int_s(hart: &mut Hart, inst: u32, signed: bool, width: u8) -> (r: Result<
    (),
    Exception,
>)
    requires
        old(hart).wf(),
        width == 32 || width == 64,
    ensures
        final (hart).wf(),
        final (hart).pc == old(hart).pc && final (hart).mode == old(hart).mode && final (hart).wfi
            == old(hart).wfi && final (hart).table == old(hart).table,
        final (hart).fregs@ == old(hart).fregs@,
        (old(hart).csr@[crate::csr::MSTATUS as int] >> 13) & 0x3 == 0 ==> r == Err::<
            (),
            Exception,
        >(Exception::IllegalInstruction) && *final (hart) == *old(hart),
        ({
            let frm = ((old(hart).csr@[crate::csr::FCSR as int] >> 5) & 0x7) as u8;
            let fs_on = (old(hart).csr@[crate::csr::MSTATUS as int] >> 13) & 0x3 != 0;
            let a = spec_unbox(old(hart).fregs@[spec_rs1(inst)]);
            &&& (fs_on ==> (spec_round_mode(spec_rm(inst), frm) matches Err(e) ==> r == Err::<
                (),
                Exception,
            >(e)))
            &&& (fs_on ==> (spec_round_mode(spec_rm(inst), frm) matches Ok(m) ==> r == Ok::<
                (),
                Exception,
            >(()) && final (hart).regs@ == spec_set_reg(
                old(hart).regs@,
                spec_rd(inst),
                spec_fcvt_int_from_f32(a, m, signed, width).0,
            ) && final (hart).csr@ == spec_acc_fflags(
                spec_fs_dirty(old(hart).csr@),
                spec_fcvt_int_from_f32(a, m, signed, width).1,
            )))
        }),
{
    fp_gate(hart, true)?;
    let frm = read_frm(hart);
    let m = match round_mode(rm_of(inst), frm) {
        Ok(m) => m,
        Err(e) => {
            return Err(e);
        },
    };
    let a = unbox(hart.fregs.get(rs1_of(inst)));
    let nan = (a >> 23) & 0xFF == 0xFF && a & 0x7F_FFFF != 0;
    let (v, fl): (u64, u8) = if nan {
        (
            if signed && width == 32 {
                0x7FFF_FFFF
            } else if signed {
                0x7FFF_FFFF_FFFF_FFFF
            } else {
                0xFFFF_FFFF_FFFF_FFFF
            },
            0x10,
        )
    } else if signed {
        let (val, st) = f32_to_i(a, width, m);
        #[verifier::truncate]
        let w = val as u64;
        (w, fflags_of_status(st))
    } else {
        let (val, st) = f32_to_u(a, width, m);
        if width == 32 {
            #[verifier::truncate]
            let w = val as u32 as i32 as i64 as u64;
            (w, fflags_of_status(st))
        } else {
            (val, fflags_of_status(st))
        }
    };
    let rd = rd_of(inst);
    hart.regs.set(rd, v);
    fp_flags(hart, fl);
    Ok(())
}

/// FCVT.S.{W,WU,L,LU}: an integer register into single precision.
pub fn exec_fcvt_s_int(hart: &mut Hart, inst: u32, signed: bool, width: u8) -> (r: Result<
    (),
    Exception,
>)
    requires
        old(hart).wf(),
        width == 32 || width == 64,
    ensures
        final (hart).wf(),
        only_fp_changed(old(hart), final (hart)),
        (old(hart).csr@[crate::csr::MSTATUS as int] >> 13) & 0x3 == 0 ==> r == Err::<
            (),
            Exception,
        >(Exception::IllegalInstruction) && *final (hart) == *old(hart),
        ({
            let frm = ((old(hart).csr@[crate::csr::FCSR as int] >> 5) & 0x7) as u8;
            let fs_on = (old(hart).csr@[crate::csr::MSTATUS as int] >> 13) & 0x3 != 0;
            let x = old(hart).regs@[spec_rs1(inst)];
            let res = if signed && width == 32 {
                spec_f32_from_i(x as u32 as i32 as i64, m_of(spec_rm(inst), frm))
            } else if signed {
                spec_f32_from_i(x as i64, m_of(spec_rm(inst), frm))
            } else if width == 32 {
                spec_f32_from_u((x as u32) as u64, m_of(spec_rm(inst), frm))
            } else {
                spec_f32_from_u(x, m_of(spec_rm(inst), frm))
            };
            &&& (fs_on ==> (spec_round_mode(spec_rm(inst), frm) matches Err(e) ==> r == Err::<
                (),
                Exception,
            >(e)))
            &&& (fs_on ==> (spec_round_mode(spec_rm(inst), frm) matches Ok(m) ==> r == Ok::<
                (),
                Exception,
            >(()) && final (hart).fregs@ == old(hart).fregs@.update(
                spec_rd(inst),
                (res.0 as u64) | 0xFFFF_FFFF_0000_0000u64,
            ) && final (hart).csr@ == spec_acc_fflags(
                spec_fs_dirty(old(hart).csr@),
                spec_fflags_of_status(res.1),
            ) && final (hart).regs@ == old(hart).regs@))
        }),
{
    fp_gate(hart, true)?;
    let frm = read_frm(hart);
    let m = match round_mode(rm_of(inst), frm) {
        Ok(m) => m,
        Err(e) => {
            return Err(e);
        },
    };
    let x = hart.regs.get(rs1_of(inst));
    let (bits, st): (u32, u8) = if signed && width == 32 {
        #[verifier::truncate]
        let arg = x as u32 as i32 as i64;
        f32_from_i(arg, m)
    } else if signed {
        #[verifier::truncate]
        let arg = x as i64;
        f32_from_i(arg, m)
    } else if width == 32 {
        #[verifier::truncate]
        let arg = (x as u32) as u64;
        f32_from_u(arg, m)
    } else {
        f32_from_u(x, m)
    };
    let rd = rd_of(inst);
    let boxed = nanbox(bits);
    hart.fregs.set(rd, boxed);
    fp_flags(hart, fflags_of_status(st));
    Ok(())
}

/// The resolved rounding mode when resolution succeeds (callers pair
/// this with `spec_round_mode` being `Ok`).
pub open spec fn m_of(rm: u8, frm: u8) -> u8 {
    if rm <= 4 {
        rm
    } else {
        frm
    }
}

} // verus!
