//! The base integer instruction set: arithmetic, logic, shifts,
//! branches, jumps, loads, stores, fences and environment calls.

use vstd::prelude::*;
use crate::hart::{Hart, spec_set_reg, only_regs_changed, only_regs_pc_changed, spec_mode_encoding};
use crate::fields::{
    rd_of,
    rs1_of,
    rs2_of,
    imm_i,
    imm_s,
    imm_b,
    imm_u,
    imm_j,
    spec_rd,
    spec_rs1,
    spec_rs2,
    spec_imm_i,
    spec_imm_s,
    spec_imm_b,
    spec_imm_u,
    spec_imm_j,
};
use crate::memory::ram_range;
use crate::mmu::{MMU, AccessType, spec_translate};
use crate::trap::Exception;

verus! {

/// LUI: load the U-type immediate.
pub fn exec_lui(hart: &mut Hart, inst: u32) -> (r: Result<(), Exception>)
    requires
        old(hart).wf(),
    ensures
        final (hart).wf(),
        only_regs_changed(old(hart), final (hart)),
        r == Ok::<(), Exception>(()),
        final (hart).regs@ == spec_set_reg(
            old(hart).regs@,
            spec_rd(inst),
            spec_imm_u(inst),
        ),
{
    let rd = rd_of(inst);
    let v = imm_u(inst);
    hart.regs.set(rd, v);
    Ok(())
}
/// AUIPC: the pc plus the U-type immediate.
pub fn exec_auipc(hart: &mut Hart, inst: u32) -> (r: Result<(), Exception>)
    requires
        old(hart).wf(),
    ensures
        final (hart).wf(),
        only_regs_changed(old(hart), final (hart)),
        r == Ok::<(), Exception>(()),
        final (hart).regs@ == spec_set_reg(
            old(hart).regs@,
            spec_rd(inst),
            vstd::wrapping::u64_specs::wrapping_add(old(hart).pc, spec_imm_u(inst)),
        ),
{
    let rd = rd_of(inst);
    let v = hart.pc.wrapping_add(imm_u(inst));
    hart.regs.set(rd, v);
    Ok(())
}
/// ADDI: rs1 plus the immediate, with wraparound.
pub fn exec_addi(hart: &mut Hart, inst: u32) -> (r: Result<(), Exception>)
    requires
        old(hart).wf(),
    ensures
        final (hart).wf(),
        only_regs_changed(old(hart), final (hart)),
        r == Ok::<(), Exception>(()),
        final (hart).regs@ == spec_set_reg(
            old(hart).regs@,
            spec_rd(inst),
            vstd::wrapping::u64_specs::wrapping_add(old(hart).regs@[spec_rs1(inst)], spec_imm_i(inst)),
        ),
{
    let rd = rd_of(inst);
    let a = hart.regs.get(rs1_of(inst));
    let v = a.wrapping_add(imm_i(inst));
    hart.regs.set(rd, v);
    Ok(())
}
/// SLTI: the signed set-less-than against the immediate.
pub fn exec_slti(hart: &mut Hart, inst: u32) -> (r: Result<(), Exception>)
    requires
        old(hart).wf(),
    ensures
        final (hart).wf(),
        only_regs_changed(old(hart), final (hart)),
        r == Ok::<(), Exception>(()),
        final (hart).regs@ == spec_set_reg(
            old(hart).regs@,
            spec_rd(inst),
            (if (old(hart).regs@[spec_rs1(inst)] as i64) < (spec_imm_i(inst) as i64) {
                1u64
            } else {
                0u64
            }),
        ),
{
    let rd = rd_of(inst);
    let a = hart.regs.get(rs1_of(inst));
    #[verifier::truncate]
    let sa = a as i64;
    #[verifier::truncate]
    let si = imm_i(inst) as i64;
    let v: u64 = if sa < si {
        1
    } else {
        0
    };
    hart.regs.set(rd, v);
    Ok(())
}
/// SLTIU: the unsigned set-less-than against the immediate.
pub fn exec_sltiu(hart: &mut Hart, inst: u32) -> (r: Result<(), Exception>)
    requires
        old(hart).wf(),
    ensures
        final (hart).wf(),
        only_regs_changed(old(hart), final (hart)),
        r == Ok::<(), Exception>(()),
        final (hart).regs@ == spec_set_reg(
            old(hart).regs@,
            spec_rd(inst),
            (if old(hart).regs@[spec_rs1(inst)] < spec_imm_i(inst) {
                1u64
            } else {
                0u64
            }),
        ),
{
    let rd = rd_of(inst);
    let a = hart.regs.get(rs1_of(inst));
    let v: u64 = if a < imm_i(inst) {
        1
    } else {
        0
    };
    hart.regs.set(rd, v);
    Ok(())
}
/// XORI: exclusive or with the immediate.
pub fn exec_xori(hart: &mut Hart, inst: u32) -> (r: Result<(), Exception>)
    requires
        old(hart).wf(),
    ensures
        final (hart).wf(),
        only_regs_changed(old(hart), final (hart)),
        r == Ok::<(), Exception>(()),
        final (hart).regs@ == spec_set_reg(
            old(hart).regs@,
            spec_rd(inst),
            old(hart).regs@[spec_rs1(inst)] ^ spec_imm_i(inst),
        ),
{
    let rd = rd_of(inst);
    let a = hart.regs.get(rs1_of(inst));
    let v = a ^ imm_i(inst);
    hart.regs.set(rd, v);
    Ok(())
}
/// ORI: inclusive or with the immediate.
pub fn exec_ori(hart: &mut Hart, inst: u32) -> (r: Result<(), Exception>)
    requires
        old(hart).wf(),
    ensures
        final (hart).wf(),
        only_regs_changed(old(hart), final (hart)),
        r == Ok::<(), Exception>(()),
        final (hart).regs@ == spec_set_reg(
            old(hart).regs@,
            spec_rd(inst),
            old(hart).regs@[spec_rs1(inst)] | spec_imm_i(inst),
        ),
{
    let rd = rd_of(inst);
    let a = hart.regs.get(rs1_of(inst));
    let v = a | imm_i(inst);
    hart.regs.set(rd, v);
    Ok(())
}
/// ANDI: and with the immediate.
pub fn exec_andi(hart: &mut Hart, inst: u32) -> (r: Result<(), Exception>)
    requires
        old(hart).wf(),
    ensures
        final (hart).wf(),
        only_regs_changed(old(hart), final (hart)),
        r == Ok::<(), Exception>(()),
        final (hart).regs@ == spec_set_reg(
            old(hart).regs@,
            spec_rd(inst),
            old(hart).regs@[spec_rs1(inst)] & spec_imm_i(inst),
        ),
{
    let rd = rd_of(inst);
    let a = hart.regs.get(rs1_of(inst));
    let v = a & imm_i(inst);
    hart.regs.set(rd, v);
    Ok(())
}
/// SLLI: shift left by the 6-bit immediate amount.
pub fn exec_slli(hart: &mut Hart, inst: u32) -> (r: Result<(), Exception>)
    requires
        old(hart).wf(),
    ensures
        final (hart).wf(),
        only_regs_changed(old(hart), final (hart)),
        r == Ok::<(), Exception>(()),
        final (hart).regs@ == spec_set_reg(
            old(hart).regs@,
            spec_rd(inst),
            old(hart).regs@[spec_rs1(inst)] << (((inst >> 20) & 0x3F) as u64),
        ),
{
    let rd = rd_of(inst);
    let a = hart.regs.get(rs1_of(inst));
    proof {
        crate::util::lemma_mask_bounds_u32(inst >> 20);
    }
    let sh = ((inst >> 20) & 0x3F) as u64;
    let v = a << sh;
    hart.regs.set(rd, v);
    Ok(())
}
/// SRLI: logical shift right by the 6-bit immediate amount.
pub fn exec_srli(hart: &mut Hart, inst: u32) -> (r: Result<(), Exception>)
    requires
        old(hart).wf(),
    ensures
        final (hart).wf(),
        only_regs_changed(old(hart), final (hart)),
        r == Ok::<(), Exception>(()),
        final (hart).regs@ == spec_set_reg(
            old(hart).regs@,
            spec_rd(inst),
            old(hart).regs@[spec_rs1(inst)] >> (((inst >> 20) & 0x3F) as u64),
        ),
{
    let rd = rd_of(inst);
    let a = hart.regs.get(rs1_of(inst));
    proof {
        crate::util::lemma_mask_bounds_u32(inst >> 20);
    }
    let sh = ((inst >> 20) & 0x3F) as u64;
    let v = a >> sh;
    hart.regs.set(rd, v);
    Ok(())
}
/// SRAI: arithmetic shift right by the 6-bit immediate amount.
pub fn exec_srai(hart: &mut Hart, inst: u32) -> (r: Result<(), Exception>)
    requires
        old(hart).wf(),
    ensures
        final (hart).wf(),
        only_regs_changed(old(hart), final (hart)),
        r == Ok::<(), Exception>(()),
        final (hart).regs@ == spec_set_reg(
            old(hart).regs@,
            spec_rd(inst),
            (((old(hart).regs@[spec_rs1(inst)] as i64) >> (((inst >> 20) & 0x3F) as u64)) as u64),
        ),
{
    let rd = rd_of(inst);
    let a = hart.regs.get(rs1_of(inst));
    proof {
        crate::util::lemma_mask_bounds_u32(inst >> 20);
    }
    let sh = ((inst >> 20) & 0x3F) as u64;
    #[verifier::truncate]
    let sa = a as i64;
    #[verifier::truncate]
    let v = (sa >> sh) as u64;
    hart.regs.set(rd, v);
    Ok(())
}
/// ADD: rs1 plus rs2, with wraparound.
pub fn exec_add(hart: &mut Hart, inst: u32) -> (r: Result<(), Exception>)
    requires
        old(hart).wf(),
    ensures
        final (hart).wf(),
        only_regs_changed(old(hart), final (hart)),
        r == Ok::<(), Exception>(()),
        final (hart).regs@ == spec_set_reg(
            old(hart).regs@,
            spec_rd(inst),
            vstd::wrapping::u64_specs::wrapping_add(old(hart).regs@[spec_rs1(inst)], old(hart).regs@[spec_rs2(inst)]),
        ),
{
    let rd = rd_of(inst);
    let a = hart.regs.get(rs1_of(inst));
    let b = hart.regs.get(rs2_of(inst));
    let v = a.wrapping_add(b);
    hart.regs.set(rd, v);
    Ok(())
}
/// SUB: rs1 minus rs2, with wraparound.
pub fn exec_sub(hart: &mut Hart, inst: u32) -> (r: Result<(), Exception>)
    requires
        old(hart).wf(),
    ensures
        final (hart).wf(),
        only_regs_changed(old(hart), final (hart)),
        r == Ok::<(), Exception>(()),
        final (hart).regs@ == spec_set_reg(
            old(hart).regs@,
            spec_rd(inst),
            vstd::wrapping::u64_specs::wrapping_sub(old(hart).regs@[spec_rs1(inst)], old(hart).regs@[spec_rs2(inst)]),
        ),
{
    let rd = rd_of(inst);
    let a = hart.regs.get(rs1_of(inst));
    let b = hart.regs.get(rs2_of(inst));
    let v = a.wrapping_sub(b);
    hart.regs.set(rd, v);
    Ok(())
}
/// SLL: shift left by the low six bits of rs2.
pub fn exec_sll(hart: &mut Hart, inst: u32) -> (r: Result<(), Exception>)
    requires
        old(hart).wf(),
    ensures
        final (hart).wf(),
        only_regs_changed(old(hart), final (hart)),
        r == Ok::<(), Exception>(()),
        final (hart).regs@ == spec_set_reg(
            old(hart).regs@,
            spec_rd(inst),
            old(hart).regs@[spec_rs1(inst)] << (old(hart).regs@[spec_rs2(inst)] & 0x3F),
        ),
{
    let rd = rd_of(inst);
    let a = hart.regs.get(rs1_of(inst));
    let b = hart.regs.get(rs2_of(inst));
    proof {
        crate::util::lemma_mask_bounds_u64(b);
    }
    let v = a << (b & 0x3F);
    hart.regs.set(rd, v);
    Ok(())
}
/// SLT: the signed set-less-than of rs1 and rs2.
pub fn exec_slt(hart: &mut Hart, inst: u32) -> (r: Result<(), Exception>)
    requires
        old(hart).wf(),
    ensures
        final (hart).wf(),
        only_regs_changed(old(hart), final (hart)),
        r == Ok::<(), Exception>(()),
        final (hart).regs@ == spec_set_reg(
            old(hart).regs@,
            spec_rd(inst),
            (if (old(hart).regs@[spec_rs1(inst)] as i64) < (old(hart).regs@[spec_rs2(inst)] as i64) {
                1u64
            } else {
                0u64
            }),
        ),
{
    let rd = rd_of(inst);
    let a = hart.regs.get(rs1_of(inst));
    let b = hart.regs.get(rs2_of(inst));
    #[verifier::truncate]
    let sa = a as i64;
    #[verifier::truncate]
    let sb = b as i64;
    let v: u64 = if sa < sb {
        1
    } else {
        0
    };
    hart.regs.set(rd, v);
    Ok(())
}
/// SLTU: the unsigned set-less-than of rs1 and rs2.
pub fn exec_sltu(hart: &mut Hart, inst: u32) -> (r: Result<(), Exception>)
    requires
        old(hart).wf(),
    ensures
        final (hart).wf(),
        only_regs_changed(old(hart), final (hart)),
        r == Ok::<(), Exception>(()),
        final (hart).regs@ == spec_set_reg(
            old(hart).regs@,
            spec_rd(inst),
            (if old(hart).regs@[spec_rs1(inst)] < old(hart).regs@[spec_rs2(inst)] {
                1u64
            } else {
                0u64
            }),
        ),
{
    let rd = rd_of(inst);
    let a = hart.regs.get(rs1_of(inst));
    let b = hart.regs.get(rs2_of(inst));
    let v: u64 = if a < b {
        1
    } else {
        0
    };
    hart.regs.set(rd, v);
    Ok(())
}
/// XOR of rs1 and rs2.
pub fn exec_xor(hart: &mut Hart, inst: u32) -> (r: Result<(), Exception>)
    requires
        old(hart).wf(),
    ensures
        final (hart).wf(),
        only_regs_changed(old(hart), final (hart)),
        r == Ok::<(), Exception>(()),
        final (hart).regs@ == spec_set_reg(
            old(hart).regs@,
            spec_rd(inst),
            old(hart).regs@[spec_rs1(inst)] ^ old(hart).regs@[spec_rs2(inst)],
        ),
{
    let rd = rd_of(inst);
    let a = hart.regs.get(rs1_of(inst));
    let b = hart.regs.get(rs2_of(inst));
    let v = a ^ b;
    hart.regs.set(rd, v);
    Ok(())
}
/// SRL: logical shift right by the low six bits of rs2.
pub fn exec_srl(hart: &mut Hart, inst: u32) -> (r: Result<(), Exception>)
    requires
        old(hart).wf(),
    ensures
        final (hart).wf(),
        only_regs_changed(old(hart), final (hart)),
        r == Ok::<(), Exception>(()),
        final (hart).regs@ == spec_set_reg(
            old(hart).regs@,
            spec_rd(inst),
            old(hart).regs@[spec_rs1(inst)] >> (old(hart).regs@[spec_rs2(inst)] & 0x3F),
        ),
{
    let rd = rd_of(inst);
    let a = hart.regs.get(rs1_of(inst));
    let b = hart.regs.get(rs2_of(inst));
    proof {
        crate::util::lemma_mask_bounds_u64(b);
    }
    let v = a >> (b & 0x3F);
    hart.regs.set(rd, v);
    Ok(())
}
/// SRA: arithmetic shift right by the low six bits of rs2.
pub fn exec_sra(hart: &mut Hart, inst: u32) -> (r: Result<(), Exception>)
    requires
        old(hart).wf(),
    ensures
        final (hart).wf(),
        only_regs_changed(old(hart), final (hart)),
        r == Ok::<(), Exception>(()),
        final (hart).regs@ == spec_set_reg(
            old(hart).regs@,
            spec_rd(inst),
            (((old(hart).regs@[spec_rs1(inst)] as i64) >> (old(hart).regs@[spec_rs2(inst)] & 0x3F)) as u64),
        ),
{
    let rd = rd_of(inst);
    let a = hart.regs.get(rs1_of(inst));
    let b = hart.regs.get(rs2_of(inst));
    proof {
        crate::util::lemma_mask_bounds_u64(b);
    }
    #[verifier::truncate]
    let sa = a as i64;
    #[verifier::truncate]
    let v = (sa >> (b & 0x3F)) as u64;
    hart.regs.set(rd, v);
    Ok(())
}
/// OR of rs1 and rs2.
pub fn exec_or(hart: &mut Hart, inst: u32) -> (r: Result<(), Exception>)
    requires
        old(hart).wf(),
    ensures
        final (hart).wf(),
        only_regs_changed(old(hart), final (hart)),
        r == Ok::<(), Exception>(()),
        final (hart).regs@ == spec_set_reg(
            old(hart).regs@,
            spec_rd(inst),
            old(hart).regs@[spec_rs1(inst)] | old(hart).regs@[spec_rs2(inst)],
        ),
{
    let rd = rd_of(inst);
    let a = hart.regs.get(rs1_of(inst));
    let b = hart.regs.get(rs2_of(inst));
    let v = a | b;
    hart.regs.set(rd, v);
    Ok(())
}
/// AND of rs1 and rs2.
pub fn exec_and(hart: &mut Hart, inst: u32) -> (r: Result<(), Exception>)
    requires
        old(hart).wf(),
    ensures
        final (hart).wf(),
        only_regs_changed(old(hart), final (hart)),
        r == Ok::<(), Exception>(()),
        final (hart).regs@ == spec_set_reg(
            old(hart).regs@,
            spec_rd(inst),
            old(hart).regs@[spec_rs1(inst)] & old(hart).regs@[spec_rs2(inst)],
        ),
{
    let rd = rd_of(inst);
    let a = hart.regs.get(rs1_of(inst));
    let b = hart.regs.get(rs2_of(inst));
    let v = a & b;
    hart.regs.set(rd, v);
    Ok(())
}
/// ADDIW: 32-bit add of rs1 and the immediate, sign-extended.
pub fn exec_addiw(hart: &mut Hart, inst: u32) -> (r: Result<(), Exception>)
    requires
        old(hart).wf(),
    ensures
        final (hart).wf(),
        only_regs_changed(old(hart), final (hart)),
        r == Ok::<(), Exception>(()),
        final (hart).regs@ == spec_set_reg(
            old(hart).regs@,
            spec_rd(inst),
            ((vstd::wrapping::i32_specs::wrapping_add(old(hart).regs@[spec_rs1(inst)] as u32 as i32, spec_imm_i(inst) as i32)) as i64 as u64),
        ),
{
    let rd = rd_of(inst);
    let a = hart.regs.get(rs1_of(inst));
    #[verifier::truncate]
    let a32 = a as u32;
    #[verifier::truncate]
    let i32v = imm_i(inst) as i32;
    #[verifier::truncate]
    let s = a32 as i32;
    #[verifier::truncate]
    let v = s.wrapping_add(i32v) as i64 as u64;
    hart.regs.set(rd, v);
    Ok(())
}
/// SLLIW: 32-bit shift left, sign-extended.
pub fn exec_slliw(hart: &mut Hart, inst: u32) -> (r: Result<(), Exception>)
    requires
        old(hart).wf(),
    ensures
        final (hart).wf(),
        only_regs_changed(old(hart), final (hart)),
        r == Ok::<(), Exception>(()),
        final (hart).regs@ == spec_set_reg(
            old(hart).regs@,
            spec_rd(inst),
            ((((old(hart).regs@[spec_rs1(inst)] as u32) << (((inst >> 20) & 0x1F) as u32)) as i32) as i64 as u64),
        ),
{
    let rd = rd_of(inst);
    let a = hart.regs.get(rs1_of(inst));
    proof {
        crate::util::lemma_mask_bounds_u32(inst >> 20);
    }
    let sh = ((inst >> 20) & 0x1F) as u32;
    #[verifier::truncate]
    let a32 = a as u32;
    #[verifier::truncate]
    let v = ((a32 << sh) as i32) as i64 as u64;
    hart.regs.set(rd, v);
    Ok(())
}
/// SRLIW: 32-bit logical shift right, sign-extended.
pub fn exec_srliw(hart: &mut Hart, inst: u32) -> (r: Result<(), Exception>)
    requires
        old(hart).wf(),
    ensures
        final (hart).wf(),
        only_regs_changed(old(hart), final (hart)),
        r == Ok::<(), Exception>(()),
        final (hart).regs@ == spec_set_reg(
            old(hart).regs@,
            spec_rd(inst),
            ((((old(hart).regs@[spec_rs1(inst)] as u32) >> (((inst >> 20) & 0x1F) as u32)) as i32) as i64 as u64),
        ),
{
    let rd = rd_of(inst);
    let a = hart.regs.get(rs1_of(inst));
    proof {
        crate::util::lemma_mask_bounds_u32(inst >> 20);
    }
    let sh = ((inst >> 20) & 0x1F) as u32;
    #[verifier::truncate]
    let a32 = a as u32;
    #[verifier::truncate]
    let v = ((a32 >> sh) as i32) as i64 as u64;
    hart.regs.set(rd, v);
    Ok(())
}
/// SRAIW: 32-bit arithmetic shift right, sign-extended.
pub fn exec_sraiw(hart: &mut Hart, inst: u32) -> (r: Result<(), Exception>)
    requires
        old(hart).wf(),
    ensures
        final (hart).wf(),
        only_regs_changed(old(hart), final (hart)),
        r == Ok::<(), Exception>(()),
        final (hart).regs@ == spec_set_reg(
            old(hart).regs@,
            spec_rd(inst),
            ((((old(hart).regs@[spec_rs1(inst)] as u32 as i32) >> (((inst >> 20) & 0x1F) as u32)) as i64) as u64),
        ),
{
    let rd = rd_of(inst);
    let a = hart.regs.get(rs1_of(inst));
    proof {
        crate::util::lemma_mask_bounds_u32(inst >> 20);
    }
    let sh = ((inst >> 20) & 0x1F) as u32;
    #[verifier::truncate]
    let a32 = a as u32;
    #[verifier::truncate]
    let s = a32 as i32;
    #[verifier::truncate]
    let v = (s >> sh) as i64 as u64;
    hart.regs.set(rd, v);
    Ok(())
}
/// ADDW: 32-bit add of rs1 and rs2, sign-extended.
pub fn exec_addw(hart: &mut Hart, inst: u32) -> (r: Result<(), Exception>)
    requires
        old(hart).wf(),
    ensures
        final (hart).wf(),
        only_regs_changed(old(hart), final (hart)),
        r == Ok::<(), Exception>(()),
        final (hart).regs@ == spec_set_reg(
            old(hart).regs@,
            spec_rd(inst),
            ((vstd::wrapping::i32_specs::wrapping_add(old(hart).regs@[spec_rs1(inst)] as u32 as i32, old(hart).regs@[spec_rs2(inst)] as u32 as i32)) as i64 as u64),
        ),
{
    let rd = rd_of(inst);
    let a = hart.regs.get(rs1_of(inst));
    let b = hart.regs.get(rs2_of(inst));
    #[verifier::truncate]
    let sa = a as u32 as i32;
    #[verifier::truncate]
    let sb = b as u32 as i32;
    #[verifier::truncate]
    let v = sa.wrapping_add(sb) as i64 as u64;
    hart.regs.set(rd, v);
    Ok(())
}
/// SUBW: 32-bit subtract of rs2 from rs1, sign-extended.
pub fn exec_subw(hart: &mut Hart, inst: u32) -> (r: Result<(), Exception>)
    requires
        old(hart).wf(),
    ensures
        final (hart).wf(),
        only_regs_changed(old(hart), final (hart)),
        r == Ok::<(), Exception>(()),
        final (hart).regs@ == spec_set_reg(
            old(hart).regs@,
            spec_rd(inst),
            ((vstd::wrapping::i32_specs::wrapping_sub(old(hart).regs@[spec_rs1(inst)] as u32 as i32, old(hart).regs@[spec_rs2(inst)] as u32 as i32)) as i64 as u64),
        ),
{
    let rd = rd_of(inst);
    let a = hart.regs.get(rs1_of(inst));
    let b = hart.regs.get(rs2_of(inst));
    #[verifier::truncate]
    let sa = a as u32 as i32;
    #[verifier::truncate]
    let sb = b as u32 as i32;
    #[verifier::truncate]
    let v = sa.wrapping_sub(sb) as i64 as u64;
    hart.regs.set(rd, v);
    Ok(())
}
/// SLLW: 32-bit shift left by the low five bits of rs2.
pub fn exec_sllw(hart: &mut Hart, inst: u32) -> (r: Result<(), Exception>)
    requires
        old(hart).wf(),
    ensures
        final (hart).wf(),
        only_regs_changed(old(hart), final (hart)),
        r == Ok::<(), Exception>(()),
        final (hart).regs@ == spec_set_reg(
            old(hart).regs@,
            spec_rd(inst),
            ((((old(hart).regs@[spec_rs1(inst)] as u32) << ((old(hart).regs@[spec_rs2(inst)] & 0x1F) as u32)) as i32) as i64 as u64),
        ),
{
    let rd = rd_of(inst);
    let a = hart.regs.get(rs1_of(inst));
    let b = hart.regs.get(rs2_of(inst));
    proof {
        crate::util::lemma_mask_bounds_u64(b);
    }
    #[verifier::truncate]
    let sh = (b & 0x1F) as u32;
    #[verifier::truncate]
    let a32 = a as u32;
    #[verifier::truncate]
    let v = ((a32 << sh) as i32) as i64 as u64;
    hart.regs.set(rd, v);
    Ok(())
}
/// SRLW: 32-bit logical shift right by the low five bits of rs2.
pub fn exec_srlw(hart: &mut Hart, inst: u32) -> (r: Result<(), Exception>)
    requires
        old(hart).wf(),
    ensures
        final (hart).wf(),
        only_regs_changed(old(hart), final (hart)),
        r == Ok::<(), Exception>(()),
        final (hart).regs@ == spec_set_reg(
            old(hart).regs@,
            spec_rd(inst),
            ((((old(hart).regs@[spec_rs1(inst)] as u32) >> ((old(hart).regs@[spec_rs2(inst)] & 0x1F) as u32)) as i32) as i64 as u64),
        ),
{
    let rd = rd_of(inst);
    let a = hart.regs.get(rs1_of(inst));
    let b = hart.regs.get(rs2_of(inst));
    proof {
        crate::util::lemma_mask_bounds_u64(b);
    }
    #[verifier::truncate]
    let sh = (b & 0x1F) as u32;
    #[verifier::truncate]
    let a32 = a as u32;
    #[verifier::truncate]
    let v = ((a32 >> sh) as i32) as i64 as u64;
    hart.regs.set(rd, v);
    Ok(())
}
/// SRAW: 32-bit arithmetic shift right by the low five bits of rs2.
pub fn exec_sraw(hart: &mut Hart, inst: u32) -> (r: Result<(), Exception>)
    requires
        old(hart).wf(),
    ensures
        final (hart).wf(),
        only_regs_changed(old(hart), final (hart)),
        r == Ok::<(), Exception>(()),
        final (hart).regs@ == spec_set_reg(
            old(hart).regs@,
            spec_rd(inst),
            ((((old(hart).regs@[spec_rs1(inst)] as u32 as i32) >> ((old(hart).regs@[spec_rs2(inst)] & 0x1F) as u32)) as i64) as u64),
        ),
{
    let rd = rd_of(inst);
    let a = hart.regs.get(rs1_of(inst));
    let b = hart.regs.get(rs2_of(inst));
    proof {
        crate::util::lemma_mask_bounds_u64(b);
    }
    #[verifier::truncate]
    let sh = (b & 0x1F) as u32;
    #[verifier::truncate]
    let s = a as u32 as i32;
    #[verifier::truncate]
    let v = (s >> sh) as i64 as u64;
    hart.regs.set(rd, v);
    Ok(())
}
/// JAL: write the link address and jump; the target is stored less the
/// instruction length, which the step loop adds back.
pub fn exec_jal(hart: &mut Hart, inst: u32, len: u64) -> (r: Result<(), Exception>)
    requires
        old(hart).wf(),
    ensures
        final (hart).wf(),
        only_regs_pc_changed(old(hart), final (hart)),
        r == Ok::<(), Exception>(()),
        final (hart).regs@ == spec_set_reg(
            old(hart).regs@,
            spec_rd(inst),
            vstd::wrapping::u64_specs::wrapping_add(old(hart).pc, len),
        ),
        final (hart).pc == vstd::wrapping::u64_specs::wrapping_sub(
            vstd::wrapping::u64_specs::wrapping_add(old(hart).pc, spec_imm_j(inst)),
            len,
        ),
{
    let rd = rd_of(inst);
    let link = hart.pc.wrapping_add(len);
    hart.pc = hart.pc.wrapping_add(imm_j(inst)).wrapping_sub(len);
    hart.regs.set(rd, link);
    Ok(())
}

/// JALR: write the link address and jump through rs1 plus the
/// immediate, clearing bit zero of the target.
pub fn exec_jalr(hart: &mut Hart, inst: u32, len: u64) -> (r: Result<(), Exception>)
    requires
        old(hart).wf(),
    ensures
        final (hart).wf(),
        only_regs_pc_changed(old(hart), final (hart)),
        r == Ok::<(), Exception>(()),
        final (hart).regs@ == spec_set_reg(
            old(hart).regs@,
            spec_rd(inst),
            vstd::wrapping::u64_specs::wrapping_add(old(hart).pc, len),
        ),
        final (hart).pc == vstd::wrapping::u64_specs::wrapping_sub(
            vstd::wrapping::u64_specs::wrapping_add(
                old(hart).regs@[spec_rs1(inst)],
                spec_imm_i(inst),
            ) & !1u64,
            len,
        ),
{
    let rd = rd_of(inst);
    let link = hart.pc.wrapping_add(len);
    let target = hart.regs.get(rs1_of(inst)).wrapping_add(imm_i(inst)) & !1u64;
    hart.pc = target.wrapping_sub(len);
    hart.regs.set(rd, link);
    Ok(())
}

/// BEQ: branch when rs1 equals rs2. The taken target is stored less the instruction length,
/// which the step loop adds back.
pub fn exec_beq(hart: &mut Hart, inst: u32, len: u64) -> (r: Result<(), Exception>)
    requires
        old(hart).wf(),
    ensures
        final (hart).wf(),
        only_regs_pc_changed(old(hart), final (hart)),
        final (hart).regs@ == old(hart).regs@,
        r == Ok::<(), Exception>(()),
        final (hart).pc == (if old(hart).regs@[spec_rs1(inst)] == old(hart).regs@[spec_rs2(inst)] {
            vstd::wrapping::u64_specs::wrapping_sub(
                vstd::wrapping::u64_specs::wrapping_add(old(hart).pc, spec_imm_b(inst)),
                len,
            )
        } else {
            old(hart).pc
        }),
{
    let a = hart.regs.get(rs1_of(inst));
    let b = hart.regs.get(rs2_of(inst));
    let taken = a == b;
    if taken {
        hart.pc = hart.pc.wrapping_add(imm_b(inst)).wrapping_sub(len);
    }
    Ok(())
}

/// BNE: branch when rs1 differs from rs2. The taken target is stored less the instruction length,
/// which the step loop adds back.
pub fn exec_bne(hart: &mut Hart, inst: u32, len: u64) -> (r: Result<(), Exception>)
    requires
        old(hart).wf(),
    ensures
        final (hart).wf(),
        only_regs_pc_changed(old(hart), final (hart)),
        final (hart).regs@ == old(hart).regs@,
        r == Ok::<(), Exception>(()),
        final (hart).pc == (if old(hart).regs@[spec_rs1(inst)] != old(hart).regs@[spec_rs2(inst)] {
            vstd::wrapping::u64_specs::wrapping_sub(
                vstd::wrapping::u64_specs::wrapping_add(old(hart).pc, spec_imm_b(inst)),
                len,
            )
        } else {
            old(hart).pc
        }),
{
    let a = hart.regs.get(rs1_of(inst));
    let b = hart.regs.get(rs2_of(inst));
    let taken = a != b;
    if taken {
        hart.pc = hart.pc.wrapping_add(imm_b(inst)).wrapping_sub(len);
    }
    Ok(())
}

/// BLT: branch on signed less-than. The taken target is stored less the instruction length,
/// which the step loop adds back.
pub fn exec_blt(hart: &mut Hart, inst: u32, len: u64) -> (r: Result<(), Exception>)
    requires
        old(hart).wf(),
    ensures
        final (hart).wf(),
        only_regs_pc_changed(old(hart), final (hart)),
        final (hart).regs@ == old(hart).regs@,
        r == Ok::<(), Exception>(()),
        final (hart).pc == (if (old(hart).regs@[spec_rs1(inst)] as i64) < (old(hart).regs@[spec_rs2(inst)] as i64) {
            vstd::wrapping::u64_specs::wrapping_sub(
                vstd::wrapping::u64_specs::wrapping_add(old(hart).pc, spec_imm_b(inst)),
                len,
            )
        } else {
            old(hart).pc
        }),
{
    let a = hart.regs.get(rs1_of(inst));
    let b = hart.regs.get(rs2_of(inst));
    #[verifier::truncate]
    let sa = a as i64;
    #[verifier::truncate]
    let sb = b as i64;
    let taken = sa < sb;
    if taken {
        hart.pc = hart.pc.wrapping_add(imm_b(inst)).wrapping_sub(len);
    }
    Ok(())
}

/// BGE: branch on signed greater-or-equal. The taken target is stored less the instruction length,
/// which the step loop adds back.
pub fn exec_bge(hart: &mut Hart, inst: u32, len: u64) -> (r: Result<(), Exception>)
    requires
        old(hart).wf(),
    ensures
        final (hart).wf(),
        only_regs_pc_changed(old(hart), final (hart)),
        final (hart).regs@ == old(hart).regs@,
        r == Ok::<(), Exception>(()),
        final (hart).pc == (if (old(hart).regs@[spec_rs1(inst)] as i64) >= (old(hart).regs@[spec_rs2(inst)] as i64) {
            vstd::wrapping::u64_specs::wrapping_sub(
                vstd::wrapping::u64_specs::wrapping_add(old(hart).pc, spec_imm_b(inst)),
                len,
            )
        } else {
            old(hart).pc
        }),
{
    let a = hart.regs.get(rs1_of(inst));
    let b = hart.regs.get(rs2_of(inst));
    #[verifier::truncate]
    let sa = a as i64;
    #[verifier::truncate]
    let sb = b as i64;
    let taken = sa >= sb;
    if taken {
        hart.pc = hart.pc.wrapping_add(imm_b(inst)).wrapping_sub(len);
    }
    Ok(())
}

/// BLTU: branch on unsigned less-than. The taken target is stored less the instruction length,
/// which the step loop adds back.
pub fn exec_bltu(hart: &mut Hart, inst: u32, len: u64) -> (r: Result<(), Exception>)
    requires
        old(hart).wf(),
    ensures
        final (hart).wf(),
        only_regs_pc_changed(old(hart), final (hart)),
        final (hart).regs@ == old(hart).regs@,
        r == Ok::<(), Exception>(()),
        final (hart).pc == (if old(hart).regs@[spec_rs1(inst)] < old(hart).regs@[spec_rs2(inst)] {
            vstd::wrapping::u64_specs::wrapping_sub(
                vstd::wrapping::u64_specs::wrapping_add(old(hart).pc, spec_imm_b(inst)),
                len,
            )
        } else {
            old(hart).pc
        }),
{
    let a = hart.regs.get(rs1_of(inst));
    let b = hart.regs.get(rs2_of(inst));
    let taken = a < b;
    if taken {
        hart.pc = hart.pc.wrapping_add(imm_b(inst)).wrapping_sub(len);
    }
    Ok(())
}

/// BGEU: branch on unsigned greater-or-equal. The taken target is stored less the instruction length,
/// which the step loop adds back.
pub fn exec_bgeu(hart: &mut Hart, inst: u32, len: u64) -> (r: Result<(), Exception>)
    requires
        old(hart).wf(),
    ensures
        final (hart).wf(),
        only_regs_pc_changed(old(hart), final (hart)),
        final (hart).regs@ == old(hart).regs@,
        r == Ok::<(), Exception>(()),
        final (hart).pc == (if old(hart).regs@[spec_rs1(inst)] >= old(hart).regs@[spec_rs2(inst)] {
            vstd::wrapping::u64_specs::wrapping_sub(
                vstd::wrapping::u64_specs::wrapping_add(old(hart).pc, spec_imm_b(inst)),
                len,
            )
        } else {
            old(hart).pc
        }),
{
    let a = hart.regs.get(rs1_of(inst));
    let b = hart.regs.get(rs2_of(inst));
    let taken = a >= b;
    if taken {
        hart.pc = hart.pc.wrapping_add(imm_b(inst)).wrapping_sub(len);
    }
    Ok(())
}

/// LB: load one byte, sign-extended.
pub fn exec_lb(hart: &mut Hart, mmu: &mut MMU, inst: u32) -> (r: Result<(), Exception>)
    requires
        old(hart).wf(),
        old(mmu).wf(),
    ensures
        final (hart).wf(),
        final (mmu).wf(),
        only_regs_changed(old(hart), final (hart)),
        final (mmu).ram() == old(mmu).ram(),
        final (mmu).reservations() == old(mmu).reservations(),
        r matches Err(_) ==> final (hart).regs@ == old(hart).regs@,
        ({
            let addr = vstd::wrapping::u64_specs::wrapping_add(
                old(hart).regs@[spec_rs1(inst)],
                spec_imm_i(inst),
            );
            let t = spec_translate(
                old(mmu).ram(),
                old(hart).csr@[crate::csr::SATP as int],
                old(hart).csr@[crate::csr::MSTATUS as int],
                spec_mode_encoding(old(hart).mode),
                addr,
                AccessType::Read,
            );
            addr % 1 == 0 ==> ((t matches Err(e) ==> r == Err::<(), Exception>(e)) && (
            t matches Ok(pa) ==> (ram_range(pa, 1) ==> r == Ok::<(), Exception>(()) && final (
            hart).regs@ == spec_set_reg(old(hart).regs@, spec_rd(inst), (crate::memory::spec_read_u8(old(mmu).ram(), pa) as i8 as i64 as u64)))))
        }),
{
    let rd = rd_of(inst);
    let address = hart.regs.get(rs1_of(inst)).wrapping_add(imm_i(inst));
    let mode = hart.mode.as_u8();
    let data = match mmu.read8(&hart.csr, mode, address) {
        Ok(d) => d,
        Err(e) => {
            return Err(e);
        },
    };
    #[verifier::truncate]
    let v = data as i8 as i64 as u64;
    hart.regs.set(rd, v);
    Ok(())
}

/// LH: load a halfword, sign-extended.
pub fn exec_lh(hart: &mut Hart, mmu: &mut MMU, inst: u32) -> (r: Result<(), Exception>)
    requires
        old(hart).wf(),
        old(mmu).wf(),
    ensures
        final (hart).wf(),
        final (mmu).wf(),
        only_regs_changed(old(hart), final (hart)),
        final (mmu).ram() == old(mmu).ram(),
        final (mmu).reservations() == old(mmu).reservations(),
        r matches Err(_) ==> final (hart).regs@ == old(hart).regs@,
        ({
            let addr = vstd::wrapping::u64_specs::wrapping_add(
                old(hart).regs@[spec_rs1(inst)],
                spec_imm_i(inst),
            );
            let t = spec_translate(
                old(mmu).ram(),
                old(hart).csr@[crate::csr::SATP as int],
                old(hart).csr@[crate::csr::MSTATUS as int],
                spec_mode_encoding(old(hart).mode),
                addr,
                AccessType::Read,
            );
            addr % 2 == 0 ==> ((t matches Err(e) ==> r == Err::<(), Exception>(e)) && (
            t matches Ok(pa) ==> (ram_range(pa, 2) ==> r == Ok::<(), Exception>(()) && final (
            hart).regs@ == spec_set_reg(old(hart).regs@, spec_rd(inst), (crate::memory::spec_read_u16(old(mmu).ram(), pa) as i16 as i64 as u64)))))
        }),
{
    let rd = rd_of(inst);
    let address = hart.regs.get(rs1_of(inst)).wrapping_add(imm_i(inst));
    let mode = hart.mode.as_u8();
    let data = match mmu.read16(&hart.csr, mode, address) {
        Ok(d) => d,
        Err(e) => {
            return Err(e);
        },
    };
    #[verifier::truncate]
    let v = data as i16 as i64 as u64;
    hart.regs.set(rd, v);
    Ok(())
}

/// LW: load a word, sign-extended.
pub fn exec_lw(hart: &mut Hart, mmu: &mut MMU, inst: u32) -> (r: Result<(), Exception>)
    requires
        old(hart).wf(),
        old(mmu).wf(),
    ensures
        final (hart).wf(),
        final (mmu).wf(),
        only_regs_changed(old(hart), final (hart)),
        final (mmu).ram() == old(mmu).ram(),
        final (mmu).reservations() == old(mmu).reservations(),
        r matches Err(_) ==> final (hart).regs@ == old(hart).regs@,
        ({
            let addr = vstd::wrapping::u64_specs::wrapping_add(
                old(hart).regs@[spec_rs1(inst)],
                spec_imm_i(inst),
            );
            let t = spec_translate(
                old(mmu).ram(),
                old(hart).csr@[crate::csr::SATP as int],
                old(hart).csr@[crate::csr::MSTATUS as int],
                spec_mode_encoding(old(hart).mode),
                addr,
                AccessType::Read,
            );
            addr % 4 == 0 ==> ((t matches Err(e) ==> r == Err::<(), Exception>(e)) && (
            t matches Ok(pa) ==> (ram_range(pa, 4) ==> r == Ok::<(), Exception>(()) && final (
            hart).regs@ == spec_set_reg(old(hart).regs@, spec_rd(inst), (crate::memory::spec_read_u32(old(mmu).ram(), pa) as i32 as i64 as u64)))))
        }),
{
    let rd = rd_of(inst);
    let address = hart.regs.get(rs1_of(inst)).wrapping_add(imm_i(inst));
    let mode = hart.mode.as_u8();
    let data = match mmu.read32(&hart.csr, mode, address) {
        Ok(d) => d,
        Err(e) => {
            return Err(e);
        },
    };
    #[verifier::truncate]
    let v = data as i32 as i64 as u64;
    hart.regs.set(rd, v);
    Ok(())
}

/// LD: load a doubleword.
pub fn exec_ld(hart: &mut Hart, mmu: &mut MMU, inst: u32) -> (r: Result<(), Exception>)
    requires
        old(hart).wf(),
        old(mmu).wf(),
    ensures
        final (hart).wf(),
        final (mmu).wf(),
        only_regs_changed(old(hart), final (hart)),
        final (mmu).ram() == old(mmu).ram(),
        final (mmu).reservations() == old(mmu).reservations(),
        r matches Err(_) ==> final (hart).regs@ == old(hart).regs@,
        ({
            let addr = vstd::wrapping::u64_specs::wrapping_add(
                old(hart).regs@[spec_rs1(inst)],
                spec_imm_i(inst),
            );
            let t = spec_translate(
                old(mmu).ram(),
                old(hart).csr@[crate::csr::SATP as int],
                old(hart).csr@[crate::csr::MSTATUS as int],
                spec_mode_encoding(old(hart).mode),
                addr,
                AccessType::Read,
            );
            addr % 8 == 0 ==> ((t matches Err(e) ==> r == Err::<(), Exception>(e)) && (
            t matches Ok(pa) ==> (ram_range(pa, 8) ==> r == Ok::<(), Exception>(()) && final (
            hart).regs@ == spec_set_reg(old(hart).regs@, spec_rd(inst), crate::memory::spec_read_u64(old(mmu).ram(), pa)))))
        }),
{
    let rd = rd_of(inst);
    let address = hart.regs.get(rs1_of(inst)).wrapping_add(imm_i(inst));
    let mode = hart.mode.as_u8();
    let data = match mmu.read64(&hart.csr, mode, address) {
        Ok(d) => d,
        Err(e) => {
            return Err(e);
        },
    };
    let v = data;
    hart.regs.set(rd, v);
    Ok(())
}

/// LBU: load one byte, zero-extended.
pub fn exec_lbu(hart: &mut Hart, mmu: &mut MMU, inst: u32) -> (r: Result<(), Exception>)
    requires
        old(hart).wf(),
        old(mmu).wf(),
    ensures
        final (hart).wf(),
        final (mmu).wf(),
        only_regs_changed(old(hart), final (hart)),
        final (mmu).ram() == old(mmu).ram(),
        final (mmu).reservations() == old(mmu).reservations(),
        r matches Err(_) ==> final (hart).regs@ == old(hart).regs@,
        ({
            let addr = vstd::wrapping::u64_specs::wrapping_add(
                old(hart).regs@[spec_rs1(inst)],
                spec_imm_i(inst),
            );
            let t = spec_translate(
                old(mmu).ram(),
                old(hart).csr@[crate::csr::SATP as int],
                old(hart).csr@[crate::csr::MSTATUS as int],
                spec_mode_encoding(old(hart).mode),
                addr,
                AccessType::Read,
            );
            addr % 1 == 0 ==> ((t matches Err(e) ==> r == Err::<(), Exception>(e)) && (
            t matches Ok(pa) ==> (ram_range(pa, 1) ==> r == Ok::<(), Exception>(()) && final (
            hart).regs@ == spec_set_reg(old(hart).regs@, spec_rd(inst), (crate::memory::spec_read_u8(old(mmu).ram(), pa) as u64)))))
        }),
{
    let rd = rd_of(inst);
    let address = hart.regs.get(rs1_of(inst)).wrapping_add(imm_i(inst));
    let mode = hart.mode.as_u8();
    let data = match mmu.read8(&hart.csr, mode, address) {
        Ok(d) => d,
        Err(e) => {
            return Err(e);
        },
    };
    let v = data as u64;
    hart.regs.set(rd, v);
    Ok(())
}

/// LHU: load a halfword, zero-extended.
pub fn exec_lhu(hart: &mut Hart, mmu: &mut MMU, inst: u32) -> (r: Result<(), Exception>)
    requires
        old(hart).wf(),
        old(mmu).wf(),
    ensures
        final (hart).wf(),
        final (mmu).wf(),
        only_regs_changed(old(hart), final (hart)),
        final (mmu).ram() == old(mmu).ram(),
        final (mmu).reservations() == old(mmu).reservations(),
        r matches Err(_) ==> final (hart).regs@ == old(hart).regs@,
        ({
            let addr = vstd::wrapping::u64_specs::wrapping_add(
                old(hart).regs@[spec_rs1(inst)],
                spec_imm_i(inst),
            );
            let t = spec_translate(
                old(mmu).ram(),
                old(hart).csr@[crate::csr::SATP as int],
                old(hart).csr@[crate::csr::MSTATUS as int],
                spec_mode_encoding(old(hart).mode),
                addr,
                AccessType::Read,
            );
            addr % 2 == 0 ==> ((t matches Err(e) ==> r == Err::<(), Exception>(e)) && (
            t matches Ok(pa) ==> (ram_range(pa, 2) ==> r == Ok::<(), Exception>(()) && final (
            hart).regs@ == spec_set_reg(old(hart).regs@, spec_rd(inst), (crate::memory::spec_read_u16(old(mmu).ram(), pa) as u64)))))
        }),
{
    let rd = rd_of(inst);
    let address = hart.regs.get(rs1_of(inst)).wrapping_add(imm_i(inst));
    let mode = hart.mode.as_u8();
    let data = match mmu.read16(&hart.csr, mode, address) {
        Ok(d) => d,
        Err(e) => {
            return Err(e);
        },
    };
    let v = data as u64;
    hart.regs.set(rd, v);
    Ok(())
}

/// LWU: load a word, zero-extended.
pub fn exec_lwu(hart: &mut Hart, mmu: &mut MMU, inst: u32) -> (r: Result<(), Exception>)
    requires
        old(hart).wf(),
        old(mmu).wf(),
    ensures
        final (hart).wf(),
        final (mmu).wf(),
        only_regs_changed(old(hart), final (hart)),
        final (mmu).ram() == old(mmu).ram(),
        final (mmu).reservations() == old(mmu).reservations(),
        r matches Err(_) ==> final (hart).regs@ == old(hart).regs@,
        ({
            let addr = vstd::wrapping::u64_specs::wrapping_add(
                old(hart).regs@[spec_rs1(inst)],
                spec_imm_i(inst),
            );
            let t = spec_translate(
                old(mmu).ram(),
                old(hart).csr@[crate::csr::SATP as int],
                old(hart).csr@[crate::csr::MSTATUS as int],
                spec_mode_encoding(old(hart).mode),
                addr,
                AccessType::Read,
            );
            addr % 4 == 0 ==> ((t matches Err(e) ==> r == Err::<(), Exception>(e)) && (
            t matches Ok(pa) ==> (ram_range(pa, 4) ==> r == Ok::<(), Exception>(()) && final (
            hart).regs@ == spec_set_reg(old(hart).regs@, spec_rd(inst), (crate::memory::spec_read_u32(old(mmu).ram(), pa) as u64)))))
        }),
{
    let rd = rd_of(inst);
    let address = hart.regs.get(rs1_of(inst)).wrapping_add(imm_i(inst));
    let mode = hart.mode.as_u8();
    let data = match mmu.read32(&hart.csr, mode, address) {
        Ok(d) => d,
        Err(e) => {
            return Err(e);
        },
    };
    let v = data as u64;
    hart.regs.set(rd, v);
    Ok(())
}

/// SB: store the low byte of rs2.
pub fn exec_sb(hart: &mut Hart, mmu: &mut MMU, inst: u32) -> (r: Result<(), Exception>)
    requires
        old(hart).wf(),
        old(mmu).wf(),
    ensures
        final (hart).wf(),
        final (mmu).wf(),
        *final (hart) == *old(hart),
        ({
            let addr = vstd::wrapping::u64_specs::wrapping_add(
                old(hart).regs@[spec_rs1(inst)],
                spec_imm_s(inst),
            );
            let t = spec_translate(
                old(mmu).ram(),
                old(hart).csr@[crate::csr::SATP as int],
                old(hart).csr@[crate::csr::MSTATUS as int],
                spec_mode_encoding(old(hart).mode),
                addr,
                AccessType::Write,
            );
            addr % 1 == 0 ==> ((t matches Err(e) ==> r == Err::<(), Exception>(e) && final (
            mmu).ram() == old(mmu).ram()) && (t matches Ok(pa) ==> (ram_range(pa, 1) ==> r
                == Ok::<(), Exception>(()) && final (mmu).ram() == crate::memory::spec_write_u8(
                old(mmu).ram(),
                pa,
                (old(hart).regs@[spec_rs2(inst)] as u8),
            ) && final (mmu).reservations() == Seq::<u64>::empty())))
        }),
{
    let address = hart.regs.get(rs1_of(inst)).wrapping_add(imm_s(inst));
    let full = hart.regs.get(rs2_of(inst));
    #[verifier::truncate]
    let data = full as u8;
    let mode = hart.mode.as_u8();
    mmu.write8(&hart.csr, mode, address, data)
}

/// SH: store the low halfword of rs2.
pub fn exec_sh(hart: &mut Hart, mmu: &mut MMU, inst: u32) -> (r: Result<(), Exception>)
    requires
        old(hart).wf(),
        old(mmu).wf(),
    ensures
        final (hart).wf(),
        final (mmu).wf(),
        *final (hart) == *old(hart),
        ({
            let addr = vstd::wrapping::u64_specs::wrapping_add(
                old(hart).regs@[spec_rs1(inst)],
                spec_imm_s(inst),
            );
            let t = spec_translate(
                old(mmu).ram(),
                old(hart).csr@[crate::csr::SATP as int],
                old(hart).csr@[crate::csr::MSTATUS as int],
                spec_mode_encoding(old(hart).mode),
                addr,
                AccessType::Write,
            );
            addr % 2 == 0 ==> ((t matches Err(e) ==> r == Err::<(), Exception>(e) && final (
            mmu).ram() == old(mmu).ram()) && (t matches Ok(pa) ==> (ram_range(pa, 2) ==> r
                == Ok::<(), Exception>(()) && final (mmu).ram() == crate::memory::spec_write_u16(
                old(mmu).ram(),
                pa,
                (old(hart).regs@[spec_rs2(inst)] as u16),
            ) && final (mmu).reservations() == Seq::<u64>::empty())))
        }),
{
    let address = hart.regs.get(rs1_of(inst)).wrapping_add(imm_s(inst));
    let full = hart.regs.get(rs2_of(inst));
    #[verifier::truncate]
    let data = full as u16;
    let mode = hart.mode.as_u8();
    mmu.write16(&hart.csr, mode, address, data)
}

/// SW: store the low word of rs2.
pub fn exec_sw(hart: &mut Hart, mmu: &mut MMU, inst: u32) -> (r: Result<(), Exception>)
    requires
        old(hart).wf(),
        old(mmu).wf(),
    ensures
        final (hart).wf(),
        final (mmu).wf(),
        *final (hart) == *old(hart),
        ({
            let addr = vstd::wrapping::u64_specs::wrapping_add(
                old(hart).regs@[spec_rs1(inst)],
                spec_imm_s(inst),
            );
            let t = spec_translate(
                old(mmu).ram(),
                old(hart).csr@[crate::csr::SATP as int],
                old(hart).csr@[crate::csr::MSTATUS as int],
                spec_mode_encoding(old(hart).mode),
                addr,
                AccessType::Write,
            );
            addr % 4 == 0 ==> ((t matches Err(e) ==> r == Err::<(), Exception>(e) && final (
            mmu).ram() == old(mmu).ram()) && (t matches Ok(pa) ==> (ram_range(pa, 4) ==> r
                == Ok::<(), Exception>(()) && final (mmu).ram() == crate::memory::spec_write_u32(
                old(mmu).ram(),
                pa,
                (old(hart).regs@[spec_rs2(inst)] as u32),
            ) && final (mmu).reservations() == Seq::<u64>::empty())))
        }),
{
    let address = hart.regs.get(rs1_of(inst)).wrapping_add(imm_s(inst));
    let full = hart.regs.get(rs2_of(inst));
    #[verifier::truncate]
    let data = full as u32;
    let mode = hart.mode.as_u8();
    mmu.write32(&hart.csr, mode, address, data)
}

/// SD: store rs2.
pub fn exec_sd(hart: &mut Hart, mmu: &mut MMU, inst: u32) -> (r: Result<(), Exception>)
    requires
        old(hart).wf(),
        old(mmu).wf(),
    ensures
        final (hart).wf(),
        final (mmu).wf(),
        *final (hart) == *old(hart),
        ({
            let addr = vstd::wrapping::u64_specs::wrapping_add(
                old(hart).regs@[spec_rs1(inst)],
                spec_imm_s(inst),
            );
            let t = spec_translate(
                old(mmu).ram(),
                old(hart).csr@[crate::csr::SATP as int],
                old(hart).csr@[crate::csr::MSTATUS as int],
                spec_mode_encoding(old(hart).mode),
                addr,
                AccessType::Write,
            );
            addr % 8 == 0 ==> ((t matches Err(e) ==> r == Err::<(), Exception>(e) && final (
            mmu).ram() == old(mmu).ram()) && (t matches Ok(pa) ==> (ram_range(pa, 8) ==> r
                == Ok::<(), Exception>(()) && final (mmu).ram() == crate::memory::spec_write_u64(
                old(mmu).ram(),
                pa,
                old(hart).regs@[spec_rs2(inst)],
            ) && final (mmu).reservations() == Seq::<u64>::empty())))
        }),
{
    let address = hart.regs.get(rs1_of(inst)).wrapping_add(imm_s(inst));
    let full = hart.regs.get(rs2_of(inst));
    let data = full;
    let mode = hart.mode.as_u8();
    mmu.write64(&hart.csr, mode, address, data)
}

/// FENCE and FENCE.I: with a single hart over a serialized bus, every
/// ordering already holds, so these complete with no effect.
pub fn exec_fence(hart: &mut Hart) -> (r: Result<(), Exception>)
    requires
        old(hart).wf(),
    ensures
        final (hart).wf(),
        *final (hart) == *old(hart),
        r == Ok::<(), Exception>(()),
{
    Ok(())
}

/// ECALL: raise the environment-call exception of the current mode.
pub fn exec_ecall(hart: &mut Hart) -> (r: Result<(), Exception>)
    requires
        old(hart).wf(),
    ensures
        final (hart).wf(),
        *final (hart) == *old(hart),
        r == Err::<(), Exception>(
            match old(hart).mode {
                crate::hart::Mode::User => Exception::EnvironmentCallFromUMode,
                crate::hart::Mode::Supervisor => Exception::EnvironmentCallFromSMode,
                crate::hart::Mode::Machine => Exception::EnvironmentCallFromMMode,
            },
        ),
{
    match hart.mode {
        crate::hart::Mode::User => Err(Exception::EnvironmentCallFromUMode),
        crate::hart::Mode::Supervisor => Err(Exception::EnvironmentCallFromSMode),
        crate::hart::Mode::Machine => Err(Exception::EnvironmentCallFromMMode),
    }
}

/// EBREAK: raise a breakpoint carrying the current pc.
pub fn exec_ebreak(hart: &mut Hart) -> (r: Result<(), Exception>)
    requires
        old(hart).wf(),
    ensures
        final (hart).wf(),
        *final (hart) == *old(hart),
        r == Err::<(), Exception>(Exception::Breakpoint(old(hart).pc)),
{
    Err(Exception::Breakpoint(hart.pc))
}

} // verus!
