//! Floating-point behavior: NaN boxing, classification, comparisons,
//! arithmetic through the executors, conversions, and square roots.

use rv64emu::bus::Bus;
use rv64emu::csr;
use rv64emu::fputil::{
    nanbox, unbox, f32_classify, f64_classify, f32_minmax, round_mode, fflags_of_status,
    F32_QNAN, F64_QNAN,
};
use rv64emu::hart::Hart;
use rv64emu::inst_d;
use rv64emu::inst_f;
use rv64emu::mmu::MMU;
use rv64emu::trap::Exception;

fn fp_hart() -> Hart {
    let mut hart = Hart::new();
    hart.csr.write_raw(csr::MSTATUS, 0x2000); // FS = initial
    hart
}

// FADD.S fd, fs1, fs2 with static rounding mode 0
fn enc_fadd_s(rd: u32, rs1: u32, rs2: u32) -> u32 {
    (rs2 << 20) | (rs1 << 15) | (rd << 7) | 0x53
}

#[test]
fn nanbox_round_trip() {
    let one = 1.0f32.to_bits();
    let boxed = nanbox(one);
    assert_eq!(boxed >> 32, 0xFFFF_FFFF);
    assert_eq!(unbox(boxed), one);
    // a broken box reads as the canonical quiet NaN
    assert_eq!(unbox(one as u64), F32_QNAN);
    assert_eq!(unbox(0x0123_4567_3F80_0000), F32_QNAN);
}

#[test]
fn fadd_single() {
    let mut hart = fp_hart();
    hart.fregs.set(1, nanbox(1.5f32.to_bits()));
    hart.fregs.set(2, nanbox(2.25f32.to_bits()));
    assert_eq!(inst_f::exec_fadd_s(&mut hart, enc_fadd_s(3, 1, 2)), Ok(()));
    assert_eq!(unbox(hart.fregs.get(3)), 3.75f32.to_bits());
    // the result is NaN-boxed
    assert_eq!(hart.fregs.get(3) >> 32, 0xFFFF_FFFF);
    // FS is dirty afterwards
    assert_eq!((hart.csr.read_raw(csr::MSTATUS) >> 13) & 3, 3);
}

#[test]
fn fadd_requires_fs_on() {
    let mut hart = Hart::new(); // FS is off
    assert_eq!(
        inst_f::exec_fadd_s(&mut hart, enc_fadd_s(3, 1, 2)),
        Err(Exception::IllegalInstruction)
    );
}

#[test]
fn dynamic_rounding_mode_resolution() {
    assert_eq!(round_mode(0, 0), Ok(0));
    assert_eq!(round_mode(4, 0), Ok(4));
    assert_eq!(round_mode(5, 0), Err(Exception::IllegalInstruction));
    assert_eq!(round_mode(6, 0), Err(Exception::IllegalInstruction));
    assert_eq!(round_mode(7, 2), Ok(2));
    assert_eq!(round_mode(7, 7), Err(Exception::IllegalInstruction));
    assert_eq!(round_mode(7, 5), Err(Exception::IllegalInstruction));
}

#[test]
fn status_flag_mapping() {
    // invalid(0x01) -> NV(0x10); inexact(0x10) -> NX(0x01)
    assert_eq!(fflags_of_status(0x01), 0x10);
    assert_eq!(fflags_of_status(0x10), 0x01);
    assert_eq!(fflags_of_status(0x02), 0x08);
    assert_eq!(fflags_of_status(0x04), 0x04);
    assert_eq!(fflags_of_status(0x08), 0x02);
}

#[test]
fn fdiv_by_zero_sets_dz() {
    let mut hart = fp_hart();
    hart.fregs.set(1, nanbox(1.0f32.to_bits()));
    hart.fregs.set(2, nanbox(0.0f32.to_bits()));
    // FDIV.S f3, f1, f2
    let inst = (0b00011u32 << 27) | (2 << 20) | (1 << 15) | (3 << 7) | 0x53;
    assert_eq!(inst_f::exec_fdiv_s(&mut hart, inst), Ok(()));
    assert_eq!(unbox(hart.fregs.get(3)), f32::INFINITY.to_bits());
    assert_eq!(hart.csr.read_raw(csr::FFLAGS) & 0x08, 0x08); // DZ
}

#[test]
fn classification_vectors() {
    assert_eq!(f32_classify(f32::NEG_INFINITY.to_bits()), 1 << 0);
    assert_eq!(f32_classify((-1.5f32).to_bits()), 1 << 1);
    assert_eq!(f32_classify(0x8000_0001), 1 << 2); // negative subnormal
    assert_eq!(f32_classify(0x8000_0000), 1 << 3); // -0
    assert_eq!(f32_classify(0), 1 << 4); // +0
    assert_eq!(f32_classify(0x0000_0001), 1 << 5); // positive subnormal
    assert_eq!(f32_classify(1.0f32.to_bits()), 1 << 6);
    assert_eq!(f32_classify(f32::INFINITY.to_bits()), 1 << 7);
    assert_eq!(f32_classify(0x7F80_0001), 1 << 8); // signaling NaN
    assert_eq!(f32_classify(F32_QNAN), 1 << 9);
    assert_eq!(f64_classify(F64_QNAN), 1 << 9);
    assert_eq!(f64_classify(1.0f64.to_bits()), 1 << 6);
    assert_eq!(f64_classify((-0.0f64).to_bits()), 1 << 3);
}

#[test]
fn minmax_follows_ieee() {
    let one = 1.0f32.to_bits();
    let two = 2.0f32.to_bits();
    let nz = (-0.0f32).to_bits();
    let pz = 0.0f32.to_bits();
    assert_eq!(f32_minmax(one, two, false).0, one);
    assert_eq!(f32_minmax(one, two, true).0, two);
    // -0 orders below +0
    assert_eq!(f32_minmax(nz, pz, false).0, nz);
    assert_eq!(f32_minmax(nz, pz, true).0, pz);
    // one NaN: the other operand wins; two NaNs: canonical NaN
    assert_eq!(f32_minmax(F32_QNAN, one, false).0, one);
    assert_eq!(f32_minmax(F32_QNAN, F32_QNAN, true).0, F32_QNAN);
}

#[test]
fn compare_instructions() {
    let mut hart = fp_hart();
    hart.fregs.set(1, nanbox(1.0f32.to_bits()));
    hart.fregs.set(2, nanbox(2.0f32.to_bits()));
    // FLT.S x5, f1, f2
    let flt = (0b10100u32 << 27) | (2 << 20) | (1 << 15) | (1 << 12) | (5 << 7) | 0x53;
    assert_eq!(inst_f::exec_fcmp_s(&mut hart, flt, 1), Ok(()));
    assert_eq!(hart.regs.get(5), 1);
    // comparison against NaN is false and (for FLT) raises NV
    hart.fregs.set(2, nanbox(F32_QNAN));
    hart.csr.write_raw(csr::FFLAGS, 0);
    assert_eq!(inst_f::exec_fcmp_s(&mut hart, flt, 1), Ok(()));
    assert_eq!(hart.regs.get(5), 0);
    assert_eq!(hart.csr.read_raw(csr::FFLAGS) & 0x10, 0x10);
}

#[test]
fn sqrt_single() {
    let mut hart = fp_hart();
    // FSQRT.S f1, f2
    let inst = (0b01011u32 << 27) | (2 << 15) | (1 << 7) | 0x53;
    hart.fregs.set(2, nanbox(4.0f32.to_bits()));
    assert_eq!(inst_f::exec_fsqrt_s(&mut hart, inst), Ok(()));
    assert_eq!(unbox(hart.fregs.get(1)), 2.0f32.to_bits());
    hart.fregs.set(2, nanbox(2.0f32.to_bits()));
    assert_eq!(inst_f::exec_fsqrt_s(&mut hart, inst), Ok(()));
    assert_eq!(unbox(hart.fregs.get(1)), 0x3FB5_04F3); // sqrt(2), round to nearest
    // a negative operand gives the canonical NaN with NV
    hart.csr.write_raw(csr::FFLAGS, 0);
    hart.fregs.set(2, nanbox((-1.0f32).to_bits()));
    assert_eq!(inst_f::exec_fsqrt_s(&mut hart, inst), Ok(()));
    assert_eq!(unbox(hart.fregs.get(1)), F32_QNAN);
    assert_eq!(hart.csr.read_raw(csr::FFLAGS) & 0x10, 0x10);
    // zero and infinity pass through
    hart.fregs.set(2, nanbox((-0.0f32).to_bits()));
    assert_eq!(inst_f::exec_fsqrt_s(&mut hart, inst), Ok(()));
    assert_eq!(unbox(hart.fregs.get(1)), (-0.0f32).to_bits());
}

#[test]
fn sqrt_double() {
    let mut hart = fp_hart();
    // FSQRT.D f1, f2
    let inst = (0b01011u32 << 27) | (1 << 25) | (2 << 15) | (1 << 7) | 0x53;
    hart.fregs.set(2, 4.0f64.to_bits());
    assert_eq!(inst_d::exec_fsqrt_d(&mut hart, inst), Ok(()));
    assert_eq!(hart.fregs.get(1), 2.0f64.to_bits());
    hart.fregs.set(2, 2.0f64.to_bits());
    assert_eq!(inst_d::exec_fsqrt_d(&mut hart, inst), Ok(()));
    assert_eq!(hart.fregs.get(1), 0x3FF6_A09E_667F_3BCD);
    assert_eq!(hart.csr.read_raw(csr::FFLAGS) & 0x01, 0x01); // inexact
    // a subnormal operand still roots exactly when possible
    hart.fregs.set(2, 1.0f64.to_bits());
    assert_eq!(inst_d::exec_fsqrt_d(&mut hart, inst), Ok(()));
    assert_eq!(hart.fregs.get(1), 1.0f64.to_bits());
}

#[test]
fn conversions_saturate_with_nv() {
    let mut hart = fp_hart();
    // FCVT.W.S x5, f1 (rm = 1, toward zero)
    let inst = (0b11000u32 << 27) | (1 << 15) | (1 << 12) | (5 << 7) | 0x53;
    hart.fregs.set(1, nanbox(3.7f32.to_bits()));
    assert_eq!(inst_f::exec_fcvt_int_s(&mut hart, inst, true, 32), Ok(()));
    assert_eq!(hart.regs.get(5), 3);
    hart.fregs.set(1, nanbox((-3.7f32).to_bits()));
    assert_eq!(inst_f::exec_fcvt_int_s(&mut hart, inst, true, 32), Ok(()));
    assert_eq!(hart.regs.get(5), (-3i64) as u64);
    // a NaN converts to the largest value with NV
    hart.csr.write_raw(csr::FFLAGS, 0);
    hart.fregs.set(1, nanbox(F32_QNAN));
    assert_eq!(inst_f::exec_fcvt_int_s(&mut hart, inst, true, 32), Ok(()));
    assert_eq!(hart.regs.get(5), 0x7FFF_FFFF);
    assert_eq!(hart.csr.read_raw(csr::FFLAGS) & 0x10, 0x10);
    // overflow saturates
    hart.fregs.set(1, nanbox(3.0e9f32.to_bits()));
    assert_eq!(inst_f::exec_fcvt_int_s(&mut hart, inst, true, 32), Ok(()));
    assert_eq!(hart.regs.get(5), 0x7FFF_FFFF);
    // unsigned conversion of a negative gives zero
    hart.fregs.set(1, nanbox((-1.0f32).to_bits()));
    assert_eq!(inst_f::exec_fcvt_int_s(&mut hart, inst, false, 32), Ok(()));
    assert_eq!(hart.regs.get(5), 0);
}

#[test]
fn int_to_float_and_back() {
    let mut hart = fp_hart();
    // FCVT.S.W f1, x5
    let to_f = (0b11010u32 << 27) | (5 << 15) | (1 << 7) | 0x53;
    hart.regs.set(5, 7);
    assert_eq!(inst_f::exec_fcvt_s_int(&mut hart, to_f, true, 32), Ok(()));
    assert_eq!(unbox(hart.fregs.get(1)), 7.0f32.to_bits());
    hart.regs.set(5, (-7i64) as u64);
    assert_eq!(inst_f::exec_fcvt_s_int(&mut hart, to_f, true, 32), Ok(()));
    assert_eq!(unbox(hart.fregs.get(1)), (-7.0f32).to_bits());
}

#[test]
fn format_conversions() {
    let mut hart = fp_hart();
    // FCVT.D.S f1, f2
    let d_of_s = (0b01000u32 << 27) | (1 << 25) | (2 << 15) | (1 << 7) | 0x53;
    hart.fregs.set(2, nanbox(1.5f32.to_bits()));
    assert_eq!(inst_d::exec_fcvt_d_s(&mut hart, d_of_s), Ok(()));
    assert_eq!(hart.fregs.get(1), 1.5f64.to_bits());
    // FCVT.S.D f3, f1
    let s_of_d = (0b01000u32 << 27) | (1 << 20) | (1 << 15) | (3 << 7) | 0x53;
    assert_eq!(inst_d::exec_fcvt_s_d(&mut hart, s_of_d), Ok(()));
    assert_eq!(unbox(hart.fregs.get(3)), 1.5f32.to_bits());
}

#[test]
fn fma_variants_through_step() {
    let mut hart = fp_hart();
    let mut mmu = MMU::new(Bus::new());
    hart.pc = 0x8000_0000;
    hart.fregs.set(1, nanbox(2.0f32.to_bits()));
    hart.fregs.set(2, nanbox(3.0f32.to_bits()));
    hart.fregs.set(3, nanbox(4.0f32.to_bits()));
    // FMADD.S f4, f1, f2, f3 = 2*3+4 = 10
    let fmadd = (3u32 << 27) | (2 << 20) | (1 << 15) | (4 << 7) | 0b1000011;
    mmu.bus.memory.write32(0x8000_0000, fmadd);
    hart.step(&mut mmu);
    assert_eq!(unbox(hart.fregs.get(4)), 10.0f32.to_bits());
    // FNMSUB.S f4, f1, f2, f3 = -(2*3)+4 = -2
    let fnmsub = (3u32 << 27) | (2 << 20) | (1 << 15) | (4 << 7) | 0b1001011;
    hart.pc = 0x8000_0000;
    mmu.bus.memory.write32(0x8000_0000, fnmsub);
    hart.step(&mut mmu);
    assert_eq!(unbox(hart.fregs.get(4)), (-2.0f32).to_bits());
}

#[test]
fn double_arithmetic_through_step() {
    let mut hart = fp_hart();
    let mut mmu = MMU::new(Bus::new());
    hart.pc = 0x8000_0000;
    hart.fregs.set(1, 1.25f64.to_bits());
    hart.fregs.set(2, 2.5f64.to_bits());
    // FADD.D f3, f1, f2
    let fadd_d = (1u32 << 25) | (2 << 20) | (1 << 15) | (3 << 7) | 0x53;
    mmu.bus.memory.write32(0x8000_0000, fadd_d);
    hart.step(&mut mmu);
    assert_eq!(hart.fregs.get(3), 3.75f64.to_bits());
    // FMUL.D f3, f1, f2
    let fmul_d = (0b00010u32 << 27) | (1 << 25) | (2 << 20) | (1 << 15) | (3 << 7) | 0x53;
    hart.pc = 0x8000_0000;
    mmu.bus.memory.write32(0x8000_0000, fmul_d);
    hart.step(&mut mmu);
    assert_eq!(hart.fregs.get(3), 3.125f64.to_bits());
}

#[test]
fn fsgnj_and_moves() {
    let mut hart = fp_hart();
    hart.fregs.set(1, nanbox(1.5f32.to_bits()));
    hart.fregs.set(2, nanbox((-2.0f32).to_bits()));
    // FSGNJ.S f3, f1, f2 takes the sign of f2
    let inst = (0b00100u32 << 27) | (2 << 20) | (1 << 15) | (3 << 7) | 0x53;
    assert_eq!(inst_f::exec_fsgnj_s(&mut hart, inst, 0), Ok(()));
    assert_eq!(unbox(hart.fregs.get(3)), (-1.5f32).to_bits());
    assert_eq!(inst_f::exec_fsgnj_s(&mut hart, inst, 1), Ok(()));
    assert_eq!(unbox(hart.fregs.get(3)), 1.5f32.to_bits());
    assert_eq!(inst_f::exec_fsgnj_s(&mut hart, inst, 2), Ok(()));
    assert_eq!(unbox(hart.fregs.get(3)), (-1.5f32).to_bits());
    // FMV.W.X then FMV.X.W round-trips the low word, sign-extended
    hart.regs.set(6, 0xC000_0000);
    let wx = (0b11110u32 << 27) | (6 << 15) | (4 << 7) | 0x53;
    assert_eq!(inst_f::exec_fmv_w_x(&mut hart, wx), Ok(()));
    let xw = (0b11100u32 << 27) | (4 << 15) | (7 << 7) | 0x53;
    assert_eq!(inst_f::exec_fmv_x_w(&mut hart, xw), Ok(()));
    assert_eq!(hart.regs.get(7), 0xFFFF_FFFF_C000_0000);
}
