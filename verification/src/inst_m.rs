//! The multiply/divide extension: full and high-half products, and
//! division with the architectural all-ones and overflow conventions.

use vstd::prelude::*;
use crate::hart::{Hart, spec_set_reg, only_regs_changed};
use crate::fields::{rd_of, rs1_of, rs2_of, spec_rd, spec_rs1, spec_rs2};
use crate::trap::Exception;

verus! {

/// The magnitude of a signed 64-bit value, as the unsigned value it
/// wraps to.
pub open spec fn spec_mag64(a: u64) -> u64 {
    if a as i64 >= 0 {
        a
    } else {
        vstd::wrapping::u64_specs::wrapping_add(a ^ 0xFFFF_FFFF_FFFF_FFFF, 1)
    }
}

/// Two's-complement negation.
pub open spec fn spec_neg64(a: u64) -> u64 {
    vstd::wrapping::u64_specs::wrapping_add(a ^ 0xFFFF_FFFF_FFFF_FFFF, 1)
}

/// Signed truncated division of the 64-bit values `a / b` (nonzero
/// `b`), computed by magnitudes: the architectural DIV result except
/// for the zero and overflow conventions handled by the caller.
pub open spec fn spec_div_signed(a: u64, b: u64) -> u64 {
    let q = spec_mag64(a) / spec_mag64(b);
    if (a as i64 >= 0) == (b as i64 >= 0) {
        q
    } else {
        spec_neg64(q)
    }
}

/// The remainder matching `spec_div_signed`; its sign follows the
/// dividend.
pub open spec fn spec_rem_signed(a: u64, b: u64) -> u64 {
    let m = spec_mag64(a) % spec_mag64(b);
    if a as i64 >= 0 {
        m
    } else {
        spec_neg64(m)
    }
}

/// The magnitude of a signed value (see `spec_mag64`).
fn mag64(a: u64) -> (r: u64)
    ensures
        r == spec_mag64(a),
        (a as i64) >= 0 ==> r == a,
{
    #[verifier::truncate]
    let sa = a as i64;
    if sa >= 0 {
        a
    } else {
        (a ^ 0xFFFF_FFFF_FFFF_FFFF).wrapping_add(1)
    }
}

fn neg64(a: u64) -> (r: u64)
    ensures
        r == spec_neg64(a),
{
    (a ^ 0xFFFF_FFFF_FFFF_FFFF).wrapping_add(1)
}

/// MUL: the low 64 bits of the product.
pub fn exec_mul(hart: &mut Hart, inst: u32) -> (r: Result<(), Exception>)
    requires
        old(hart).wf(),
    ensures
        final (hart).wf(),
        only_regs_changed(old(hart), final (hart)),
        r == Ok::<(), Exception>(()),
        final (hart).regs@ == spec_set_reg(
            old(hart).regs@,
            spec_rd(inst),
            vstd::wrapping::u64_specs::wrapping_mul(old(hart).regs@[spec_rs1(inst)], old(hart).regs@[spec_rs2(inst)]),
        ),
{
    let rd = rd_of(inst);
    let a = hart.regs.get(rs1_of(inst));
    let b = hart.regs.get(rs2_of(inst));
    let v = a.wrapping_mul(b);
    hart.regs.set(rd, v);
    Ok(())
}
/// MULH: the high 64 bits of the signed product.
pub fn exec_mulh(hart: &mut Hart, inst: u32) -> (r: Result<(), Exception>)
    requires
        old(hart).wf(),
    ensures
        final (hart).wf(),
        only_regs_changed(old(hart), final (hart)),
        r == Ok::<(), Exception>(()),
        final (hart).regs@ == spec_set_reg(
            old(hart).regs@,
            spec_rd(inst),
            ((((((old(hart).regs@[spec_rs1(inst)] as i64 as i128) * (old(hart).regs@[spec_rs2(inst)] as i64 as i128)) as i128) >> 64) as i64) as u64),
        ),
{
    let rd = rd_of(inst);
    let a = hart.regs.get(rs1_of(inst));
    let b = hart.regs.get(rs2_of(inst));
    #[verifier::truncate]
    let sa = a as i64 as i128;
    #[verifier::truncate]
    let sb = b as i64 as i128;
    proof {
        assert(-0x8000_0000_0000_0000i128 * 0x8000_0000_0000_0000i128 <= sa * sb <= 0x8000_0000_0000_0000i128 * 0x8000_0000_0000_0000i128) by (nonlinear_arith)
            requires
                -0x8000_0000_0000_0000i128 <= sa <= 0x7FFF_FFFF_FFFF_FFFFi128,
                -0x8000_0000_0000_0000i128 <= sb <= 0x7FFF_FFFF_FFFF_FFFFi128,
        ;
    }
    let p = sa * sb;
    #[verifier::truncate]
    let v = (p >> 64) as i64 as u64;
    hart.regs.set(rd, v);
    Ok(())
}
/// MULHSU: the high 64 bits of the signed-by-unsigned product.
pub fn exec_mulhsu(hart: &mut Hart, inst: u32) -> (r: Result<(), Exception>)
    requires
        old(hart).wf(),
    ensures
        final (hart).wf(),
        only_regs_changed(old(hart), final (hart)),
        r == Ok::<(), Exception>(()),
        final (hart).regs@ == spec_set_reg(
            old(hart).regs@,
            spec_rd(inst),
            ((((((old(hart).regs@[spec_rs1(inst)] as i64 as i128) * (old(hart).regs@[spec_rs2(inst)] as i128)) as i128) >> 64) as i64) as u64),
        ),
{
    let rd = rd_of(inst);
    let a = hart.regs.get(rs1_of(inst));
    let b = hart.regs.get(rs2_of(inst));
    #[verifier::truncate]
    let sa = a as i64 as i128;
    let sb = b as i128;
    proof {
        assert(-0x8000_0000_0000_0000i128 * 0xFFFF_FFFF_FFFF_FFFFi128 <= sa * sb <= 0x8000_0000_0000_0000i128 * 0xFFFF_FFFF_FFFF_FFFFi128) by (nonlinear_arith)
            requires
                -0x8000_0000_0000_0000i128 <= sa <= 0x7FFF_FFFF_FFFF_FFFFi128,
                0i128 <= sb <= 0xFFFF_FFFF_FFFF_FFFFi128,
        ;
    }
    let p = sa * sb;
    #[verifier::truncate]
    let v = (p >> 64) as i64 as u64;
    hart.regs.set(rd, v);
    Ok(())
}
/// MULHU: the high 64 bits of the unsigned product.
pub fn exec_mulhu(hart: &mut Hart, inst: u32) -> (r: Result<(), Exception>)
    requires
        old(hart).wf(),
    ensures
        final (hart).wf(),
        only_regs_changed(old(hart), final (hart)),
        r == Ok::<(), Exception>(()),
        final (hart).regs@ == spec_set_reg(
            old(hart).regs@,
            spec_rd(inst),
            (((((old(hart).regs@[spec_rs1(inst)] as u128) * (old(hart).regs@[spec_rs2(inst)] as u128)) as u128) >> 64) as u64),
        ),
{
    let rd = rd_of(inst);
    let a = hart.regs.get(rs1_of(inst));
    let b = hart.regs.get(rs2_of(inst));
    let ua = a as u128;
    let ub = b as u128;
    proof {
        assert(ua * ub <= 0xFFFF_FFFF_FFFF_FFFFu128 * 0xFFFF_FFFF_FFFF_FFFFu128) by (nonlinear_arith)
            requires
                ua <= 0xFFFF_FFFF_FFFF_FFFFu128,
                ub <= 0xFFFF_FFFF_FFFF_FFFFu128,
        ;
    }
    let p = ua * ub;
    #[verifier::truncate]
    let v = (p >> 64) as u64;
    hart.regs.set(rd, v);
    Ok(())
}
/// DIV: signed division; all-ones for a zero divisor, the
/// dividend on overflow.
pub fn exec_div(hart: &mut Hart, inst: u32) -> (r: Result<(), Exception>)
    requires
        old(hart).wf(),
    ensures
        final (hart).wf(),
        only_regs_changed(old(hart), final (hart)),
        r == Ok::<(), Exception>(()),
        final (hart).regs@ == spec_set_reg(
            old(hart).regs@,
            spec_rd(inst),
            (if old(hart).regs@[spec_rs2(inst)] == 0 {
                0xFFFF_FFFF_FFFF_FFFFu64
            } else if old(hart).regs@[spec_rs1(inst)] == 0x8000_0000_0000_0000 && old(hart).regs@[spec_rs2(inst)] == 0xFFFF_FFFF_FFFF_FFFF {
                old(hart).regs@[spec_rs1(inst)]
            } else {
                spec_div_signed(old(hart).regs@[spec_rs1(inst)], old(hart).regs@[spec_rs2(inst)])
            }),
        ),
{
    let rd = rd_of(inst);
    let a = hart.regs.get(rs1_of(inst));
    let b = hart.regs.get(rs2_of(inst));
    let v: u64 = if b == 0 {
        0xFFFF_FFFF_FFFF_FFFF
    } else if a == 0x8000_0000_0000_0000 && b == 0xFFFF_FFFF_FFFF_FFFF {
        a
    } else {
        proof {
            crate::util::lemma_negation_nonzero_u64(b);
        }
        let q = mag64(a) / mag64(b);
        #[verifier::truncate]
        let sa = a as i64;
        #[verifier::truncate]
        let sb = b as i64;
        if (sa >= 0) == (sb >= 0) {
            q
        } else {
            neg64(q)
        }
    };
    hart.regs.set(rd, v);
    Ok(())
}
/// DIVU: unsigned division; all-ones for a zero divisor.
pub fn exec_divu(hart: &mut Hart, inst: u32) -> (r: Result<(), Exception>)
    requires
        old(hart).wf(),
    ensures
        final (hart).wf(),
        only_regs_changed(old(hart), final (hart)),
        r == Ok::<(), Exception>(()),
        final (hart).regs@ == spec_set_reg(
            old(hart).regs@,
            spec_rd(inst),
            (if old(hart).regs@[spec_rs2(inst)] == 0 {
                0xFFFF_FFFF_FFFF_FFFFu64
            } else {
                old(hart).regs@[spec_rs1(inst)] / old(hart).regs@[spec_rs2(inst)]
            }),
        ),
{
    let rd = rd_of(inst);
    let a = hart.regs.get(rs1_of(inst));
    let b = hart.regs.get(rs2_of(inst));
    let v: u64 = if b == 0 {
        0xFFFF_FFFF_FFFF_FFFF
    } else {
        a / b
    };
    hart.regs.set(rd, v);
    Ok(())
}
/// REM: signed remainder; the dividend for a zero divisor,
/// zero on overflow.
pub fn exec_rem(hart: &mut Hart, inst: u32) -> (r: Result<(), Exception>)
    requires
        old(hart).wf(),
    ensures
        final (hart).wf(),
        only_regs_changed(old(hart), final (hart)),
        r == Ok::<(), Exception>(()),
        final (hart).regs@ == spec_set_reg(
            old(hart).regs@,
            spec_rd(inst),
            (if old(hart).regs@[spec_rs2(inst)] == 0 {
                old(hart).regs@[spec_rs1(inst)]
            } else if old(hart).regs@[spec_rs1(inst)] == 0x8000_0000_0000_0000 && old(hart).regs@[spec_rs2(inst)] == 0xFFFF_FFFF_FFFF_FFFF {
                0u64
            } else {
                spec_rem_signed(old(hart).regs@[spec_rs1(inst)], old(hart).regs@[spec_rs2(inst)])
            }),
        ),
{
    let rd = rd_of(inst);
    let a = hart.regs.get(rs1_of(inst));
    let b = hart.regs.get(rs2_of(inst));
    let v: u64 = if b == 0 {
        a
    } else if a == 0x8000_0000_0000_0000 && b == 0xFFFF_FFFF_FFFF_FFFF {
        0
    } else {
        proof {
            crate::util::lemma_negation_nonzero_u64(b);
        }
        let m = mag64(a) % mag64(b);
        #[verifier::truncate]
        let sa = a as i64;
        if sa >= 0 {
            m
        } else {
            neg64(m)
        }
    };
    hart.regs.set(rd, v);
    Ok(())
}
/// REMU: unsigned remainder; the dividend for a zero divisor.
pub fn exec_remu(hart: &mut Hart, inst: u32) -> (r: Result<(), Exception>)
    requires
        old(hart).wf(),
    ensures
        final (hart).wf(),
        only_regs_changed(old(hart), final (hart)),
        r == Ok::<(), Exception>(()),
        final (hart).regs@ == spec_set_reg(
            old(hart).regs@,
            spec_rd(inst),
            (if old(hart).regs@[spec_rs2(inst)] == 0 {
                old(hart).regs@[spec_rs1(inst)]
            } else {
                old(hart).regs@[spec_rs1(inst)] % old(hart).regs@[spec_rs2(inst)]
            }),
        ),
{
    let rd = rd_of(inst);
    let a = hart.regs.get(rs1_of(inst));
    let b = hart.regs.get(rs2_of(inst));
    let v: u64 = if b == 0 {
        a
    } else {
        a % b
    };
    hart.regs.set(rd, v);
    Ok(())
}
/// The magnitude of a signed 32-bit value.
pub open spec fn spec_mag32(a: u32) -> u32 {
    if a as i32 >= 0 {
        a
    } else {
        vstd::wrapping::u32_specs::wrapping_add(a ^ 0xFFFF_FFFF, 1)
    }
}

pub open spec fn spec_neg32(a: u32) -> u32 {
    vstd::wrapping::u32_specs::wrapping_add(a ^ 0xFFFF_FFFF, 1)
}

/// Signed truncated 32-bit division (nonzero divisor, no overflow
/// case), by magnitudes.
pub open spec fn spec_div_signed32(a: u32, b: u32) -> u32 {
    let q = spec_mag32(a) / spec_mag32(b);
    if (a as i32 >= 0) == (b as i32 >= 0) {
        q
    } else {
        spec_neg32(q)
    }
}

pub open spec fn spec_rem_signed32(a: u32, b: u32) -> u32 {
    let m = spec_mag32(a) % spec_mag32(b);
    if a as i32 >= 0 {
        m
    } else {
        spec_neg32(m)
    }
}

fn mag32(a: u32) -> (r: u32)
    ensures
        r == spec_mag32(a),
{
    #[verifier::truncate]
    let sa = a as i32;
    if sa >= 0 {
        a
    } else {
        (a ^ 0xFFFF_FFFF).wrapping_add(1)
    }
}

fn neg32(a: u32) -> (r: u32)
    ensures
        r == spec_neg32(a),
{
    (a ^ 0xFFFF_FFFF).wrapping_add(1)
}

/// MULW: the low 32 bits of the product, sign-extended.
pub fn exec_mulw(hart: &mut Hart, inst: u32) -> (r: Result<(), Exception>)
    requires
        old(hart).wf(),
    ensures
        final (hart).wf(),
        only_regs_changed(old(hart), final (hart)),
        r == Ok::<(), Exception>(()),
        final (hart).regs@ == spec_set_reg(
            old(hart).regs@,
            spec_rd(inst),
            ((vstd::wrapping::i32_specs::wrapping_mul(old(hart).regs@[spec_rs1(inst)] as i64 as i32, old(hart).regs@[spec_rs2(inst)] as i64 as i32)) as i64 as u64),
        ),
{
    let rd = rd_of(inst);
    let a = hart.regs.get(rs1_of(inst));
    let b = hart.regs.get(rs2_of(inst));
    #[verifier::truncate]
    let sa = a as i64 as i32;
    #[verifier::truncate]
    let sb = b as i64 as i32;
    #[verifier::truncate]
    let v = sa.wrapping_mul(sb) as i64 as u64;
    hart.regs.set(rd, v);
    Ok(())
}
/// DIVW: signed 32-bit division, sign-extended; all-ones for
/// a zero divisor, the dividend on overflow.
pub fn exec_divw(hart: &mut Hart, inst: u32) -> (r: Result<(), Exception>)
    requires
        old(hart).wf(),
    ensures
        final (hart).wf(),
        only_regs_changed(old(hart), final (hart)),
        r == Ok::<(), Exception>(()),
        final (hart).regs@ == spec_set_reg(
            old(hart).regs@,
            spec_rd(inst),
            (if (old(hart).regs@[spec_rs2(inst)] as u32) == 0 {
                0xFFFF_FFFF_FFFF_FFFFu64
            } else if (old(hart).regs@[spec_rs1(inst)] as u32) == 0x8000_0000 && (old(hart).regs@[spec_rs2(inst)] as u32) == 0xFFFF_FFFF {
                (((old(hart).regs@[spec_rs1(inst)] as u32) as i32) as u64)
            } else {
                ((spec_div_signed32((old(hart).regs@[spec_rs1(inst)] as u32), (old(hart).regs@[spec_rs2(inst)] as u32)) as i32) as i64 as u64)
            }),
        ),
{
    let rd = rd_of(inst);
    let a = hart.regs.get(rs1_of(inst));
    let b = hart.regs.get(rs2_of(inst));
    #[verifier::truncate]
    let a32 = a as u32;
    #[verifier::truncate]
    let b32 = b as u32;
    let v: u64 = if b32 == 0 {
        0xFFFF_FFFF_FFFF_FFFF
    } else if a32 == 0x8000_0000 && b32 == 0xFFFF_FFFF {
        #[verifier::truncate]
        let w = (a32 as i32) as u64;
        w
    } else {
        proof {
            crate::util::lemma_negation_nonzero_u32(b32);
        }
        let q = mag32(a32) / mag32(b32);
        #[verifier::truncate]
        let sa = a32 as i32;
        #[verifier::truncate]
        let sb = b32 as i32;
        let qq = if (sa >= 0) == (sb >= 0) {
            q
        } else {
            neg32(q)
        };
        #[verifier::truncate]
        let w = (qq as i32) as i64 as u64;
        w
    };
    hart.regs.set(rd, v);
    Ok(())
}
/// DIVUW: unsigned 32-bit division, sign-extended; all-ones
/// for a zero divisor.
pub fn exec_divuw(hart: &mut Hart, inst: u32) -> (r: Result<(), Exception>)
    requires
        old(hart).wf(),
    ensures
        final (hart).wf(),
        only_regs_changed(old(hart), final (hart)),
        r == Ok::<(), Exception>(()),
        final (hart).regs@ == spec_set_reg(
            old(hart).regs@,
            spec_rd(inst),
            (if (old(hart).regs@[spec_rs2(inst)] as u32) == 0 {
                0xFFFF_FFFF_FFFF_FFFFu64
            } else {
                ((((old(hart).regs@[spec_rs1(inst)] as u32) / (old(hart).regs@[spec_rs2(inst)] as u32)) as i32) as i64 as u64)
            }),
        ),
{
    let rd = rd_of(inst);
    let a = hart.regs.get(rs1_of(inst));
    let b = hart.regs.get(rs2_of(inst));
    #[verifier::truncate]
    let a32 = a as u32;
    #[verifier::truncate]
    let b32 = b as u32;
    let v: u64 = if b32 == 0 {
        0xFFFF_FFFF_FFFF_FFFF
    } else {
        #[verifier::truncate]
        let w = ((a32 / b32) as i32) as i64 as u64;
        w
    };
    hart.regs.set(rd, v);
    Ok(())
}
/// REMW: signed 32-bit remainder, sign-extended; the dividend
/// for a zero divisor, zero on overflow.
pub fn exec_remw(hart: &mut Hart, inst: u32) -> (r: Result<(), Exception>)
    requires
        old(hart).wf(),
    ensures
        final (hart).wf(),
        only_regs_changed(old(hart), final (hart)),
        r == Ok::<(), Exception>(()),
        final (hart).regs@ == spec_set_reg(
            old(hart).regs@,
            spec_rd(inst),
            (if (old(hart).regs@[spec_rs2(inst)] as u32) == 0 {
                (((old(hart).regs@[spec_rs1(inst)] as u32) as i32) as i64 as u64)
            } else if (old(hart).regs@[spec_rs1(inst)] as u32) == 0x8000_0000 && (old(hart).regs@[spec_rs2(inst)] as u32) == 0xFFFF_FFFF {
                0u64
            } else {
                ((spec_rem_signed32((old(hart).regs@[spec_rs1(inst)] as u32), (old(hart).regs@[spec_rs2(inst)] as u32)) as i32) as i64 as u64)
            }),
        ),
{
    let rd = rd_of(inst);
    let a = hart.regs.get(rs1_of(inst));
    let b = hart.regs.get(rs2_of(inst));
    #[verifier::truncate]
    let a32 = a as u32;
    #[verifier::truncate]
    let b32 = b as u32;
    let v: u64 = if b32 == 0 {
        #[verifier::truncate]
        let w = (a32 as i32) as i64 as u64;
        w
    } else if a32 == 0x8000_0000 && b32 == 0xFFFF_FFFF {
        0
    } else {
        proof {
            crate::util::lemma_negation_nonzero_u32(b32);
        }
        let m = mag32(a32) % mag32(b32);
        #[verifier::truncate]
        let sa = a32 as i32;
        let mm = if sa >= 0 {
            m
        } else {
            neg32(m)
        };
        #[verifier::truncate]
        let w = (mm as i32) as i64 as u64;
        w
    };
    hart.regs.set(rd, v);
    Ok(())
}
/// REMUW: unsigned 32-bit remainder, sign-extended; the
/// dividend for a zero divisor.
pub fn exec_remuw(hart: &mut Hart, inst: u32) -> (r: Result<(), Exception>)
    requires
        old(hart).wf(),
    ensures
        final (hart).wf(),
        only_regs_changed(old(hart), final (hart)),
        r == Ok::<(), Exception>(()),
        final (hart).regs@ == spec_set_reg(
            old(hart).regs@,
            spec_rd(inst),
            (if (old(hart).regs@[spec_rs2(inst)] as u32) == 0 {
                (((old(hart).regs@[spec_rs1(inst)] as u32) as i32) as i64 as u64)
            } else {
                ((((old(hart).regs@[spec_rs1(inst)] as u32) % (old(hart).regs@[spec_rs2(inst)] as u32)) as i32) as i64 as u64)
            }),
        ),
{
    let rd = rd_of(inst);
    let a = hart.regs.get(rs1_of(inst));
    let b = hart.regs.get(rs2_of(inst));
    #[verifier::truncate]
    let a32 = a as u32;
    #[verifier::truncate]
    let b32 = b as u32;
    let v: u64 = if b32 == 0 {
        #[verifier::truncate]
        let w = (a32 as i32) as i64 as u64;
        w
    } else {
        #[verifier::truncate]
        let w = ((a32 % b32) as i32) as i64 as u64;
        w
    };
    hart.regs.set(rd, v);
    Ok(())
}
} // verus!
