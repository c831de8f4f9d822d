//! Instruction-field extraction: register indices and the sign-extended
//! immediates of each encoding format.

use vstd::prelude::*;
use crate::util::sign_extended;

verus! {

pub open spec fn spec_rd(inst: u32) -> int {
    ((inst >> 7) & 0x1F) as int
}

pub open spec fn spec_rs1(inst: u32) -> int {
    ((inst >> 15) & 0x1F) as int
}

pub open spec fn spec_rs2(inst: u32) -> int {
    ((inst >> 20) & 0x1F) as int
}

pub open spec fn spec_rs3(inst: u32) -> int {
    ((inst >> 27) & 0x1F) as int
}

pub fn rd_of(inst: u32) -> (r: usize)
    ensures
        r == spec_rd(inst),
        r < 32,
{
    proof {
        crate::util::lemma_mask_bounds_u32(inst >> 7);
    }
    ((inst >> 7) & 0x1F) as usize
}

pub fn rs1_of(inst: u32) -> (r: usize)
    ensures
        r == spec_rs1(inst),
        r < 32,
{
    proof {
        crate::util::lemma_mask_bounds_u32(inst >> 15);
    }
    ((inst >> 15) & 0x1F) as usize
}

pub fn rs2_of(inst: u32) -> (r: usize)
    ensures
        r == spec_rs2(inst),
        r < 32,
{
    proof {
        crate::util::lemma_mask_bounds_u32(inst >> 20);
    }
    ((inst >> 20) & 0x1F) as usize
}

pub fn rs3_of(inst: u32) -> (r: usize)
    ensures
        r == spec_rs3(inst),
        r < 32,
{
    proof {
        crate::util::lemma_mask_bounds_u32(inst >> 27);
    }
    ((inst >> 27) & 0x1F) as usize
}

/// The I-type immediate, instruction bits [31:20], sign-extended.
pub open spec fn spec_imm_i(inst: u32) -> u64 {
    sign_extended((inst >> 20) as u64, 12) as u64
}

pub fn imm_i(inst: u32) -> (r: u64)
    ensures
        r == spec_imm_i(inst),
{
    #[verifier::truncate]
    let r = crate::util::extend_sign((inst >> 20) as u64, 12) as u64;
    r
}

/// The S-type immediate: bits [31:25] and [11:7], sign-extended.
pub open spec fn spec_imm_s(inst: u32) -> u64 {
    sign_extended((((inst >> 25) << 5) as u64) | (((inst >> 7) & 0x1F) as u64), 12) as u64
}

pub fn imm_s(inst: u32) -> (r: u64)
    ensures
        r == spec_imm_s(inst),
{
    #[verifier::truncate]
    let r = crate::util::extend_sign(
        (((inst >> 25) << 5) as u64) | (((inst >> 7) & 0x1F) as u64),
        12,
    ) as u64;
    r
}

/// The B-type immediate: a 13-bit branch offset, sign-extended.
pub open spec fn spec_imm_b(inst: u32) -> u64 {
    sign_extended(
        ((((inst >> 31) & 0x1) << 12) as u64) | ((((inst >> 7) & 0x1) << 11) as u64) | ((((inst
            >> 25) & 0x3F) << 5) as u64) | ((((inst >> 8) & 0xF) << 1) as u64),
        13,
    ) as u64
}

pub fn imm_b(inst: u32) -> (r: u64)
    ensures
        r == spec_imm_b(inst),
{
    #[verifier::truncate]
    let r = crate::util::extend_sign(
        ((((inst >> 31) & 0x1) << 12) as u64) | ((((inst >> 7) & 0x1) << 11) as u64) | ((((inst
            >> 25) & 0x3F) << 5) as u64) | ((((inst >> 8) & 0xF) << 1) as u64),
        13,
    ) as u64;
    r
}

/// The U-type immediate: bits [31:12] already in place, sign-extended
/// from bit 31.
pub open spec fn spec_imm_u(inst: u32) -> u64 {
    sign_extended((inst & 0xFFFF_F000) as u64, 32) as u64
}

pub fn imm_u(inst: u32) -> (r: u64)
    ensures
        r == spec_imm_u(inst),
{
    #[verifier::truncate]
    let r = crate::util::extend_sign((inst & 0xFFFF_F000) as u64, 32) as u64;
    r
}

/// The J-type immediate: a 21-bit jump offset, sign-extended.
pub open spec fn spec_imm_j(inst: u32) -> u64 {
    sign_extended(
        ((((inst >> 31) & 0x1) as u64) << 20) | ((((inst >> 12) & 0xFF) as u64) << 12) | ((((inst
            >> 20) & 0x1) as u64) << 11) | ((((inst >> 21) & 0x3FF) as u64) << 1),
        21,
    ) as u64
}

pub fn imm_j(inst: u32) -> (r: u64)
    ensures
        r == spec_imm_j(inst),
{
    #[verifier::truncate]
    let r = crate::util::extend_sign(
        ((((inst >> 31) & 0x1) as u64) << 20) | ((((inst >> 12) & 0xFF) as u64) << 12) | ((((inst
            >> 20) & 0x1) as u64) << 11) | ((((inst >> 21) & 0x3FF) as u64) << 1),
        21,
    ) as u64;
    r
}

/// The acquire/release qualifiers and register fields of an atomic.
pub open spec fn spec_aq(inst: u32) -> bool {
    (inst >> 26) & 1 == 1
}

pub open spec fn spec_rl(inst: u32) -> bool {
    (inst >> 25) & 1 == 1
}

pub fn aq_of(inst: u32) -> (r: bool)
    ensures
        r == spec_aq(inst),
{
    (inst >> 26) & 1 == 1
}

pub fn rl_of(inst: u32) -> (r: bool)
    ensures
        r == spec_rl(inst),
{
    (inst >> 25) & 1 == 1
}

/// The static rounding-mode field of a floating-point instruction.
pub open spec fn spec_rm(inst: u32) -> u8 {
    ((inst >> 12) & 0x7) as u8
}

pub fn rm_of(inst: u32) -> (r: u8)
    ensures
        r == spec_rm(inst),
        r <= 7,
{
    proof {
        crate::util::lemma_mask_bounds_u32(inst >> 12);
    }
    ((inst >> 12) & 0x7) as u8
}

/// The four memory orderings an atomic's aq/rl pair can name.
#[derive(Debug, Clone, Copy, PartialEq, Eq, Structural)]
pub enum MemoryOrdering {
    Relaxed,
    Acquire,
    Release,
    AcquireRelease,
}

/// The standard mapping of the aq/rl qualifiers to an ordering.
pub open spec fn spec_ordering(aq: bool, rl: bool) -> MemoryOrdering {
    if aq && rl {
        MemoryOrdering::AcquireRelease
    } else if aq {
        MemoryOrdering::Acquire
    } else if rl {
        MemoryOrdering::Release
    } else {
        MemoryOrdering::Relaxed
    }
}

/// Map an atomic's aq/rl bits to the ordering it requests. With the
/// bus serialized under a single hart every ordering is satisfied
/// trivially, so callers only record this.
pub fn ordering(aq: bool, rl: bool) -> (r: MemoryOrdering)
    ensures
        r == spec_ordering(aq, rl),
{
    if aq && rl {
        MemoryOrdering::AcquireRelease
    } else if aq {
        MemoryOrdering::Acquire
    } else if rl {
        MemoryOrdering::Release
    } else {
        MemoryOrdering::Relaxed
    }
}

} // verus!
