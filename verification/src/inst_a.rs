//! The atomic extension: load-reserved / store-conditional and the
//! atomic memory operations, word and doubleword width.

use vstd::prelude::*;
use crate::hart::{Hart, spec_set_reg, only_regs_changed, spec_mode_encoding};
use crate::fields::{rd_of, rs1_of, rs2_of, spec_rd, spec_rs1, spec_rs2};
use crate::memory::ram_range;
use crate::mmu::{MMU, AccessType, spec_translate};
use crate::trap::Exception;

verus! {

/// LR at 32-bit width: an aligned load that also records a
/// reservation for the address.
pub fn exec_lr32(hart: &mut Hart, mmu: &mut MMU, inst: u32) -> (r: Result<(), Exception>)
    requires
        old(hart).wf(),
        old(mmu).wf(),
    ensures
        final (hart).wf(),
        final (mmu).wf(),
        only_regs_changed(old(hart), final (hart)),
        final (mmu).ram() == old(mmu).ram(),
        r matches Ok(_) ==> final (mmu).reservations() == old(mmu).reservations().push(
            old(hart).regs@[spec_rs1(inst)],
        ),
        r matches Err(_) ==> final (mmu).reservations() == old(mmu).reservations() && final (
        hart).regs@ == old(hart).regs@,
        ({
            let addr = old(hart).regs@[spec_rs1(inst)];
            let t = spec_translate(
                old(mmu).ram(),
                old(hart).csr@[crate::csr::SATP as int],
                old(hart).csr@[crate::csr::MSTATUS as int],
                spec_mode_encoding(old(hart).mode),
                addr,
                AccessType::Read,
            );
            addr % 4 == 0 ==> ((t matches Err(e) ==> r == Err::<(), Exception>(e)) && (
            t matches Ok(pa) ==> (ram_range(pa, 4) ==> r == Ok::<(), Exception>(()) && final (
            hart).regs@ == spec_set_reg(old(hart).regs@, spec_rd(inst), (crate::memory::spec_read_u32(old(mmu).ram(), pa) as i32 as i64 as u64)))))
        }),
{
    let rd = rd_of(inst);
    let address = hart.regs.get(rs1_of(inst));
    let mode = hart.mode.as_u8();
    let data = match mmu.read32(&hart.csr, mode, address) {
        Ok(d) => d,
        Err(e) => {
            return Err(e);
        },
    };
    #[verifier::truncate]
    let v = data as i32 as i64 as u64;
    hart.regs.set(rd, v);
    mmu.lock_addr(address);
    Ok(())
}

/// LR at 64-bit width: an aligned load that also records a
/// reservation for the address.
pub fn exec_lr64(hart: &mut Hart, mmu: &mut MMU, inst: u32) -> (r: Result<(), Exception>)
    requires
        old(hart).wf(),
        old(mmu).wf(),
    ensures
        final (hart).wf(),
        final (mmu).wf(),
        only_regs_changed(old(hart), final (hart)),
        final (mmu).ram() == old(mmu).ram(),
        r matches Ok(_) ==> final (mmu).reservations() == old(mmu).reservations().push(
            old(hart).regs@[spec_rs1(inst)],
        ),
        r matches Err(_) ==> final (mmu).reservations() == old(mmu).reservations() && final (
        hart).regs@ == old(hart).regs@,
        ({
            let addr = old(hart).regs@[spec_rs1(inst)];
            let t = spec_translate(
                old(mmu).ram(),
                old(hart).csr@[crate::csr::SATP as int],
                old(hart).csr@[crate::csr::MSTATUS as int],
                spec_mode_encoding(old(hart).mode),
                addr,
                AccessType::Read,
            );
            addr % 8 == 0 ==> ((t matches Err(e) ==> r == Err::<(), Exception>(e)) && (
            t matches Ok(pa) ==> (ram_range(pa, 8) ==> r == Ok::<(), Exception>(()) && final (
            hart).regs@ == spec_set_reg(old(hart).regs@, spec_rd(inst), crate::memory::spec_read_u64(old(mmu).ram(), pa)))))
        }),
{
    let rd = rd_of(inst);
    let address = hart.regs.get(rs1_of(inst));
    let mode = hart.mode.as_u8();
    let data = match mmu.read64(&hart.csr, mode, address) {
        Ok(d) => d,
        Err(e) => {
            return Err(e);
        },
    };
    let v = data;
    hart.regs.set(rd, v);
    mmu.lock_addr(address);
    Ok(())
}

/// SC at 32-bit width: store only when the address is still
/// reserved, writing 0 to rd on success and 1 on failure; the whole
/// reservation set is consumed either way.
pub fn exec_sc32(hart: &mut Hart, mmu: &mut MMU, inst: u32) -> (r: Result<(), Exception>)
    requires
        old(hart).wf(),
        old(mmu).wf(),
    ensures
        final (hart).wf(),
        final (mmu).wf(),
        only_regs_changed(old(hart), final (hart)),
        !old(mmu).reservations().contains(old(hart).regs@[spec_rs1(inst)]) ==> r == Ok::<
            (),
            Exception,
        >(()) && final (hart).regs@ == spec_set_reg(old(hart).regs@, spec_rd(inst), 1) && final (
        mmu).ram() == old(mmu).ram() && final (mmu).reservations() == Seq::<u64>::empty(),
        ({
            let addr = old(hart).regs@[spec_rs1(inst)];
            let t = spec_translate(
                old(mmu).ram(),
                old(hart).csr@[crate::csr::SATP as int],
                old(hart).csr@[crate::csr::MSTATUS as int],
                spec_mode_encoding(old(hart).mode),
                addr,
                AccessType::Write,
            );
            old(mmu).reservations().contains(addr) && addr % 4 == 0 ==> ((t matches Err(e)
                ==> r == Err::<(), Exception>(e) && final (mmu).ram() == old(mmu).ram()) && (
            t matches Ok(pa) ==> (ram_range(pa, 4) ==> r == Ok::<(), Exception>(()) && final (
            mmu).ram() == crate::memory::spec_write_u32(old(mmu).ram(), pa, (old(hart).regs@[spec_rs2(inst)] as u32)) && final (
            hart).regs@ == spec_set_reg(old(hart).regs@, spec_rd(inst), 0) && final (
            mmu).reservations() == Seq::<u64>::empty())))
        }),
{
    let rd = rd_of(inst);
    let address = hart.regs.get(rs1_of(inst));
    if mmu.unlock_addr(address) {
        let full = hart.regs.get(rs2_of(inst));
        #[verifier::truncate]
        let data = full as u32;
        let mode = hart.mode.as_u8();
        match mmu.write32(&hart.csr, mode, address, data) {
            Ok(_) => {},
            Err(e) => {
                return Err(e);
            },
        };
        hart.regs.set(rd, 0);
        Ok(())
    } else {
        hart.regs.set(rd, 1);
        Ok(())
    }
}

/// SC at 64-bit width: store only when the address is still
/// reserved, writing 0 to rd on success and 1 on failure; the whole
/// reservation set is consumed either way.
pub fn exec_sc64(hart: &mut Hart, mmu: &mut MMU, inst: u32) -> (r: Result<(), Exception>)
    requires
        old(hart).wf(),
        old(mmu).wf(),
    ensures
        final (hart).wf(),
        final (mmu).wf(),
        only_regs_changed(old(hart), final (hart)),
        !old(mmu).reservations().contains(old(hart).regs@[spec_rs1(inst)]) ==> r == Ok::<
            (),
            Exception,
        >(()) && final (hart).regs@ == spec_set_reg(old(hart).regs@, spec_rd(inst), 1) && final (
        mmu).ram() == old(mmu).ram() && final (mmu).reservations() == Seq::<u64>::empty(),
        ({
            let addr = old(hart).regs@[spec_rs1(inst)];
            let t = spec_translate(
                old(mmu).ram(),
                old(hart).csr@[crate::csr::SATP as int],
                old(hart).csr@[crate::csr::MSTATUS as int],
                spec_mode_encoding(old(hart).mode),
                addr,
                AccessType::Write,
            );
            old(mmu).reservations().contains(addr) && addr % 8 == 0 ==> ((t matches Err(e)
                ==> r == Err::<(), Exception>(e) && final (mmu).ram() == old(mmu).ram()) && (
            t matches Ok(pa) ==> (ram_range(pa, 8) ==> r == Ok::<(), Exception>(()) && final (
            mmu).ram() == crate::memory::spec_write_u64(old(mmu).ram(), pa, old(hart).regs@[spec_rs2(inst)]) && final (
            hart).regs@ == spec_set_reg(old(hart).regs@, spec_rd(inst), 0) && final (
            mmu).reservations() == Seq::<u64>::empty())))
        }),
{
    let rd = rd_of(inst);
    let address = hart.regs.get(rs1_of(inst));
    if mmu.unlock_addr(address) {
        let full = hart.regs.get(rs2_of(inst));
        let data = full;
        let mode = hart.mode.as_u8();
        match mmu.write64(&hart.csr, mode, address, data) {
            Ok(_) => {},
            Err(e) => {
                return Err(e);
            },
        };
        hart.regs.set(rd, 0);
        Ok(())
    } else {
        hart.regs.set(rd, 1);
        Ok(())
    }
}

/// AMO exchange on a word: returns the prior word, sign-extended.
pub fn exec_amoswap32(hart: &mut Hart, mmu: &mut MMU, inst: u32) -> (r: Result<(), Exception>)
    requires
        old(hart).wf(),
        old(mmu).wf(),
    ensures
        final (hart).wf(),
        final (mmu).wf(),
        only_regs_changed(old(hart), final (hart)),
        r matches Err(_) ==> final (hart).regs@ == old(hart).regs@,
        old(hart).regs@[spec_rs1(inst)] % 4 != 0 ==> r == Err::<(), Exception>(
            Exception::StoreAMOAddressMisaligned(old(hart).regs@[spec_rs1(inst)]),
        ) && final (mmu).ram() == old(mmu).ram(),
        ({
            let addr = old(hart).regs@[spec_rs1(inst)];
            let t = spec_translate(
                old(mmu).ram(),
                old(hart).csr@[crate::csr::SATP as int],
                old(hart).csr@[crate::csr::MSTATUS as int],
                spec_mode_encoding(old(hart).mode),
                addr,
                AccessType::ReadWrite,
            );
            addr % 4 == 0 ==> ((t matches Err(e) ==> r == Err::<(), Exception>(e) && final (
            mmu).ram() == old(mmu).ram()) && (t matches Ok(pa) ==> (ram_range(pa, 4) ==> r
                == Ok::<(), Exception>(()) && final (hart).regs@ == spec_set_reg(
                old(hart).regs@,
                spec_rd(inst),
                (crate::memory::spec_read_u32(old(mmu).ram(), pa) as i32 as i64 as u64),
            ))))
        }),
{
    let rd = rd_of(inst);
    let address = hart.regs.get(rs1_of(inst));
    let full = hart.regs.get(rs2_of(inst));
    #[verifier::truncate]
    let val = full as u32;
    let mode = hart.mode.as_u8();
    let res = match mmu.atomic_swap32(&hart.csr, mode, address, val) {
        Ok(v) => v,
        Err(e) => {
            return Err(e);
        },
    };
    #[verifier::truncate]
    let v = res as i32 as i64 as u64;
    hart.regs.set(rd, v);
    Ok(())
}

/// AMO exchange on a doubleword: returns the prior value.
pub fn exec_amoswap64(hart: &mut Hart, mmu: &mut MMU, inst: u32) -> (r: Result<(), Exception>)
    requires
        old(hart).wf(),
        old(mmu).wf(),
    ensures
        final (hart).wf(),
        final (mmu).wf(),
        only_regs_changed(old(hart), final (hart)),
        r matches Err(_) ==> final (hart).regs@ == old(hart).regs@,
        old(hart).regs@[spec_rs1(inst)] % 8 != 0 ==> r == Err::<(), Exception>(
            Exception::StoreAMOAddressMisaligned(old(hart).regs@[spec_rs1(inst)]),
        ) && final (mmu).ram() == old(mmu).ram(),
        ({
            let addr = old(hart).regs@[spec_rs1(inst)];
            let t = spec_translate(
                old(mmu).ram(),
                old(hart).csr@[crate::csr::SATP as int],
                old(hart).csr@[crate::csr::MSTATUS as int],
                spec_mode_encoding(old(hart).mode),
                addr,
                AccessType::ReadWrite,
            );
            addr % 8 == 0 ==> ((t matches Err(e) ==> r == Err::<(), Exception>(e) && final (
            mmu).ram() == old(mmu).ram()) && (t matches Ok(pa) ==> (ram_range(pa, 8) ==> r
                == Ok::<(), Exception>(()) && final (hart).regs@ == spec_set_reg(
                old(hart).regs@,
                spec_rd(inst),
                crate::memory::spec_read_u64(old(mmu).ram(), pa),
            ))))
        }),
{
    let rd = rd_of(inst);
    let address = hart.regs.get(rs1_of(inst));
    let full = hart.regs.get(rs2_of(inst));
    let val = full;
    let mode = hart.mode.as_u8();
    let res = match mmu.atomic_swap64(&hart.csr, mode, address, val) {
        Ok(v) => v,
        Err(e) => {
            return Err(e);
        },
    };
    let v = res;
    hart.regs.set(rd, v);
    Ok(())
}

/// AMO fetch-add on a word: returns the prior word, sign-extended.
pub fn exec_amoadd32(hart: &mut Hart, mmu: &mut MMU, inst: u32) -> (r: Result<(), Exception>)
    requires
        old(hart).wf(),
        old(mmu).wf(),
    ensures
        final (hart).wf(),
        final (mmu).wf(),
        only_regs_changed(old(hart), final (hart)),
        r matches Err(_) ==> final (hart).regs@ == old(hart).regs@,
        old(hart).regs@[spec_rs1(inst)] % 4 != 0 ==> r == Err::<(), Exception>(
            Exception::StoreAMOAddressMisaligned(old(hart).regs@[spec_rs1(inst)]),
        ) && final (mmu).ram() == old(mmu).ram(),
        ({
            let addr = old(hart).regs@[spec_rs1(inst)];
            let t = spec_translate(
                old(mmu).ram(),
                old(hart).csr@[crate::csr::SATP as int],
                old(hart).csr@[crate::csr::MSTATUS as int],
                spec_mode_encoding(old(hart).mode),
                addr,
                AccessType::ReadWrite,
            );
            addr % 4 == 0 ==> ((t matches Err(e) ==> r == Err::<(), Exception>(e) && final (
            mmu).ram() == old(mmu).ram()) && (t matches Ok(pa) ==> (ram_range(pa, 4) ==> r
                == Ok::<(), Exception>(()) && final (hart).regs@ == spec_set_reg(
                old(hart).regs@,
                spec_rd(inst),
                (crate::memory::spec_read_u32(old(mmu).ram(), pa) as i32 as i64 as u64),
            ))))
        }),
{
    let rd = rd_of(inst);
    let address = hart.regs.get(rs1_of(inst));
    let full = hart.regs.get(rs2_of(inst));
    #[verifier::truncate]
    let val = full as u32;
    let mode = hart.mode.as_u8();
    let res = match mmu.atomic_add32(&hart.csr, mode, address, val) {
        Ok(v) => v,
        Err(e) => {
            return Err(e);
        },
    };
    #[verifier::truncate]
    let v = res as i32 as i64 as u64;
    hart.regs.set(rd, v);
    Ok(())
}

/// AMO fetch-add on a doubleword: returns the prior value.
pub fn exec_amoadd64(hart: &mut Hart, mmu: &mut MMU, inst: u32) -> (r: Result<(), Exception>)
    requires
        old(hart).wf(),
        old(mmu).wf(),
    ensures
        final (hart).wf(),
        final (mmu).wf(),
        only_regs_changed(old(hart), final (hart)),
        r matches Err(_) ==> final (hart).regs@ == old(hart).regs@,
        old(hart).regs@[spec_rs1(inst)] % 8 != 0 ==> r == Err::<(), Exception>(
            Exception::StoreAMOAddressMisaligned(old(hart).regs@[spec_rs1(inst)]),
        ) && final (mmu).ram() == old(mmu).ram(),
        ({
            let addr = old(hart).regs@[spec_rs1(inst)];
            let t = spec_translate(
                old(mmu).ram(),
                old(hart).csr@[crate::csr::SATP as int],
                old(hart).csr@[crate::csr::MSTATUS as int],
                spec_mode_encoding(old(hart).mode),
                addr,
                AccessType::ReadWrite,
            );
            addr % 8 == 0 ==> ((t matches Err(e) ==> r == Err::<(), Exception>(e) && final (
            mmu).ram() == old(mmu).ram()) && (t matches Ok(pa) ==> (ram_range(pa, 8) ==> r
                == Ok::<(), Exception>(()) && final (hart).regs@ == spec_set_reg(
                old(hart).regs@,
                spec_rd(inst),
                crate::memory::spec_read_u64(old(mmu).ram(), pa),
            ))))
        }),
{
    let rd = rd_of(inst);
    let address = hart.regs.get(rs1_of(inst));
    let full = hart.regs.get(rs2_of(inst));
    let val = full;
    let mode = hart.mode.as_u8();
    let res = match mmu.atomic_add64(&hart.csr, mode, address, val) {
        Ok(v) => v,
        Err(e) => {
            return Err(e);
        },
    };
    let v = res;
    hart.regs.set(rd, v);
    Ok(())
}

/// AMO fetch-xor on a word: returns the prior word, sign-extended.
pub fn exec_amoxor32(hart: &mut Hart, mmu: &mut MMU, inst: u32) -> (r: Result<(), Exception>)
    requires
        old(hart).wf(),
        old(mmu).wf(),
    ensures
        final (hart).wf(),
        final (mmu).wf(),
        only_regs_changed(old(hart), final (hart)),
        r matches Err(_) ==> final (hart).regs@ == old(hart).regs@,
        old(hart).regs@[spec_rs1(inst)] % 4 != 0 ==> r == Err::<(), Exception>(
            Exception::StoreAMOAddressMisaligned(old(hart).regs@[spec_rs1(inst)]),
        ) && final (mmu).ram() == old(mmu).ram(),
        ({
            let addr = old(hart).regs@[spec_rs1(inst)];
            let t = spec_translate(
                old(mmu).ram(),
                old(hart).csr@[crate::csr::SATP as int],
                old(hart).csr@[crate::csr::MSTATUS as int],
                spec_mode_encoding(old(hart).mode),
                addr,
                AccessType::ReadWrite,
            );
            addr % 4 == 0 ==> ((t matches Err(e) ==> r == Err::<(), Exception>(e) && final (
            mmu).ram() == old(mmu).ram()) && (t matches Ok(pa) ==> (ram_range(pa, 4) ==> r
                == Ok::<(), Exception>(()) && final (hart).regs@ == spec_set_reg(
                old(hart).regs@,
                spec_rd(inst),
                (crate::memory::spec_read_u32(old(mmu).ram(), pa) as i32 as i64 as u64),
            ))))
        }),
{
    let rd = rd_of(inst);
    let address = hart.regs.get(rs1_of(inst));
    let full = hart.regs.get(rs2_of(inst));
    #[verifier::truncate]
    let val = full as u32;
    let mode = hart.mode.as_u8();
    let res = match mmu.atomic_xor32(&hart.csr, mode, address, val) {
        Ok(v) => v,
        Err(e) => {
            return Err(e);
        },
    };
    #[verifier::truncate]
    let v = res as i32 as i64 as u64;
    hart.regs.set(rd, v);
    Ok(())
}

/// AMO fetch-xor on a doubleword: returns the prior value.
pub fn exec_amoxor64(hart: &mut Hart, mmu: &mut MMU, inst: u32) -> (r: Result<(), Exception>)
    requires
        old(hart).wf(),
        old(mmu).wf(),
    ensures
        final (hart).wf(),
        final (mmu).wf(),
        only_regs_changed(old(hart), final (hart)),
        r matches Err(_) ==> final (hart).regs@ == old(hart).regs@,
        old(hart).regs@[spec_rs1(inst)] % 8 != 0 ==> r == Err::<(), Exception>(
            Exception::StoreAMOAddressMisaligned(old(hart).regs@[spec_rs1(inst)]),
        ) && final (mmu).ram() == old(mmu).ram(),
        ({
            let addr = old(hart).regs@[spec_rs1(inst)];
            let t = spec_translate(
                old(mmu).ram(),
                old(hart).csr@[crate::csr::SATP as int],
                old(hart).csr@[crate::csr::MSTATUS as int],
                spec_mode_encoding(old(hart).mode),
                addr,
                AccessType::ReadWrite,
            );
            addr % 8 == 0 ==> ((t matches Err(e) ==> r == Err::<(), Exception>(e) && final (
            mmu).ram() == old(mmu).ram()) && (t matches Ok(pa) ==> (ram_range(pa, 8) ==> r
                == Ok::<(), Exception>(()) && final (hart).regs@ == spec_set_reg(
                old(hart).regs@,
                spec_rd(inst),
                crate::memory::spec_read_u64(old(mmu).ram(), pa),
            ))))
        }),
{
    let rd = rd_of(inst);
    let address = hart.regs.get(rs1_of(inst));
    let full = hart.regs.get(rs2_of(inst));
    let val = full;
    let mode = hart.mode.as_u8();
    let res = match mmu.atomic_xor64(&hart.csr, mode, address, val) {
        Ok(v) => v,
        Err(e) => {
            return Err(e);
        },
    };
    let v = res;
    hart.regs.set(rd, v);
    Ok(())
}

/// AMO fetch-and on a word: returns the prior word, sign-extended.
pub fn exec_amoand32(hart: &mut Hart, mmu: &mut MMU, inst: u32) -> (r: Result<(), Exception>)
    requires
        old(hart).wf(),
        old(mmu).wf(),
    ensures
        final (hart).wf(),
        final (mmu).wf(),
        only_regs_changed(old(hart), final (hart)),
        r matches Err(_) ==> final (hart).regs@ == old(hart).regs@,
        old(hart).regs@[spec_rs1(inst)] % 4 != 0 ==> r == Err::<(), Exception>(
            Exception::StoreAMOAddressMisaligned(old(hart).regs@[spec_rs1(inst)]),
        ) && final (mmu).ram() == old(mmu).ram(),
        ({
            let addr = old(hart).regs@[spec_rs1(inst)];
            let t = spec_translate(
                old(mmu).ram(),
                old(hart).csr@[crate::csr::SATP as int],
                old(hart).csr@[crate::csr::MSTATUS as int],
                spec_mode_encoding(old(hart).mode),
                addr,
                AccessType::ReadWrite,
            );
            addr % 4 == 0 ==> ((t matches Err(e) ==> r == Err::<(), Exception>(e) && final (
            mmu).ram() == old(mmu).ram()) && (t matches Ok(pa) ==> (ram_range(pa, 4) ==> r
                == Ok::<(), Exception>(()) && final (hart).regs@ == spec_set_reg(
                old(hart).regs@,
                spec_rd(inst),
                (crate::memory::spec_read_u32(old(mmu).ram(), pa) as i32 as i64 as u64),
            ))))
        }),
{
    let rd = rd_of(inst);
    let address = hart.regs.get(rs1_of(inst));
    let full = hart.regs.get(rs2_of(inst));
    #[verifier::truncate]
    let val = full as u32;
    let mode = hart.mode.as_u8();
    let res = match mmu.atomic_and32(&hart.csr, mode, address, val) {
        Ok(v) => v,
        Err(e) => {
            return Err(e);
        },
    };
    #[verifier::truncate]
    let v = res as i32 as i64 as u64;
    hart.regs.set(rd, v);
    Ok(())
}

/// AMO fetch-and on a doubleword: returns the prior value.
pub fn exec_amoand64(hart: &mut Hart, mmu: &mut MMU, inst: u32) -> (r: Result<(), Exception>)
    requires
        old(hart).wf(),
        old(mmu).wf(),
    ensures
        final (hart).wf(),
        final (mmu).wf(),
        only_regs_changed(old(hart), final (hart)),
        r matches Err(_) ==> final (hart).regs@ == old(hart).regs@,
        old(hart).regs@[spec_rs1(inst)] % 8 != 0 ==> r == Err::<(), Exception>(
            Exception::StoreAMOAddressMisaligned(old(hart).regs@[spec_rs1(inst)]),
        ) && final (mmu).ram() == old(mmu).ram(),
        ({
            let addr = old(hart).regs@[spec_rs1(inst)];
            let t = spec_translate(
                old(mmu).ram(),
                old(hart).csr@[crate::csr::SATP as int],
                old(hart).csr@[crate::csr::MSTATUS as int],
                spec_mode_encoding(old(hart).mode),
                addr,
                AccessType::ReadWrite,
            );
            addr % 8 == 0 ==> ((t matches Err(e) ==> r == Err::<(), Exception>(e) && final (
            mmu).ram() == old(mmu).ram()) && (t matches Ok(pa) ==> (ram_range(pa, 8) ==> r
                == Ok::<(), Exception>(()) && final (hart).regs@ == spec_set_reg(
                old(hart).regs@,
                spec_rd(inst),
                crate::memory::spec_read_u64(old(mmu).ram(), pa),
            ))))
        }),
{
    let rd = rd_of(inst);
    let address = hart.regs.get(rs1_of(inst));
    let full = hart.regs.get(rs2_of(inst));
    let val = full;
    let mode = hart.mode.as_u8();
    let res = match mmu.atomic_and64(&hart.csr, mode, address, val) {
        Ok(v) => v,
        Err(e) => {
            return Err(e);
        },
    };
    let v = res;
    hart.regs.set(rd, v);
    Ok(())
}

/// AMO fetch-or on a word: returns the prior word, sign-extended.
pub fn exec_amoor32(hart: &mut Hart, mmu: &mut MMU, inst: u32) -> (r: Result<(), Exception>)
    requires
        old(hart).wf(),
        old(mmu).wf(),
    ensures
        final (hart).wf(),
        final (mmu).wf(),
        only_regs_changed(old(hart), final (hart)),
        r matches Err(_) ==> final (hart).regs@ == old(hart).regs@,
        old(hart).regs@[spec_rs1(inst)] % 4 != 0 ==> r == Err::<(), Exception>(
            Exception::StoreAMOAddressMisaligned(old(hart).regs@[spec_rs1(inst)]),
        ) && final (mmu).ram() == old(mmu).ram(),
        ({
            let addr = old(hart).regs@[spec_rs1(inst)];
            let t = spec_translate(
                old(mmu).ram(),
                old(hart).csr@[crate::csr::SATP as int],
                old(hart).csr@[crate::csr::MSTATUS as int],
                spec_mode_encoding(old(hart).mode),
                addr,
                AccessType::ReadWrite,
            );
            addr % 4 == 0 ==> ((t matches Err(e) ==> r == Err::<(), Exception>(e) && final (
            mmu).ram() == old(mmu).ram()) && (t matches Ok(pa) ==> (ram_range(pa, 4) ==> r
                == Ok::<(), Exception>(()) && final (hart).regs@ == spec_set_reg(
                old(hart).regs@,
                spec_rd(inst),
                (crate::memory::spec_read_u32(old(mmu).ram(), pa) as i32 as i64 as u64),
            ))))
        }),
{
    let rd = rd_of(inst);
    let address = hart.regs.get(rs1_of(inst));
    let full = hart.regs.get(rs2_of(inst));
    #[verifier::truncate]
    let val = full as u32;
    let mode = hart.mode.as_u8();
    let res = match mmu.atomic_or32(&hart.csr, mode, address, val) {
        Ok(v) => v,
        Err(e) => {
            return Err(e);
        },
    };
    #[verifier::truncate]
    let v = res as i32 as i64 as u64;
    hart.regs.set(rd, v);
    Ok(())
}

/// AMO fetch-or on a doubleword: returns the prior value.
pub fn exec_amoor64(hart: &mut Hart, mmu: &mut MMU, inst: u32) -> (r: Result<(), Exception>)
    requires
        old(hart).wf(),
        old(mmu).wf(),
    ensures
        final (hart).wf(),
        final (mmu).wf(),
        only_regs_changed(old(hart), final (hart)),
        r matches Err(_) ==> final (hart).regs@ == old(hart).regs@,
        old(hart).regs@[spec_rs1(inst)] % 8 != 0 ==> r == Err::<(), Exception>(
            Exception::StoreAMOAddressMisaligned(old(hart).regs@[spec_rs1(inst)]),
        ) && final (mmu).ram() == old(mmu).ram(),
        ({
            let addr = old(hart).regs@[spec_rs1(inst)];
            let t = spec_translate(
                old(mmu).ram(),
                old(hart).csr@[crate::csr::SATP as int],
                old(hart).csr@[crate::csr::MSTATUS as int],
                spec_mode_encoding(old(hart).mode),
                addr,
                AccessType::ReadWrite,
            );
            addr % 8 == 0 ==> ((t matches Err(e) ==> r == Err::<(), Exception>(e) && final (
            mmu).ram() == old(mmu).ram()) && (t matches Ok(pa) ==> (ram_range(pa, 8) ==> r
                == Ok::<(), Exception>(()) && final (hart).regs@ == spec_set_reg(
                old(hart).regs@,
                spec_rd(inst),
                crate::memory::spec_read_u64(old(mmu).ram(), pa),
            ))))
        }),
{
    let rd = rd_of(inst);
    let address = hart.regs.get(rs1_of(inst));
    let full = hart.regs.get(rs2_of(inst));
    let val = full;
    let mode = hart.mode.as_u8();
    let res = match mmu.atomic_or64(&hart.csr, mode, address, val) {
        Ok(v) => v,
        Err(e) => {
            return Err(e);
        },
    };
    let v = res;
    hart.regs.set(rd, v);
    Ok(())
}

/// AMO signed fetch-minimum on a word: returns the prior word, sign-extended.
pub fn exec_amomin32(hart: &mut Hart, mmu: &mut MMU, inst: u32) -> (r: Result<(), Exception>)
    requires
        old(hart).wf(),
        old(mmu).wf(),
    ensures
        final (hart).wf(),
        final (mmu).wf(),
        only_regs_changed(old(hart), final (hart)),
        r matches Err(_) ==> final (hart).regs@ == old(hart).regs@,
        old(hart).regs@[spec_rs1(inst)] % 4 != 0 ==> r == Err::<(), Exception>(
            Exception::StoreAMOAddressMisaligned(old(hart).regs@[spec_rs1(inst)]),
        ) && final (mmu).ram() == old(mmu).ram(),
        ({
            let addr = old(hart).regs@[spec_rs1(inst)];
            let t = spec_translate(
                old(mmu).ram(),
                old(hart).csr@[crate::csr::SATP as int],
                old(hart).csr@[crate::csr::MSTATUS as int],
                spec_mode_encoding(old(hart).mode),
                addr,
                AccessType::ReadWrite,
            );
            addr % 4 == 0 ==> ((t matches Err(e) ==> r == Err::<(), Exception>(e) && final (
            mmu).ram() == old(mmu).ram()) && (t matches Ok(pa) ==> (ram_range(pa, 4) ==> r
                == Ok::<(), Exception>(()) && final (hart).regs@ == spec_set_reg(
                old(hart).regs@,
                spec_rd(inst),
                (crate::memory::spec_read_u32(old(mmu).ram(), pa) as i32 as i64 as u64),
            ))))
        }),
{
    let rd = rd_of(inst);
    let address = hart.regs.get(rs1_of(inst));
    let full = hart.regs.get(rs2_of(inst));
    #[verifier::truncate]
    let val = full as i32;
    let mode = hart.mode.as_u8();
    let res = match mmu.atomic_min_i32(&hart.csr, mode, address, val) {
        Ok(v) => v,
        Err(e) => {
            return Err(e);
        },
    };
    #[verifier::truncate]
    let v = res as i32 as i64 as u64;
    hart.regs.set(rd, v);
    Ok(())
}

/// AMO signed fetch-minimum on a doubleword: returns the prior value.
pub fn exec_amomin64(hart: &mut Hart, mmu: &mut MMU, inst: u32) -> (r: Result<(), Exception>)
    requires
        old(hart).wf(),
        old(mmu).wf(),
    ensures
        final (hart).wf(),
        final (mmu).wf(),
        only_regs_changed(old(hart), final (hart)),
        r matches Err(_) ==> final (hart).regs@ == old(hart).regs@,
        old(hart).regs@[spec_rs1(inst)] % 8 != 0 ==> r == Err::<(), Exception>(
            Exception::StoreAMOAddressMisaligned(old(hart).regs@[spec_rs1(inst)]),
        ) && final (mmu).ram() == old(mmu).ram(),
        ({
            let addr = old(hart).regs@[spec_rs1(inst)];
            let t = spec_translate(
                old(mmu).ram(),
                old(hart).csr@[crate::csr::SATP as int],
                old(hart).csr@[crate::csr::MSTATUS as int],
                spec_mode_encoding(old(hart).mode),
                addr,
                AccessType::ReadWrite,
            );
            addr % 8 == 0 ==> ((t matches Err(e) ==> r == Err::<(), Exception>(e) && final (
            mmu).ram() == old(mmu).ram()) && (t matches Ok(pa) ==> (ram_range(pa, 8) ==> r
                == Ok::<(), Exception>(()) && final (hart).regs@ == spec_set_reg(
                old(hart).regs@,
                spec_rd(inst),
                ((crate::memory::spec_read_u64(old(mmu).ram(), pa) as i64) as u64),
            ))))
        }),
{
    let rd = rd_of(inst);
    let address = hart.regs.get(rs1_of(inst));
    let full = hart.regs.get(rs2_of(inst));
    #[verifier::truncate]
    let val = full as i64;
    let mode = hart.mode.as_u8();
    let res = match mmu.atomic_min_i64(&hart.csr, mode, address, val) {
        Ok(v) => v,
        Err(e) => {
            return Err(e);
        },
    };
    #[verifier::truncate]
    let v = res as u64;
    hart.regs.set(rd, v);
    Ok(())
}

/// AMO signed fetch-maximum on a word: returns the prior word, sign-extended.
pub fn exec_amomax32(hart: &mut Hart, mmu: &mut MMU, inst: u32) -> (r: Result<(), Exception>)
    requires
        old(hart).wf(),
        old(mmu).wf(),
    ensures
        final (hart).wf(),
        final (mmu).wf(),
        only_regs_changed(old(hart), final (hart)),
        r matches Err(_) ==> final (hart).regs@ == old(hart).regs@,
        old(hart).regs@[spec_rs1(inst)] % 4 != 0 ==> r == Err::<(), Exception>(
            Exception::StoreAMOAddressMisaligned(old(hart).regs@[spec_rs1(inst)]),
        ) && final (mmu).ram() == old(mmu).ram(),
        ({
            let addr = old(hart).regs@[spec_rs1(inst)];
            let t = spec_translate(
                old(mmu).ram(),
                old(hart).csr@[crate::csr::SATP as int],
                old(hart).csr@[crate::csr::MSTATUS as int],
                spec_mode_encoding(old(hart).mode),
                addr,
                AccessType::ReadWrite,
            );
            addr % 4 == 0 ==> ((t matches Err(e) ==> r == Err::<(), Exception>(e) && final (
            mmu).ram() == old(mmu).ram()) && (t matches Ok(pa) ==> (ram_range(pa, 4) ==> r
                == Ok::<(), Exception>(()) && final (hart).regs@ == spec_set_reg(
                old(hart).regs@,
                spec_rd(inst),
                (crate::memory::spec_read_u32(old(mmu).ram(), pa) as i32 as i64 as u64),
            ))))
        }),
{
    let rd = rd_of(inst);
    let address = hart.regs.get(rs1_of(inst));
    let full = hart.regs.get(rs2_of(inst));
    #[verifier::truncate]
    let val = full as i32;
    let mode = hart.mode.as_u8();
    let res = match mmu.atomic_max_i32(&hart.csr, mode, address, val) {
        Ok(v) => v,
        Err(e) => {
            return Err(e);
        },
    };
    #[verifier::truncate]
    let v = res as i32 as i64 as u64;
    hart.regs.set(rd, v);
    Ok(())
}

/// AMO signed fetch-maximum on a doubleword: returns the prior value.
pub fn exec_amomax64(hart: &mut Hart, mmu: &mut MMU, inst: u32) -> (r: Result<(), Exception>)
    requires
        old(hart).wf(),
        old(mmu).wf(),
    ensures
        final (hart).wf(),
        final (mmu).wf(),
        only_regs_changed(old(hart), final (hart)),
        r matches Err(_) ==> final (hart).regs@ == old(hart).regs@,
        old(hart).regs@[spec_rs1(inst)] % 8 != 0 ==> r == Err::<(), Exception>(
            Exception::StoreAMOAddressMisaligned(old(hart).regs@[spec_rs1(inst)]),
        ) && final (mmu).ram() == old(mmu).ram(),
        ({
            let addr = old(hart).regs@[spec_rs1(inst)];
            let t = spec_translate(
                old(mmu).ram(),
                old(hart).csr@[crate::csr::SATP as int],
                old(hart).csr@[crate::csr::MSTATUS as int],
                spec_mode_encoding(old(hart).mode),
                addr,
                AccessType::ReadWrite,
            );
            addr % 8 == 0 ==> ((t matches Err(e) ==> r == Err::<(), Exception>(e) && final (
            mmu).ram() == old(mmu).ram()) && (t matches Ok(pa) ==> (ram_range(pa, 8) ==> r
                == Ok::<(), Exception>(()) && final (hart).regs@ == spec_set_reg(
                old(hart).regs@,
                spec_rd(inst),
                ((crate::memory::spec_read_u64(old(mmu).ram(), pa) as i64) as u64),
            ))))
        }),
{
    let rd = rd_of(inst);
    let address = hart.regs.get(rs1_of(inst));
    let full = hart.regs.get(rs2_of(inst));
    #[verifier::truncate]
    let val = full as i64;
    let mode = hart.mode.as_u8();
    let res = match mmu.atomic_max_i64(&hart.csr, mode, address, val) {
        Ok(v) => v,
        Err(e) => {
            return Err(e);
        },
    };
    #[verifier::truncate]
    let v = res as u64;
    hart.regs.set(rd, v);
    Ok(())
}

/// AMO unsigned fetch-minimum on a word: returns the prior word, sign-extended.
pub fn exec_amominu32(hart: &mut Hart, mmu: &mut MMU, inst: u32) -> (r: Result<(), Exception>)
    requires
        old(hart).wf(),
        old(mmu).wf(),
    ensures
        final (hart).wf(),
        final (mmu).wf(),
        only_regs_changed(old(hart), final (hart)),
        r matches Err(_) ==> final (hart).regs@ == old(hart).regs@,
        old(hart).regs@[spec_rs1(inst)] % 4 != 0 ==> r == Err::<(), Exception>(
            Exception::StoreAMOAddressMisaligned(old(hart).regs@[spec_rs1(inst)]),
        ) && final (mmu).ram() == old(mmu).ram(),
        ({
            let addr = old(hart).regs@[spec_rs1(inst)];
            let t = spec_translate(
                old(mmu).ram(),
                old(hart).csr@[crate::csr::SATP as int],
                old(hart).csr@[crate::csr::MSTATUS as int],
                spec_mode_encoding(old(hart).mode),
                addr,
                AccessType::ReadWrite,
            );
            addr % 4 == 0 ==> ((t matches Err(e) ==> r == Err::<(), Exception>(e) && final (
            mmu).ram() == old(mmu).ram()) && (t matches Ok(pa) ==> (ram_range(pa, 4) ==> r
                == Ok::<(), Exception>(()) && final (hart).regs@ == spec_set_reg(
                old(hart).regs@,
                spec_rd(inst),
                (crate::memory::spec_read_u32(old(mmu).ram(), pa) as i32 as i64 as u64),
            ))))
        }),
{
    let rd = rd_of(inst);
    let address = hart.regs.get(rs1_of(inst));
    let full = hart.regs.get(rs2_of(inst));
    #[verifier::truncate]
    let val = full as u32;
    let mode = hart.mode.as_u8();
    let res = match mmu.atomic_min_u32(&hart.csr, mode, address, val) {
        Ok(v) => v,
        Err(e) => {
            return Err(e);
        },
    };
    #[verifier::truncate]
    let v = res as i32 as i64 as u64;
    hart.regs.set(rd, v);
    Ok(())
}

/// AMO unsigned fetch-minimum on a doubleword: returns the prior value.
pub fn exec_amominu64(hart: &mut Hart, mmu: &mut MMU, inst: u32) -> (r: Result<(), Exception>)
    requires
        old(hart).wf(),
        old(mmu).wf(),
    ensures
        final (hart).wf(),
        final (mmu).wf(),
        only_regs_changed(old(hart), final (hart)),
        r matches Err(_) ==> final (hart).regs@ == old(hart).regs@,
        old(hart).regs@[spec_rs1(inst)] % 8 != 0 ==> r == Err::<(), Exception>(
            Exception::StoreAMOAddressMisaligned(old(hart).regs@[spec_rs1(inst)]),
        ) && final (mmu).ram() == old(mmu).ram(),
        ({
            let addr = old(hart).regs@[spec_rs1(inst)];
            let t = spec_translate(
                old(mmu).ram(),
                old(hart).csr@[crate::csr::SATP as int],
                old(hart).csr@[crate::csr::MSTATUS as int],
                spec_mode_encoding(old(hart).mode),
                addr,
                AccessType::ReadWrite,
            );
            addr % 8 == 0 ==> ((t matches Err(e) ==> r == Err::<(), Exception>(e) && final (
            mmu).ram() == old(mmu).ram()) && (t matches Ok(pa) ==> (ram_range(pa, 8) ==> r
                == Ok::<(), Exception>(()) && final (hart).regs@ == spec_set_reg(
                old(hart).regs@,
                spec_rd(inst),
                crate::memory::spec_read_u64(old(mmu).ram(), pa),
            ))))
        }),
{
    let rd = rd_of(inst);
    let address = hart.regs.get(rs1_of(inst));
    let full = hart.regs.get(rs2_of(inst));
    let val = full;
    let mode = hart.mode.as_u8();
    let res = match mmu.atomic_min_u64(&hart.csr, mode, address, val) {
        Ok(v) => v,
        Err(e) => {
            return Err(e);
        },
    };
    let v = res;
    hart.regs.set(rd, v);
    Ok(())
}

/// AMO unsigned fetch-maximum on a word: returns the prior word, sign-extended.
pub fn exec_amomaxu32(hart: &mut Hart, mmu: &mut MMU, inst: u32) -> (r: Result<(), Exception>)
    requires
        old(hart).wf(),
        old(mmu).wf(),
    ensures
        final (hart).wf(),
        final (mmu).wf(),
        only_regs_changed(old(hart), final (hart)),
        r matches Err(_) ==> final (hart).regs@ == old(hart).regs@,
        old(hart).regs@[spec_rs1(inst)] % 4 != 0 ==> r == Err::<(), Exception>(
            Exception::StoreAMOAddressMisaligned(old(hart).regs@[spec_rs1(inst)]),
        ) && final (mmu).ram() == old(mmu).ram(),
        ({
            let addr = old(hart).regs@[spec_rs1(inst)];
            let t = spec_translate(
                old(mmu).ram(),
                old(hart).csr@[crate::csr::SATP as int],
                old(hart).csr@[crate::csr::MSTATUS as int],
                spec_mode_encoding(old(hart).mode),
                addr,
                AccessType::ReadWrite,
            );
            addr % 4 == 0 ==> ((t matches Err(e) ==> r == Err::<(), Exception>(e) && final (
            mmu).ram() == old(mmu).ram()) && (t matches Ok(pa) ==> (ram_range(pa, 4) ==> r
                == Ok::<(), Exception>(()) && final (hart).regs@ == spec_set_reg(
                old(hart).regs@,
                spec_rd(inst),
                (crate::memory::spec_read_u32(old(mmu).ram(), pa) as i32 as i64 as u64),
            ))))
        }),
{
    let rd = rd_of(inst);
    let address = hart.regs.get(rs1_of(inst));
    let full = hart.regs.get(rs2_of(inst));
    #[verifier::truncate]
    let val = full as u32;
    let mode = hart.mode.as_u8();
    let res = match mmu.atomic_max_u32(&hart.csr, mode, address, val) {
        Ok(v) => v,
        Err(e) => {
            return Err(e);
        },
    };
    #[verifier::truncate]
    let v = res as i32 as i64 as u64;
    hart.regs.set(rd, v);
    Ok(())
}

/// AMO unsigned fetch-maximum on a doubleword: returns the prior value.
pub fn exec_amomaxu64(hart: &mut Hart, mmu: &mut MMU, inst: u32) -> (r: Result<(), Exception>)
    requires
        old(hart).wf(),
        old(mmu).wf(),
    ensures
        final (hart).wf(),
        final (mmu).wf(),
        only_regs_changed(old(hart), final (hart)),
        r matches Err(_) ==> final (hart).regs@ == old(hart).regs@,
        old(hart).regs@[spec_rs1(inst)] % 8 != 0 ==> r == Err::<(), Exception>(
            Exception::StoreAMOAddressMisaligned(old(hart).regs@[spec_rs1(inst)]),
        ) && final (mmu).ram() == old(mmu).ram(),
        ({
            let addr = old(hart).regs@[spec_rs1(inst)];
            let t = spec_translate(
                old(mmu).ram(),
                old(hart).csr@[crate::csr::SATP as int],
                old(hart).csr@[crate::csr::MSTATUS as int],
                spec_mode_encoding(old(hart).mode),
                addr,
                AccessType::ReadWrite,
            );
            addr % 8 == 0 ==> ((t matches Err(e) ==> r == Err::<(), Exception>(e) && final (
            mmu).ram() == old(mmu).ram()) && (t matches Ok(pa) ==> (ram_range(pa, 8) ==> r
                == Ok::<(), Exception>(()) && final (hart).regs@ == spec_set_reg(
                old(hart).regs@,
                spec_rd(inst),
                crate::memory::spec_read_u64(old(mmu).ram(), pa),
            ))))
        }),
{
    let rd = rd_of(inst);
    let address = hart.regs.get(rs1_of(inst));
    let full = hart.regs.get(rs2_of(inst));
    let val = full;
    let mode = hart.mode.as_u8();
    let res = match mmu.atomic_max_u64(&hart.csr, mode, address, val) {
        Ok(v) => v,
        Err(e) => {
            return Err(e);
        },
    };
    let v = res;
    hart.regs.set(rd, v);
    Ok(())
}

} // verus!
