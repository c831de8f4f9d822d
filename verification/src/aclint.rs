//! The local interrupt controller: a monotonic timer (MTIME), its
//! compare register (MTIMECMP0), and the machine software-interrupt
//! word (MSIP0), all byte-addressable.

use vstd::prelude::*;
use crate::csr::CsrRegistry;
use crate::trap::Exception;

verus! {

pub const ACLINT_START: u64 = 0x0200_0000;

pub const ACLINT_END: u64 = 0x0200_0000 + 0xBFFF;

pub const MTIME_START: u64 = 0x0200_0000 + 0xBFF8;

pub const MTIMECMP0_START: u64 = 0x0200_0000 + 0x4000;

pub const MSIP0_START: u64 = 0x0200_0000;

pub struct Aclint {
    pub mtime: u64,
    pub mtimecmp0: u64,
    pub msip0: u32,
    pub msip0_wrote: bool,
}

/// Byte `a - base` of a 64-bit little-endian register.
pub open spec fn spec_byte_of_u64(v: u64, a: u64, base: u64) -> u8 {
    (v >> (8 * ((a - base) as u64)) as u64) as u8
}

/// A 64-bit register with byte `a - base` replaced by `d`.
pub open spec fn spec_set_byte_u64(v: u64, a: u64, base: u64, d: u8) -> u64 {
    (v & !(0xFFu64 << (8 * ((a - base) as u64)) as u64)) | ((d as u64) << (8 * ((a - base)
        as u64)) as u64)
}

/// What a byte read of the controller returns, as a function of its
/// registers.
pub open spec fn spec_aclint_read8(a: Aclint, address: u64) -> Result<u8, Exception> {
    if MSIP0_START <= address < MSIP0_START + 4 {
        Ok(((a.msip0 >> (8 * ((address - MSIP0_START) as u64)) as u64) as u8))
    } else if MTIMECMP0_START <= address < MTIMECMP0_START + 8 {
        Ok(spec_byte_of_u64(a.mtimecmp0, address, MTIMECMP0_START))
    } else if MTIME_START <= address < MTIME_START + 8 {
        Ok(spec_byte_of_u64(a.mtime, address, MTIME_START))
    } else {
        Err(Exception::LoadAccessFault(address))
    }
}

/// What a byte write leaves: the result and the new register file.
pub open spec fn spec_aclint_write8(a: Aclint, address: u64, data: u8) -> (
    Result<(), Exception>,
    Aclint,
) {
    if MSIP0_START <= address < MSIP0_START + 4 {
        (
            Ok(()),
            Aclint {
                msip0: ((a.msip0 & !(0xFFu32 << (8 * ((address - MSIP0_START) as u64)) as u32)) | ((
                data as u32) << (8 * ((address - MSIP0_START) as u64)) as u32)),
                msip0_wrote: true,
                ..a
            },
        )
    } else if MTIMECMP0_START <= address < MTIMECMP0_START + 8 {
        (
            Ok(()),
            Aclint { mtimecmp0: spec_set_byte_u64(a.mtimecmp0, address, MTIMECMP0_START, data), ..a },
        )
    } else if MTIME_START <= address < MTIME_START + 8 {
        (Ok(()), Aclint { mtime: spec_set_byte_u64(a.mtime, address, MTIME_START, data), ..a })
    } else {
        (Err(Exception::LoadAccessFault(address)), a)
    }
}

impl Aclint {
    pub fn new() -> (r: Aclint)
        ensures
            r.mtime == 0,
            r.mtimecmp0 == 0,
            r.msip0 == 0,
            !r.msip0_wrote,
    {
        Aclint { mtime: 0, mtimecmp0: 0, msip0: 0, msip0_wrote: false }
    }

    /// One timer tick: advance MTIME, drive MIP.MTIP from the compare,
    /// and forward a stored MSIP0 write into MIP.MSIP.
    pub fn step(&mut self, csr: &mut CsrRegistry)
        requires
            old(csr).wf(),
        ensures
            final (csr).wf(),
            final (self).mtime == vstd::wrapping::u64_specs::wrapping_add(old(self).mtime, 1),
            final (self).mtimecmp0 == old(self).mtimecmp0,
            final (self).msip0 == old(self).msip0,
            !final (self).msip0_wrote,
            final (csr)@ == ({
                let after_mtip = old(csr)@.update(
                    crate::csr::MIP as int,
                    if vstd::wrapping::u64_specs::wrapping_add(old(self).mtime, 1)
                        >= old(self).mtimecmp0 {
                        old(csr)@[crate::csr::MIP as int] | (1u64 << 7)
                    } else {
                        old(csr)@[crate::csr::MIP as int] & !(1u64 << 7)
                    },
                );
                if old(self).msip0_wrote {
                    after_mtip.update(
                        crate::csr::MIP as int,
                        if old(self).msip0 & 1 == 1 {
                            after_mtip[crate::csr::MIP as int] | (1u64 << 3)
                        } else {
                            after_mtip[crate::csr::MIP as int] & !(1u64 << 3)
                        },
                    )
                } else {
                    after_mtip
                }
            }),
    {
        self.mtime = self.mtime.wrapping_add(1);
        csr.write_mip_bit(7, self.mtime >= self.mtimecmp0);
        if self.msip0_wrote {
            self.msip0_wrote = false;
            csr.write_mip_bit(3, self.msip0 & 1 == 1);
        }
    }

    /// Read one byte of MSIP0, MTIMECMP0 or MTIME; anything else in the
    /// window faults.
    pub fn read8(&self, address: u64) -> (r: Result<u8, Exception>)
        ensures
            r == spec_aclint_read8(*self, address),
            MSIP0_START <= address < MSIP0_START + 4 ==> r == Ok::<u8, Exception>(
                ((self.msip0 >> (8 * ((address - MSIP0_START) as u64)) as u64) as u8),
            ),
            MTIMECMP0_START <= address < MTIMECMP0_START + 8 ==> r == Ok::<u8, Exception>(
                spec_byte_of_u64(self.mtimecmp0, address, MTIMECMP0_START),
            ),
            MTIME_START <= address < MTIME_START + 8 ==> r == Ok::<u8, Exception>(
                spec_byte_of_u64(self.mtime, address, MTIME_START),
            ),
            !(MSIP0_START <= address < MSIP0_START + 4) && !(MTIMECMP0_START <= address
                < MTIMECMP0_START + 8) && !(MTIME_START <= address < MTIME_START + 8) ==> r
                == Err::<u8, Exception>(Exception::LoadAccessFault(address)),
    {
        if MSIP0_START <= address && address < MSIP0_START + 4 {
            let sh = 8 * (address - MSIP0_START);
            #[verifier::truncate]
            let b = (self.msip0 >> sh as u32) as u8;
            Ok(b)
        } else if MTIMECMP0_START <= address && address < MTIMECMP0_START + 8 {
            let sh = 8 * (address - MTIMECMP0_START);
            #[verifier::truncate]
            let b = (self.mtimecmp0 >> sh) as u8;
            Ok(b)
        } else if MTIME_START <= address && address < MTIME_START + 8 {
            let sh = 8 * (address - MTIME_START);
            #[verifier::truncate]
            let b = (self.mtime >> sh) as u8;
            Ok(b)
        } else {
            Err(Exception::LoadAccessFault(address))
        }
    }

    /// Write one byte of MSIP0, MTIMECMP0 or MTIME; a write to MSIP0 is
    /// forwarded to MIP.MSIP on the next tick.
    pub fn write8(&mut self, address: u64, data: u8) -> (r: Result<(), Exception>)
        ensures
            r == spec_aclint_write8(*old(self), address, data).0,
            *final (self) == spec_aclint_write8(*old(self), address, data).1,
            MSIP0_START <= address < MSIP0_START + 4 ==> r == Ok::<(), Exception>(()) && final (
            self).msip0 == ((old(self).msip0 & !(0xFFu32 << (8 * ((address - MSIP0_START) as u64))
                as u32)) | ((data as u32) << (8 * ((address - MSIP0_START) as u64)) as u32))
                && final (self).msip0_wrote && final (self).mtime == old(self).mtime && final (
            self).mtimecmp0 == old(self).mtimecmp0,
            MTIMECMP0_START <= address < MTIMECMP0_START + 8 ==> r == Ok::<(), Exception>(())
                && final (self).mtimecmp0 == spec_set_byte_u64(
                old(self).mtimecmp0,
                address,
                MTIMECMP0_START,
                data,
            ) && final (self).mtime == old(self).mtime && final (self).msip0 == old(self).msip0
                && final (self).msip0_wrote == old(self).msip0_wrote,
            MTIME_START <= address < MTIME_START + 8 ==> r == Ok::<(), Exception>(()) && final (
            self).mtime == spec_set_byte_u64(old(self).mtime, address, MTIME_START, data) && final (
            self).mtimecmp0 == old(self).mtimecmp0 && final (self).msip0 == old(self).msip0
                && final (self).msip0_wrote == old(self).msip0_wrote,
            !(MSIP0_START <= address < MSIP0_START + 4) && !(MTIMECMP0_START <= address
                < MTIMECMP0_START + 8) && !(MTIME_START <= address < MTIME_START + 8) ==> r
                == Err::<(), Exception>(Exception::LoadAccessFault(address)) && *final (self)
                == *old(self),
    {
        if MSIP0_START <= address && address < MSIP0_START + 4 {
            let sh = (8 * (address - MSIP0_START)) as u32;
            self.msip0 = (self.msip0 & !(0xFFu32 << sh)) | ((data as u32) << sh);
            self.msip0_wrote = true;
            Ok(())
        } else if MTIMECMP0_START <= address && address < MTIMECMP0_START + 8 {
            let sh = 8 * (address - MTIMECMP0_START);
            self.mtimecmp0 = (self.mtimecmp0 & !(0xFFu64 << sh)) | ((data as u64) << sh);
            Ok(())
        } else if MTIME_START <= address && address < MTIME_START + 8 {
            let sh = 8 * (address - MTIME_START);
            self.mtime = (self.mtime & !(0xFFu64 << sh)) | ((data as u64) << sh);
            Ok(())
        } else {
            Err(Exception::LoadAccessFault(address))
        }
    }
}

} // verus!
