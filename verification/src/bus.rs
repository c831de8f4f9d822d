//! The physical-memory bus: routes each access to RAM, the local
//! interrupt controller, the PLIC, or the UART by address range, and
//! ticks the devices.

use vstd::prelude::*;
use crate::aclint::{Aclint, ACLINT_START, ACLINT_END};
use crate::csr::CsrRegistry;
use crate::memory::{
    Memory,
    MEMORY_START,
    MEMORY_END,
    ram_range,
    spec_read_u8,
    spec_read_u16,
    spec_read_u32,
    spec_read_u64,
    spec_write_u8,
    spec_write_u16,
    spec_write_u32,
    spec_write_u64,
};
use crate::plic::{Plic, PLIC_START, PLIC_END};
use crate::trap::Exception;
use crate::uart::{Uart, UART_START, UART_END};

verus! {

/// Every device on the bus. The hart is the only mutator; devices are
/// observed as if serialized at this bus.
pub struct Bus {
    pub memory: Memory,
    pub aclint: Aclint,
    pub plic: Plic,
    pub uart: Uart,
}

impl Bus {
    pub open spec fn wf(&self) -> bool {
        &&& self.memory.wf()
        &&& self.plic.wf()
    }

    /// The RAM contents; contracts about code and data live on this.
    pub open spec fn ram(&self) -> Seq<u8> {
        self.memory@
    }

    pub fn new() -> (r: Bus)
        ensures
            r.wf(),
            r.ram() == Seq::new(crate::memory::MEMORY_SIZE as nat, |i: int| 0u8),
            r.memory.reservations() == Seq::<u64>::empty(),
    {
        Bus { memory: Memory::new(), aclint: Aclint::new(), plic: Plic::new(), uart: Uart::new() }
    }

    /// Tick every device once: timer, PLIC, then UART. The timer drives
    /// MIP.MTIP (and a stored MSIP0 write drives MIP.MSIP), then the
    /// controller drives MIP.MEIP and MIP.SEIP when marked for
    /// re-evaluation; the UART tick touches only its own registers and
    /// the controller's pending bits, never the CSR file.
    pub fn step(&mut self, csr: &mut CsrRegistry)
        requires
            old(self).wf(),
            old(csr).wf(),
        ensures
            final (self).wf(),
            final (csr).wf(),
            final (self).ram() == old(self).ram(),
            final (self).memory.reservations() == old(self).memory.reservations(),
            final (self).aclint.mtime == vstd::wrapping::u64_specs::wrapping_add(
                old(self).aclint.mtime,
                1,
            ),
            final (self).aclint.mtimecmp0 == old(self).aclint.mtimecmp0,
            final (csr)@ == ({
                let after_mtip = old(csr)@.update(
                    crate::csr::MIP as int,
                    if vstd::wrapping::u64_specs::wrapping_add(old(self).aclint.mtime, 1)
                        >= old(self).aclint.mtimecmp0 {
                        old(csr)@[crate::csr::MIP as int] | (1u64 << 7)
                    } else {
                        old(csr)@[crate::csr::MIP as int] & !(1u64 << 7)
                    },
                );
                let after_aclint = if old(self).aclint.msip0_wrote {
                    after_mtip.update(
                        crate::csr::MIP as int,
                        if old(self).aclint.msip0 & 1 == 1 {
                            after_mtip[crate::csr::MIP as int] | (1u64 << 3)
                        } else {
                            after_mtip[crate::csr::MIP as int] & !(1u64 << 3)
                        },
                    )
                } else {
                    after_mtip
                };
                if old(self).plic.update {
                    let meip = crate::plic::spec_plic_highest(&old(self).plic, 0) != 0;
                    let after_meip = after_aclint.update(
                        crate::csr::MIP as int,
                        if meip {
                            after_aclint[crate::csr::MIP as int] | (1u64 << 11)
                        } else {
                            after_aclint[crate::csr::MIP as int] & !(1u64 << 11)
                        },
                    );
                    after_meip.update(
                        crate::csr::MIP as int,
                        if meip {
                            after_meip[crate::csr::MIP as int] | (1u64 << 9)
                        } else {
                            after_meip[crate::csr::MIP as int] & !(1u64 << 9)
                        },
                    )
                } else {
                    after_aclint
                }
            }),
    {
        self.aclint.step(csr);
        self.plic.step(csr);
        self.uart.step(&mut self.plic);
    }

    pub fn read8(&mut self, address: u64) -> (r: Result<u8, Exception>)
        requires
            old(self).wf(),
        ensures
            final (self).wf(),
            final (self).ram() == old(self).ram(),
            final (self).memory.reservations() == old(self).memory.reservations(),
            ram_range(address, 1) ==> r == Ok::<u8, Exception>(spec_read_u8(old(self).ram(), address))
                && *final (self) == *old(self),
            ACLINT_START <= address <= ACLINT_END ==> r == crate::aclint::spec_aclint_read8(
                old(self).aclint,
                address,
            ) && *final (self) == *old(self),
            UART_START <= address <= UART_END ==> final (self).memory == old(self).memory && final (
            self).aclint == old(self).aclint && final (self).plic == old(self).plic,
    {
        if MEMORY_START <= address && address <= MEMORY_END {
            Ok(self.memory.read8(address))
        } else if ACLINT_START <= address && address <= ACLINT_END {
            self.aclint.read8(address)
        } else if UART_START <= address && address <= UART_END {
            self.uart.read8(address)
        } else if PLIC_START <= address && address <= PLIC_END {
            Err(Exception::LoadAccessFault(address))
        } else {
            Err(Exception::LoadAccessFault(address))
        }
    }

    pub fn read16(&mut self, address: u64) -> (r: Result<u16, Exception>)
        requires
            old(self).wf(),
        ensures
            final (self).wf(),
            final (self).ram() == old(self).ram(),
            final (self).memory.reservations() == old(self).memory.reservations(),
            ram_range(address, 2) ==> r == Ok::<u16, Exception>(
                spec_read_u16(old(self).ram(), address),
            ) && *final (self) == *old(self),
    {
        if MEMORY_START <= address && address <= MEMORY_END {
            if address + 1 <= MEMORY_END {
                Ok(self.memory.read16(address))
            } else {
                Err(Exception::LoadAccessFault(address))
            }
        } else {
            let b0 = self.read8(address)?;
            let b1 = self.read8(address.wrapping_add(1))?;
            Ok((b0 as u16) | ((b1 as u16) << 8))
        }
    }

    pub fn read32(&mut self, address: u64) -> (r: Result<u32, Exception>)
        requires
            old(self).wf(),
        ensures
            final (self).wf(),
            final (self).ram() == old(self).ram(),
            final (self).memory.reservations() == old(self).memory.reservations(),
            ram_range(address, 4) ==> r == Ok::<u32, Exception>(
                spec_read_u32(old(self).ram(), address),
            ) && *final (self) == *old(self),
    {
        if MEMORY_START <= address && address <= MEMORY_END {
            if address + 3 <= MEMORY_END {
                Ok(self.memory.read32(address))
            } else {
                Err(Exception::LoadAccessFault(address))
            }
        } else if PLIC_START <= address && address <= PLIC_END {
            self.plic.read32(address)
        } else {
            let b0 = self.read8(address)?;
            let b1 = self.read8(address.wrapping_add(1))?;
            let b2 = self.read8(address.wrapping_add(2))?;
            let b3 = self.read8(address.wrapping_add(3))?;
            Ok((b0 as u32) | ((b1 as u32) << 8) | ((b2 as u32) << 16) | ((b3 as u32) << 24))
        }
    }

    pub fn read64(&mut self, address: u64) -> (r: Result<u64, Exception>)
        requires
            old(self).wf(),
        ensures
            final (self).wf(),
            final (self).ram() == old(self).ram(),
            final (self).memory.reservations() == old(self).memory.reservations(),
            ram_range(address, 8) ==> r == Ok::<u64, Exception>(
                spec_read_u64(old(self).ram(), address),
            ) && *final (self) == *old(self),
    {
        if MEMORY_START <= address && address <= MEMORY_END {
            if address + 7 <= MEMORY_END {
                Ok(self.memory.read64(address))
            } else {
                Err(Exception::LoadAccessFault(address))
            }
        } else if PLIC_START <= address && address <= PLIC_END {
            let hi = self.plic.read32(address.wrapping_add(4))?;
            let lo = self.plic.read32(address)?;
            Ok((hi as u64) | ((lo as u64) << 32))
        } else {
            let b0 = self.read8(address)?;
            let b1 = self.read8(address.wrapping_add(1))?;
            let b2 = self.read8(address.wrapping_add(2))?;
            let b3 = self.read8(address.wrapping_add(3))?;
            let b4 = self.read8(address.wrapping_add(4))?;
            let b5 = self.read8(address.wrapping_add(5))?;
            let b6 = self.read8(address.wrapping_add(6))?;
            let b7 = self.read8(address.wrapping_add(7))?;
            Ok(
                (b0 as u64) | ((b1 as u64) << 8) | ((b2 as u64) << 16) | ((b3 as u64) << 24) | ((
                b4 as u64) << 32) | ((b5 as u64) << 40) | ((b6 as u64) << 48) | ((b7 as u64)
                    << 56),
            )
        }
    }

    pub fn write8(&mut self, address: u64, data: u8) -> (r: Result<(), Exception>)
        requires
            old(self).wf(),
        ensures
            final (self).wf(),
            ram_range(address, 1) ==> r == Ok::<(), Exception>(()) && final (self).ram()
                == spec_write_u8(old(self).ram(), address, data) && final (
            self).memory.reservations() == Seq::<u64>::empty(),
            !(MEMORY_START <= address <= MEMORY_END) ==> final (self).ram() == old(self).ram()
                && final (self).memory.reservations() == old(self).memory.reservations(),
            ACLINT_START <= address <= ACLINT_END ==> r == crate::aclint::spec_aclint_write8(
                old(self).aclint,
                address,
                data,
            ).0 && final (self).aclint == crate::aclint::spec_aclint_write8(
                old(self).aclint,
                address,
                data,
            ).1 && final (self).memory == old(self).memory && final (self).plic == old(self).plic
                && final (self).uart == old(self).uart,
            UART_START <= address <= UART_END ==> final (self).memory == old(self).memory && final (
            self).aclint == old(self).aclint && final (self).plic == old(self).plic,
            address == crate::uart::UART_RBR_THR_DLL && old(self).uart.lcr & crate::uart::LCR_DLAB
                == 0 && !(old(self).uart.fcr & crate::uart::FCR_ENABLE_FIFO == 0 && old(
                self,
            ).uart.in_fifo@.len() > 0) && old(self).uart.mcr & crate::uart::MCR_LOOP == 0 ==> r
                == Ok::<(), Exception>(()) && final (self).uart.out_fifo@ == old(
                self,
            ).uart.out_fifo@.push(data),
    {
        if MEMORY_START <= address && address <= MEMORY_END {
            self.memory.write8(address, data);
            Ok(())
        } else if ACLINT_START <= address && address <= ACLINT_END {
            self.aclint.write8(address, data)
        } else if UART_START <= address && address <= UART_END {
            self.uart.write8(address, data)
        } else {
            Err(Exception::StoreAMOAccessFault(address))
        }
    }

    pub fn write16(&mut self, address: u64, data: u16) -> (r: Result<(), Exception>)
        requires
            old(self).wf(),
        ensures
            final (self).wf(),
            ram_range(address, 2) ==> r == Ok::<(), Exception>(()) && final (self).ram()
                == spec_write_u16(old(self).ram(), address, data) && final (
            self).memory.reservations() == Seq::<u64>::empty(),
    {
        if MEMORY_START <= address && address <= MEMORY_END {
            if address + 1 <= MEMORY_END {
                self.memory.write16(address, data);
                Ok(())
            } else {
                Err(Exception::StoreAMOAccessFault(address))
            }
        } else {
            #[verifier::truncate]
            let b0 = data as u8;
            #[verifier::truncate]
            let b1 = (data >> 8) as u8;
            self.write8(address, b0)?;
            self.write8(address.wrapping_add(1), b1)?;
            Ok(())
        }
    }

    pub fn write32(&mut self, address: u64, data: u32) -> (r: Result<(), Exception>)
        requires
            old(self).wf(),
        ensures
            final (self).wf(),
            ram_range(address, 4) ==> r == Ok::<(), Exception>(()) && final (self).ram()
                == spec_write_u32(old(self).ram(), address, data) && final (
            self).memory.reservations() == Seq::<u64>::empty(),
    {
        if MEMORY_START <= address && address <= MEMORY_END {
            if address + 3 <= MEMORY_END {
                self.memory.write32(address, data);
                Ok(())
            } else {
                Err(Exception::StoreAMOAccessFault(address))
            }
        } else if PLIC_START <= address && address <= PLIC_END {
            self.plic.write32(address, data)
        } else {
            #[verifier::truncate]
            let b0 = data as u8;
            #[verifier::truncate]
            let b1 = (data >> 8) as u8;
            #[verifier::truncate]
            let b2 = (data >> 16) as u8;
            #[verifier::truncate]
            let b3 = (data >> 24) as u8;
            self.write8(address, b0)?;
            self.write8(address.wrapping_add(1), b1)?;
            self.write8(address.wrapping_add(2), b2)?;
            self.write8(address.wrapping_add(3), b3)?;
            Ok(())
        }
    }

    pub fn write64(&mut self, address: u64, data: u64) -> (r: Result<(), Exception>)
        requires
            old(self).wf(),
        ensures
            final (self).wf(),
            ram_range(address, 8) ==> r == Ok::<(), Exception>(()) && final (self).ram()
                == spec_write_u64(old(self).ram(), address, data) && final (
            self).memory.reservations() == Seq::<u64>::empty(),
    {
        if MEMORY_START <= address && address <= MEMORY_END {
            if address + 7 <= MEMORY_END {
                self.memory.write64(address, data);
                Ok(())
            } else {
                Err(Exception::StoreAMOAccessFault(address))
            }
        } else if PLIC_START <= address && address <= PLIC_END {
            #[verifier::truncate]
            let lo = data as u32;
            #[verifier::truncate]
            let hi = (data >> 32) as u32;
            self.plic.write32(address, lo)?;
            self.plic.write32(address.wrapping_add(4), hi)?;
            Ok(())
        } else {
            #[verifier::truncate]
            let lo = data as u32;
            #[verifier::truncate]
            let hi = (data >> 32) as u32;
            self.write32(address, lo)?;
            self.write32(address.wrapping_add(4), hi)?;
            Ok(())
        }
    }
}

} // verus!
