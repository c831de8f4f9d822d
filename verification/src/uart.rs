//! An NS16550A-style UART. The wire is modelled as two byte queues:
//! `in_fifo` holds bytes arriving from the host, `out_fifo` bytes the
//! guest has transmitted; the surrounding program pumps both.

use vstd::prelude::*;
use crate::plic::Plic;
use crate::trap::Exception;

verus! {

pub const UART_START: u64 = 0x1000_0000;

pub const UART_END: u64 = 0x1000_0000 + 7;

/// The PLIC source number the UART asserts.
pub const UART_INTERRUPT_ID: u32 = 1;

pub const UART_RBR_THR_DLL: u64 = 0x1000_0000;

pub const UART_IER_DLM: u64 = 0x1000_0000 + 1;

pub const UART_IIR_FCR: u64 = 0x1000_0000 + 2;

pub const UART_LCR: u64 = 0x1000_0000 + 3;

pub const UART_MCR: u64 = 0x1000_0000 + 4;

pub const UART_LSR: u64 = 0x1000_0000 + 5;

pub const UART_MSR: u64 = 0x1000_0000 + 6;

pub const UART_SCR: u64 = 0x1000_0000 + 7;

pub const LSR_DR: u8 = 0x01;

pub const LSR_OE: u8 = 0x02;

pub const LSR_BI: u8 = 0x10;

pub const LSR_THRE: u8 = 0x20;

pub const LSR_TEMT: u8 = 0x40;

pub const LCR_DLAB: u8 = 0x80;

pub const MCR_LOOP: u8 = 0x10;

pub const IER_RDI: u8 = 0x01;

pub const IER_THRI: u8 = 0x02;

pub const IIR_NO_INT: u8 = 0x01;

pub const IIR_THRI: u8 = 0x02;

pub const IIR_RDI: u8 = 0x04;

pub const FCR_ENABLE_FIFO: u8 = 0x01;

pub const FCR_CLEAR_RCVR: u8 = 0x02;

pub const FCR_CLEAR_XMIT: u8 = 0x04;

pub struct Uart {
    pub in_fifo: Vec<u8>,
    pub out_fifo: Vec<u8>,
    pub lcr: u8,
    pub dll: u8,
    pub dlm: u8,
    pub ier: u8,
    pub iir: u8,
    pub mcr: u8,
    pub lsr: u8,
    pub scr: u8,
    pub fcr: u8,
}

impl Uart {
    pub fn new() -> (r: Uart)
        ensures
            r.in_fifo@ == Seq::<u8>::empty(),
            r.out_fifo@ == Seq::<u8>::empty(),
            r.lcr == 0,
            r.dll == 0x0C,
            r.dlm == 0,
            r.ier == 0,
            r.iir == IIR_NO_INT,
            r.mcr == 0x08,
            r.lsr == LSR_TEMT | LSR_THRE,
            r.scr == 0,
            r.fcr == 0,
    {
        Uart {
            in_fifo: Vec::new(),
            out_fifo: Vec::new(),
            lcr: 0,
            dll: 0x0C,
            dlm: 0,
            ier: 0,
            iir: IIR_NO_INT,
            mcr: 0x08,
            lsr: LSR_TEMT | LSR_THRE,
            scr: 0,
            fcr: 0,
        }
    }

    /// Hand the UART one byte from the host side.
    pub fn push_input(&mut self, byte: u8)
        ensures
            final (self).in_fifo@ == old(self).in_fifo@.push(byte),
            final (self).out_fifo@ == old(self).out_fifo@,
            final (self).lsr == old(self).lsr,
    {
        self.in_fifo.push(byte);
    }

    /// Take the oldest transmitted byte, if any, for the host side.
    pub fn pop_output(&mut self) -> (r: Option<u8>)
        ensures
            old(self).out_fifo@.len() == 0 ==> r == None::<u8> && final (self).out_fifo@ == old(
                self,
            ).out_fifo@,
            old(self).out_fifo@.len() > 0 ==> r == Some(old(self).out_fifo@[0]) && final (
            self).out_fifo@ == old(self).out_fifo@.drop_first(),
            final (self).in_fifo@ == old(self).in_fifo@,
    {
        if self.out_fifo.len() == 0 {
            None
        } else {
            let b = self.out_fifo.remove(0);
            proof {
                assert(self.out_fifo@ =~= old(self).out_fifo@.drop_first());
            }
            Some(b)
        }
    }

    /// Periodic housekeeping: surface received data in LSR, apply the
    /// clear bits, recompute the interrupt cause, and drive the PLIC
    /// source up or down accordingly.
    pub fn step(&mut self, plic: &mut Plic)
        requires
            old(plic).wf(),
        ensures
            final (plic).wf(),
            final (self).out_fifo@ == old(self).out_fifo@,
            final (self).dll == old(self).dll && final (self).dlm == old(self).dlm && final (
            self).ier == old(self).ier && final (self).mcr == old(self).mcr && final (self).scr
                == old(self).scr && final (self).fcr == old(self).fcr,
            ({
                let lsr_a = if old(self).in_fifo@.len() > 0 {
                    old(self).lsr | LSR_DR
                } else {
                    old(self).lsr
                };
                let cleared_rcvr = old(self).lcr & FCR_CLEAR_RCVR != 0;
                let lsr_b = if cleared_rcvr {
                    lsr_a & !LSR_DR & !FCR_CLEAR_RCVR
                } else {
                    lsr_a
                };
                let cleared_xmit = old(self).lcr & FCR_CLEAR_XMIT != 0;
                let lcr_b = if cleared_xmit {
                    old(self).lcr & !FCR_CLEAR_XMIT
                } else {
                    old(self).lcr
                };
                let lsr_c = if cleared_xmit {
                    lsr_b | LSR_TEMT | LSR_THRE
                } else {
                    lsr_b
                };
                let ints0: u8 = 0;
                let ints1 = if old(self).ier & IER_RDI != 0 && lsr_c & LSR_DR != 0 {
                    ints0 | IIR_RDI
                } else {
                    ints0
                };
                let ints = if old(self).ier & IER_THRI != 0 && lsr_c & LSR_TEMT != 0 {
                    ints1 | IIR_THRI
                } else {
                    ints1
                };
                let lsr_d = if old(self).ier & IER_THRI == 0 {
                    lsr_c | LSR_TEMT | LSR_THRE
                } else {
                    lsr_c
                };
                &&& final (self).in_fifo@ == (if cleared_rcvr {
                    Seq::<u8>::empty()
                } else {
                    old(self).in_fifo@
                })
                &&& final (self).lcr == lcr_b
                &&& final (self).lsr == lsr_d
                &&& final (self).iir == (if ints != 0 {
                    ints
                } else {
                    IIR_NO_INT
                })
                &&& final (plic).pending@ == old(plic).pending@.update(
                    UART_INTERRUPT_ID as int / 32,
                    old(plic).pending@[UART_INTERRUPT_ID as int / 32] | ((if ints != 0 {
                        1u32
                    } else {
                        0u32
                    }) << (UART_INTERRUPT_ID % 32)),
                )
                &&& final (plic).update
                &&& final (plic).priorities@ == old(plic).priorities@
                &&& final (plic).enable == old(plic).enable
                &&& final (plic).threshold == old(plic).threshold
                &&& final (plic).claimed == old(plic).claimed
            }),
    {
        if self.in_fifo.len() > 0 {
            self.lsr = self.lsr | LSR_DR;
        }
        if self.lcr & FCR_CLEAR_RCVR != 0 {
            self.in_fifo.clear();
            self.lsr = self.lsr & !LSR_DR & !FCR_CLEAR_RCVR;
        }
        if self.lcr & FCR_CLEAR_XMIT != 0 {
            self.lcr = self.lcr & !FCR_CLEAR_XMIT;
            self.lsr = self.lsr | LSR_TEMT | LSR_THRE;
        }
        let mut interrupts: u8 = 0;
        if (self.ier & IER_RDI) != 0 && (self.lsr & LSR_DR) != 0 {
            interrupts = interrupts | IIR_RDI;
        }
        if (self.ier & IER_THRI) != 0 && (self.lsr & LSR_TEMT) != 0 {
            interrupts = interrupts | IIR_THRI;
        }
        if interrupts != 0 {
            self.iir = interrupts;
            plic.irq(UART_INTERRUPT_ID, true);
        } else {
            self.iir = IIR_NO_INT;
            plic.irq(UART_INTERRUPT_ID, false);
        }
        if self.ier & IER_THRI == 0 {
            self.lsr = self.lsr | LSR_TEMT | LSR_THRE;
        }
    }

    /// Read one UART register; reading the receive buffer consumes the
    /// oldest received byte.
    pub fn read8(&mut self, address: u64) -> (r: Result<u8, Exception>)
        ensures
            final (self).out_fifo@ == old(self).out_fifo@,
            address == UART_RBR_THR_DLL && old(self).lcr & LCR_DLAB != 0 ==> r == Ok::<
                u8,
                Exception,
            >(old(self).dll) && *final (self) == *old(self),
            address == UART_RBR_THR_DLL && old(self).lcr & LCR_DLAB == 0 && old(self).lsr & LSR_BI
                == 0 && old(self).in_fifo@.len() > 0 ==> r == Ok::<u8, Exception>(
                old(self).in_fifo@[0],
            ) && final (self).in_fifo@ == old(self).in_fifo@.drop_first(),
            UART_IER_DLM <= address <= UART_SCR ==> *final (self) == *old(self),
            address > UART_SCR || address < UART_RBR_THR_DLL ==> r == Err::<u8, Exception>(
                Exception::LoadAccessFault(address),
            ),
    {
        if address == UART_RBR_THR_DLL {
            if self.lcr & LCR_DLAB != 0 {
                Ok(self.dll)
            } else if self.lsr & LSR_BI != 0 {
                Ok(0)
            } else if self.in_fifo.len() > 0 {
                let b = self.in_fifo.remove(0);
                self.lsr = self.lsr & !LSR_OE;
                proof {
                    assert(self.in_fifo@ =~= old(self).in_fifo@.drop_first());
                }
                Ok(b)
            } else {
                Ok(0)
            }
        } else if address == UART_IER_DLM {
            if self.lcr & LCR_DLAB != 0 {
                Ok(self.dlm)
            } else {
                Ok(self.ier)
            }
        } else if address == UART_IIR_FCR {
            Ok(self.iir)
        } else if address == UART_LCR {
            Ok(self.lcr)
        } else if address == UART_MCR {
            Ok(self.mcr)
        } else if address == UART_LSR {
            Ok(self.lsr)
        } else if address == UART_MSR {
            Ok(0)
        } else if address == UART_SCR {
            Ok(self.scr)
        } else {
            Err(Exception::LoadAccessFault(address))
        }
    }

    /// Write one UART register; writing the transmit register queues
    /// the byte on the wire (or loops it back in loopback mode).
    pub fn write8(&mut self, address: u64, data: u8) -> (r: Result<(), Exception>)
        ensures
            address == UART_RBR_THR_DLL && old(self).lcr & LCR_DLAB == 0 && !(old(self).fcr
                & FCR_ENABLE_FIFO == 0 && old(self).in_fifo@.len() > 0) && old(self).mcr & MCR_LOOP
                == 0 ==> r == Ok::<(), Exception>(()) && final (self).out_fifo@ == old(
                self,
            ).out_fifo@.push(data),
            address == UART_RBR_THR_DLL && old(self).lcr & LCR_DLAB != 0 ==> r == Ok::<
                (),
                Exception,
            >(()) && final (self).dll == data && final (self).out_fifo@ == old(self).out_fifo@,
            address > UART_SCR || address < UART_RBR_THR_DLL ==> r == Err::<(), Exception>(
                Exception::StoreAMOAccessFault(address),
            ) && *final (self) == *old(self),
    {
        if address == UART_RBR_THR_DLL {
            if self.lcr & LCR_DLAB != 0 {
                self.dll = data;
            } else if self.fcr & FCR_ENABLE_FIFO == 0 && self.in_fifo.len() > 0 {
                self.lsr = self.lsr | LSR_OE;
            } else {
                self.lsr = self.lsr | LSR_TEMT | LSR_THRE;
                if self.mcr & MCR_LOOP != 0 {
                    self.in_fifo.push(data);
                } else {
                    self.out_fifo.push(data);
                }
            }
            Ok(())
        } else if address == UART_IER_DLM {
            if self.lcr & LCR_DLAB != 0 {
                self.dlm = data;
            } else {
                self.ier = data & 0x0F;
            }
            Ok(())
        } else if address == UART_IIR_FCR {
            self.fcr = data;
            Ok(())
        } else if address == UART_LCR {
            self.lcr = data;
            Ok(())
        } else if address == UART_MCR {
            self.mcr = data & 0x1F;
            Ok(())
        } else if address == UART_LSR || address == UART_MSR {
            Ok(())
        } else if address == UART_SCR {
            self.scr = data;
            Ok(())
        } else {
            Err(Exception::StoreAMOAccessFault(address))
        }
    }
}

} // verus!
