//! The control/status register file: a flat 4096-slot array with
//! per-register write masks, aliased views, and the special operations
//! used by the trap machinery.

use vstd::prelude::*;
use crate::trap::Exception;

verus! {

pub const FFLAGS: u16 = 0x001;

pub const FRM: u16 = 0x002;

pub const FCSR: u16 = 0x003;

pub const MVENDORID: u16 = 0xF11;

pub const MARCHID: u16 = 0xF12;

pub const MIMPID: u16 = 0xF13;

pub const MHARTID: u16 = 0xF14;

pub const MSTATUS: u16 = 0x300;

pub const MISA: u16 = 0x301;

pub const MEDELEG: u16 = 0x302;

pub const MIDELEG: u16 = 0x303;

pub const MIE: u16 = 0x304;

pub const MTVEC: u16 = 0x305;

pub const MEPC: u16 = 0x341;

pub const MCAUSE: u16 = 0x342;

pub const MTVAL: u16 = 0x343;

pub const MIP: u16 = 0x344;

pub const SSTATUS: u16 = 0x100;

pub const SIE: u16 = 0x104;

pub const STVEC: u16 = 0x105;

pub const SEPC: u16 = 0x141;

pub const SCAUSE: u16 = 0x142;

pub const STVAL: u16 = 0x143;

pub const SIP: u16 = 0x144;

pub const SATP: u16 = 0x180;

/// WPRI/WARL mask of MSTATUS: which bits a write may set.
pub const MSTATUS_MASK: u64 = 0x8000_0000_003F_FFEA;

/// SSTATUS is this masked view of MSTATUS.
pub const SSTATUS_MASK: u64 = 0x8000_0000_000C_DE62;

pub const MIE_MASK: u64 = 0x0AAA;

pub const MIP_MASK: u64 = 0x0AAA;

pub const SIE_MASK: u64 = 0x0222;

pub const SIP_MASK: u64 = 0x0222;

/// The fixed value MISA reads as: RV64 with IMAFDC, S and U modes.
pub const MISA_VALUE: u64 = 0x8000_0000_0014_112D;

/// Bits cleared by stacking a trap into machine mode: MPP, MPIE, MIE.
pub const TRAP_INTO_MACHINE_MASK: u64 = 0x1888;

/// Bits cleared by stacking a trap into supervisor mode: SPP, SPIE, SIE.
pub const TRAP_INTO_SUPERVISOR_MASK: u64 = 0x0122;

/// Bits rewritten by MRET: MPRV, MPP, MPIE, MIE.
pub const MRET_MASK: u64 = 0x21888;

/// Bits rewritten by SRET: MPRV, SPP, SPIE, SIE.
pub const SRET_MASK: u64 = 0x20122;

/// One decoded bit per interrupt class, for MIE or MIP.
#[derive(Debug, Clone, Copy, PartialEq, Eq, Structural)]
pub struct MIEP {
    pub ss: bool,
    pub ms: bool,
    pub st: bool,
    pub mt: bool,
    pub se: bool,
    pub me: bool,
}

/// The CSR file: 4096 64-bit slots, addressed by the 12-bit CSR number.
/// Virtualized registers (FFLAGS, FRM, SSTATUS, SIE, SIP) are projections
/// of their physical slots and have no storage of their own.
pub struct CsrRegistry {
    pub csr: Vec<u64>,
}

/// What a raw read at `address` returns, as a function of the stored
/// slots: aliased registers project their physical slot, MISA is fixed.
pub open spec fn spec_read_raw(csr: Seq<u64>, address: u16) -> u64 {
    if address == FFLAGS {
        csr[FCSR as int] & 0x1F
    } else if address == FRM {
        (csr[FCSR as int] >> 5) & 0x7
    } else if address == SSTATUS {
        csr[MSTATUS as int] & SSTATUS_MASK
    } else if address == SIE {
        csr[MIE as int] & SIE_MASK
    } else if address == SIP {
        csr[MIP as int] & SIP_MASK
    } else if address == MISA {
        MISA_VALUE
    } else {
        csr[address as int]
    }
}

/// What the stored slots become after a raw write of `data` at
/// `address`: the value is masked by the register's WPRI/WARL mask and
/// merged into the physical slot of aliased registers.
pub open spec fn spec_write_raw(csr: Seq<u64>, address: u16, data: u64) -> Seq<u64> {
    if address == FFLAGS {
        csr.update(FCSR as int, (csr[FCSR as int] & !0x1Fu64) | (data & 0x1F))
    } else if address == FRM {
        csr.update(FCSR as int, (csr[FCSR as int] & !0xE0u64) | ((data & 0x7) << 5))
    } else if address == FCSR {
        csr.update(FCSR as int, data & 0xFF)
    } else if address == MISA || address == MVENDORID || address == MARCHID || address == MIMPID
        || address == MHARTID {
        csr
    } else if address == MSTATUS {
        csr.update(MSTATUS as int, data & MSTATUS_MASK)
    } else if address == MIE {
        csr.update(MIE as int, data & MIE_MASK)
    } else if address == MIP {
        csr.update(MIP as int, data & MIP_MASK)
    } else if address == SSTATUS {
        csr.update(MSTATUS as int, (csr[MSTATUS as int] & !SSTATUS_MASK) | (data & SSTATUS_MASK))
    } else if address == SIE {
        csr.update(MIE as int, (csr[MIE as int] & !SIE_MASK) | (data & SIE_MASK))
    } else if address == SIP {
        csr.update(MIP as int, (csr[MIP as int] & !SIP_MASK) | (data & SIP_MASK))
    } else if address == MTVEC || address == STVEC {
        let mode = if data & 0x3 == 0 || data & 0x3 == 1 {
            data & 0x3
        } else {
            0
        };
        csr.update(address as int, (data & !0x3u64) | mode)
    } else {
        csr.update(address as int, data)
    }
}

/// A CSR address names a read-only register when its top two bits are
/// both set.
pub open spec fn spec_csr_read_only(address: u16) -> bool {
    (address >> 10) & 0x3 == 0x3
}

/// The lowest privilege (architectural encoding) allowed to touch this
/// CSR: bits [9:8] of its address.
pub open spec fn spec_csr_privilege(address: u16) -> u16 {
    (address >> 8) & 0x3
}

impl CsrRegistry {
    pub open spec fn wf(&self) -> bool {
        self.csr@.len() == 4096
    }

    pub open spec fn view(&self) -> Seq<u64> {
        self.csr@
    }

    pub fn new() -> (r: CsrRegistry)
        ensures
            r.wf(),
            r@ == Seq::new(4096, |i: int| 0u64),
    {
        let mut csr: Vec<u64> = Vec::new();
        let mut i: usize = 0;
        while i < 4096
            invariant
                i <= 4096,
                csr@ =~= Seq::new(i as nat, |j: int| 0u64),
            decreases 4096 - i,
        {
            csr.push(0);
            i = i + 1;
        }
        proof {
            assert(csr@ =~= Seq::new(4096, |i: int| 0u64));
        }
        CsrRegistry { csr }
    }

    /// A privilege-checked read: a CSR above `mode` (the architectural
    /// encoding of the current privilege) faults with illegal
    /// instruction, everything else returns the raw read.
    pub fn read(&self, mode: u8, address: u16) -> (r: Result<u64, Exception>)
        requires
            self.wf(),
            address < 4096,
        ensures
            spec_csr_privilege(address) <= mode ==> r == Ok::<u64, Exception>(
                spec_read_raw(self@, address),
            ),
            spec_csr_privilege(address) > mode ==> r == Err::<u64, Exception>(
                Exception::IllegalInstruction,
            ),
    {
        if (address >> 8) & 0x3 <= mode as u16 {
            Ok(self.read_raw(address))
        } else {
            Err(Exception::IllegalInstruction)
        }
    }

    /// A privilege-checked write: writing a read-only address or a CSR
    /// above the current privilege faults with illegal instruction;
    /// otherwise the store is the masked raw write.
    pub fn write(&mut self, mode: u8, address: u16, data: u64) -> (r: Result<(), Exception>)
        requires
            old(self).wf(),
            address < 4096,
        ensures
            final (self).wf(),
            spec_csr_read_only(address) ==> r == Err::<(), Exception>(
                Exception::IllegalInstruction,
            ) && final (self)@ == old(self)@,
            !spec_csr_read_only(address) && spec_csr_privilege(address) > mode ==> r == Err::<
                (),
                Exception,
            >(Exception::IllegalInstruction) && final (self)@ == old(self)@,
            !spec_csr_read_only(address) && spec_csr_privilege(address) <= mode ==> r == Ok::<
                (),
                Exception,
            >(()) && final (self)@ == spec_write_raw(old(self)@, address, data),
    {
        if (address >> 10) & 0x3 == 0x3 {
            return Err(Exception::IllegalInstruction);
        }
        if (address >> 8) & 0x3 <= mode as u16 {
            self.write_raw(address, data);
            Ok(())
        } else {
            Err(Exception::IllegalInstruction)
        }
    }

    /// An unchecked read, used by trap machinery and aliasing.
    pub fn read_raw(&self, address: u16) -> (r: u64)
        requires
            self.wf(),
            address < 4096,
        ensures
            r == spec_read_raw(self@, address),
    {
        if address == FFLAGS {
            self.csr[FCSR as usize] & 0x1F
        } else if address == FRM {
            (self.csr[FCSR as usize] >> 5) & 0x7
        } else if address == SSTATUS {
            self.csr[MSTATUS as usize] & SSTATUS_MASK
        } else if address == SIE {
            self.csr[MIE as usize] & SIE_MASK
        } else if address == SIP {
            self.csr[MIP as usize] & SIP_MASK
        } else if address == MISA {
            MISA_VALUE
        } else {
            self.csr[address as usize]
        }
    }

    /// An unchecked masked write, used by trap machinery and aliasing.
    pub fn write_raw(&mut self, address: u16, data: u64)
        requires
            old(self).wf(),
            address < 4096,
        ensures
            final (self).wf(),
            final (self)@ == spec_write_raw(old(self)@, address, data),
    {
        if address == FFLAGS {
            let rest = self.csr[FCSR as usize] & !0x1Fu64;
            self.csr[FCSR as usize] = rest | (data & 0x1F);
        } else if address == FRM {
            let rest = self.csr[FCSR as usize] & !0xE0u64;
            self.csr[FCSR as usize] = rest | ((data & 0x7) << 5);
        } else if address == FCSR {
            self.csr[FCSR as usize] = data & 0xFF;
        } else if address == MISA || address == MVENDORID || address == MARCHID || address == MIMPID
            || address == MHARTID {
        } else if address == MSTATUS {
            self.csr[MSTATUS as usize] = data & MSTATUS_MASK;
        } else if address == MIE {
            self.csr[MIE as usize] = data & MIE_MASK;
        } else if address == MIP {
            self.csr[MIP as usize] = data & MIP_MASK;
        } else if address == SSTATUS {
            let merged = (self.csr[MSTATUS as usize] & !SSTATUS_MASK) | (data & SSTATUS_MASK);
            self.csr[MSTATUS as usize] = merged;
        } else if address == SIE {
            let merged = (self.csr[MIE as usize] & !SIE_MASK) | (data & SIE_MASK);
            self.csr[MIE as usize] = merged;
        } else if address == SIP {
            let merged = (self.csr[MIP as usize] & !SIP_MASK) | (data & SIP_MASK);
            self.csr[MIP as usize] = merged;
        } else if address == MTVEC || address == STVEC {
            let mode = if data & 0x3 == 0 || data & 0x3 == 1 {
                data & 0x3
            } else {
                0
            };
            self.csr[address as usize] = (data & !0x3u64) | mode;
        } else {
            self.csr[address as usize] = data;
        }
        proof {
            assert(self.csr@ =~= spec_write_raw(old(self).csr@, address, data));
        }
    }
}

/// MSTATUS after stacking a trap into machine mode: MIE saved into MPIE,
/// the old privilege stored in MPP, MIE cleared.
pub open spec fn spec_trap_into_machine(s: Seq<u64>, old_mode: u8) -> Seq<u64> {
    let st = s[MSTATUS as int];
    s.update(
        MSTATUS as int,
        (st & !TRAP_INTO_MACHINE_MASK) | (((st >> 3) & 1) << 7) | ((old_mode as u64) << 11),
    )
}

/// MSTATUS after stacking a trap into supervisor mode: SIE saved into
/// SPIE, the old privilege (0 or 1) stored in SPP, SIE cleared.
pub open spec fn spec_trap_into_supervisor(s: Seq<u64>, old_mode: u8) -> Seq<u64> {
    let st = s[MSTATUS as int];
    s.update(
        MSTATUS as int,
        (st & !TRAP_INTO_SUPERVISOR_MASK) | (((st >> 1) & 1) << 5) | ((old_mode as u64) << 8),
    )
}

/// The privilege MPP holds, with the reserved encoding 2 read as user.
pub open spec fn spec_mstatus_mpp(st: u64) -> u8 {
    if (st >> 11) & 0x3 == 1 {
        1
    } else if (st >> 11) & 0x3 == 3 {
        3
    } else {
        0
    }
}

/// The (target pc, target mode, new MSTATUS) of an MRET: MPIE restored
/// into MIE, MPIE set, MPRV cleared unless returning to machine mode,
/// MPP reset to user.
pub open spec fn spec_mret(s: Seq<u64>) -> (u64, u8, Seq<u64>) {
    let st = s[MSTATUS as int];
    let mpie = (st >> 7) & 1;
    let mpp = spec_mstatus_mpp(st);
    let mprv = if mpp == 3 {
        (st >> 17) & 1
    } else {
        0
    };
    let st2 = (st & !MRET_MASK) | (mpie << 3) | (1u64 << 7) | (mprv << 17);
    (s[MEPC as int], mpp, s.update(MSTATUS as int, st2))
}

/// The (target pc, target mode, new MSTATUS) of an SRET, analogous to
/// MRET over SEPC/SPP/SIE/SPIE; SPP can only name user or supervisor,
/// so MPRV is always cleared.
pub open spec fn spec_sret(s: Seq<u64>) -> (u64, u8, Seq<u64>) {
    let st = s[MSTATUS as int];
    let spie = (st >> 5) & 1;
    let spp: u8 = if (st >> 8) & 1 == 1 {
        1
    } else {
        0
    };
    let st2 = (st & !SRET_MASK) | (spie << 1) | (1u64 << 5);
    (s[SEPC as int], spp, s.update(MSTATUS as int, st2))
}

impl CsrRegistry {
    /// Stack a trap into machine mode (see `spec_trap_into_machine`).
    pub fn trap_into_machine(&mut self, old_mode: u8)
        requires
            old(self).wf(),
            old_mode == 0 || old_mode == 1 || old_mode == 3,
        ensures
            final (self).wf(),
            final (self)@ == spec_trap_into_machine(old(self)@, old_mode),
    {
        let status = self.csr[MSTATUS as usize];
        let stacked = (status & !TRAP_INTO_MACHINE_MASK) | (((status >> 3) & 1) << 7) | ((
        old_mode as u64) << 11);
        self.csr[MSTATUS as usize] = stacked;
        proof {
            assert(self.csr@ =~= spec_trap_into_machine(old(self).csr@, old_mode));
        }
    }

    /// Stack a trap into supervisor mode (see `spec_trap_into_supervisor`).
    pub fn trap_into_supervisor(&mut self, old_mode: u8)
        requires
            old(self).wf(),
            old_mode == 0 || old_mode == 1,
        ensures
            final (self).wf(),
            final (self)@ == spec_trap_into_supervisor(old(self)@, old_mode),
    {
        let status = self.csr[MSTATUS as usize];
        let stacked = (status & !TRAP_INTO_SUPERVISOR_MASK) | (((status >> 1) & 1) << 5) | ((
        old_mode as u64) << 8);
        self.csr[MSTATUS as usize] = stacked;
        proof {
            assert(self.csr@ =~= spec_trap_into_supervisor(old(self).csr@, old_mode));
        }
    }

    /// Return from a machine-mode trap (see `spec_mret`).
    pub fn mret(&mut self) -> (r: (u64, u8))
        requires
            old(self).wf(),
        ensures
            final (self).wf(),
            r.0 == spec_mret(old(self)@).0,
            r.1 == spec_mret(old(self)@).1,
            final (self)@ == spec_mret(old(self)@).2,
            r.1 == 0 || r.1 == 1 || r.1 == 3,
    {
        let status = self.csr[MSTATUS as usize];
        let mpie = (status >> 7) & 1;
        let mpp_raw = (status >> 11) & 0x3;
        let mpp: u8 = if mpp_raw == 1 {
            1
        } else if mpp_raw == 3 {
            3
        } else {
            0
        };
        let mprv = if mpp == 3 {
            (status >> 17) & 1
        } else {
            0
        };
        let restored = (status & !MRET_MASK) | (mpie << 3) | (1u64 << 7) | (mprv << 17);
        self.csr[MSTATUS as usize] = restored;
        proof {
            assert(self.csr@ =~= spec_mret(old(self).csr@).2);
        }
        (self.csr[MEPC as usize], mpp)
    }

    /// Return from a supervisor-mode trap (see `spec_sret`).
    pub fn sret(&mut self) -> (r: (u64, u8))
        requires
            old(self).wf(),
        ensures
            final (self).wf(),
            r.0 == spec_sret(old(self)@).0,
            r.1 == spec_sret(old(self)@).1,
            final (self)@ == spec_sret(old(self)@).2,
            r.1 == 0 || r.1 == 1,
    {
        let status = self.csr[MSTATUS as usize];
        let spie = (status >> 5) & 1;
        let spp: u8 = if (status >> 8) & 1 == 1 {
            1
        } else {
            0
        };
        let restored = (status & !SRET_MASK) | (spie << 1) | (1u64 << 5);
        self.csr[MSTATUS as usize] = restored;
        proof {
            assert(self.csr@ =~= spec_sret(old(self).csr@).2);
        }
        (self.csr[SEPC as usize], spp)
    }

    /// The dynamic rounding mode, FCSR bits [7:5].
    pub fn read_frm(&self) -> (r: u8)
        requires
            self.wf(),
        ensures
            r == ((self@[FCSR as int] >> 5) & 0x7) as u8,
    {
        ((self.csr[FCSR as usize] >> 5) & 0x7) as u8
    }

    /// OR newly raised exception flags into FFLAGS (FCSR bits [4:0]):
    /// flags accumulate, they are only cleared by an explicit CSR write.
    pub fn accumulate_fflags(&mut self, data: u8)
        requires
            old(self).wf(),
        ensures
            final (self).wf(),
            final (self)@ == old(self)@.update(
                FCSR as int,
                old(self)@[FCSR as int] | ((data & 0x1F) as u64),
            ),
    {
        let merged = self.csr[FCSR as usize] | ((data & 0x1F) as u64);
        self.csr[FCSR as usize] = merged;
        proof {
            assert(self.csr@ =~= old(self).csr@.update(
                FCSR as int,
                old(self)@[FCSR as int] | ((data & 0x1F) as u64),
            ));
        }
    }

    pub fn read_mstatus_sie(&self) -> (r: bool)
        requires
            self.wf(),
        ensures
            r == ((self@[MSTATUS as int] >> 1) & 1 == 1),
    {
        (self.csr[MSTATUS as usize] >> 1) & 1 == 1
    }

    pub fn read_mstatus_mie(&self) -> (r: bool)
        requires
            self.wf(),
        ensures
            r == ((self@[MSTATUS as int] >> 3) & 1 == 1),
    {
        (self.csr[MSTATUS as usize] >> 3) & 1 == 1
    }

    pub fn read_mstatus_tsr(&self) -> (r: bool)
        requires
            self.wf(),
        ensures
            r == ((self@[MSTATUS as int] >> 22) & 1 == 1),
    {
        (self.csr[MSTATUS as usize] >> 22) & 1 == 1
    }

    /// The FS field, MSTATUS bits [14:13]; 0 means floating point is off.
    pub fn read_mstatus_fs(&self) -> (r: u8)
        requires
            self.wf(),
        ensures
            r == ((self@[MSTATUS as int] >> 13) & 0x3) as u8,
    {
        ((self.csr[MSTATUS as usize] >> 13) & 0x3) as u8
    }

    /// Set the FS field; used to mark the FP state dirty.
    pub fn write_mstatus_fs(&mut self, fs: u8)
        requires
            old(self).wf(),
            fs <= 3,
        ensures
            final (self).wf(),
            final (self)@ == old(self)@.update(
                MSTATUS as int,
                (old(self)@[MSTATUS as int] & !0x6000u64) | (((fs & 0x3) as u64) << 13),
            ),
    {
        let merged = (self.csr[MSTATUS as usize] & !0x6000u64) | (((fs & 0x3) as u64) << 13);
        self.csr[MSTATUS as usize] = merged;
        proof {
            assert(self.csr@ =~= old(self).csr@.update(
                MSTATUS as int,
                (old(self)@[MSTATUS as int] & !0x6000u64) | (((fs & 0x3) as u64) << 13),
            ));
        }
    }

    /// MPRV, MPP, SUM and MXR of MSTATUS, the fields the MMU consults.
    pub fn read_mstatus_mprv_mpp_sum_mxr(&self) -> (r: (bool, u8, bool, bool))
        requires
            self.wf(),
        ensures
            r.0 == ((self@[MSTATUS as int] >> 17) & 1 == 1),
            r.1 == spec_mstatus_mpp(self@[MSTATUS as int]),
            r.2 == ((self@[MSTATUS as int] >> 18) & 1 == 1),
            r.3 == ((self@[MSTATUS as int] >> 19) & 1 == 1),
            r.1 == 0 || r.1 == 1 || r.1 == 3,
    {
        let status = self.csr[MSTATUS as usize];
        let mpp_raw = (status >> 11) & 0x3;
        let mpp: u8 = if mpp_raw == 1 {
            1
        } else if mpp_raw == 3 {
            3
        } else {
            0
        };
        ((status >> 17) & 1 == 1, mpp, (status >> 18) & 1 == 1, (status >> 19) & 1 == 1)
    }

    /// Decode an interrupt mask register (MIE or MIP) into its bits.
    pub open spec fn spec_miep(v: u64) -> MIEP {
        MIEP {
            ss: (v >> 1) & 1 == 1,
            ms: (v >> 3) & 1 == 1,
            st: (v >> 5) & 1 == 1,
            mt: (v >> 7) & 1 == 1,
            se: (v >> 9) & 1 == 1,
            me: (v >> 11) & 1 == 1,
        }
    }

    pub fn read_mie(&self) -> (r: MIEP)
        requires
            self.wf(),
        ensures
            r == Self::spec_miep(self@[MIE as int]),
    {
        let v = self.csr[MIE as usize];
        MIEP {
            ss: (v >> 1) & 1 == 1,
            ms: (v >> 3) & 1 == 1,
            st: (v >> 5) & 1 == 1,
            mt: (v >> 7) & 1 == 1,
            se: (v >> 9) & 1 == 1,
            me: (v >> 11) & 1 == 1,
        }
    }

    pub fn read_mip(&self) -> (r: MIEP)
        requires
            self.wf(),
        ensures
            r == Self::spec_miep(self@[MIP as int]),
    {
        let v = self.csr[MIP as usize];
        MIEP {
            ss: (v >> 1) & 1 == 1,
            ms: (v >> 3) & 1 == 1,
            st: (v >> 5) & 1 == 1,
            mt: (v >> 7) & 1 == 1,
            se: (v >> 9) & 1 == 1,
            me: (v >> 11) & 1 == 1,
        }
    }

    pub fn read_medeleg(&self) -> (r: u64)
        requires
            self.wf(),
        ensures
            r == self@[MEDELEG as int],
    {
        self.csr[MEDELEG as usize]
    }

    pub fn read_mideleg(&self) -> (r: u64)
        requires
            self.wf(),
        ensures
            r == self@[MIDELEG as int],
    {
        self.csr[MIDELEG as usize]
    }

    pub fn read_mtvec(&self) -> (r: u64)
        requires
            self.wf(),
        ensures
            r == self@[MTVEC as int],
    {
        self.csr[MTVEC as usize]
    }

    pub fn read_stvec(&self) -> (r: u64)
        requires
            self.wf(),
        ensures
            r == self@[STVEC as int],
    {
        self.csr[STVEC as usize]
    }

    pub fn read_satp(&self) -> (r: u64)
        requires
            self.wf(),
        ensures
            r == self@[SATP as int],
    {
        self.csr[SATP as usize]
    }

    /// Store directly into a machine or supervisor trap slot (EPC,
    /// CAUSE, TVAL); only the trap machinery writes these unmasked.
    pub fn write_trap_slot(&mut self, address: u16, data: u64)
        requires
            old(self).wf(),
            address == MEPC || address == MCAUSE || address == MTVAL || address == SEPC || address
                == SCAUSE || address == STVAL,
        ensures
            final (self).wf(),
            final (self)@ == old(self)@.update(address as int, data),
    {
        self.csr[address as usize] = data;
        proof {
            assert(self.csr@ =~= old(self).csr@.update(address as int, data));
        }
    }

    /// Set or clear one MIP bit; `bit` names the position (3 for MSIP,
    /// 7 for MTIP, 9 for SEIP, 11 for MEIP). Devices drive these.
    pub fn write_mip_bit(&mut self, bit: u8, value: bool)
        requires
            old(self).wf(),
            bit == 3 || bit == 7 || bit == 9 || bit == 11,
        ensures
            final (self).wf(),
            final (self)@ == old(self)@.update(
                MIP as int,
                if value {
                    old(self)@[MIP as int] | (1u64 << bit)
                } else {
                    old(self)@[MIP as int] & !(1u64 << bit)
                },
            ),
    {
        let v = self.csr[MIP as usize];
        let merged = if value {
            v | (1u64 << bit)
        } else {
            v & !(1u64 << bit)
        };
        self.csr[MIP as usize] = merged;
        proof {
            assert(self.csr@ =~= old(self).csr@.update(
                MIP as int,
                if value {
                    old(self)@[MIP as int] | (1u64 << bit)
                } else {
                    old(self)@[MIP as int] & !(1u64 << bit)
                },
            ));
        }
    }
}

/// CSR masking: writing all-ones to each masked register of the table in
/// the data model and reading it back yields exactly the documented mask,
/// and writes to MISA and the identification registers are ignored.
pub proof fn lemma_csr_mask_roundtrip(s: Seq<u64>)
    requires
        s.len() == 4096,
    ensures
        spec_read_raw(spec_write_raw(s, MSTATUS, 0xFFFF_FFFF_FFFF_FFFF), MSTATUS) == MSTATUS_MASK,
        spec_read_raw(spec_write_raw(s, SSTATUS, 0xFFFF_FFFF_FFFF_FFFF), SSTATUS) == SSTATUS_MASK,
        spec_read_raw(spec_write_raw(s, MIE, 0xFFFF_FFFF_FFFF_FFFF), MIE) == MIE_MASK,
        spec_read_raw(spec_write_raw(s, MIP, 0xFFFF_FFFF_FFFF_FFFF), MIP) == MIP_MASK,
        spec_read_raw(spec_write_raw(s, SIE, 0xFFFF_FFFF_FFFF_FFFF), SIE) == SIE_MASK,
        spec_read_raw(spec_write_raw(s, SIP, 0xFFFF_FFFF_FFFF_FFFF), SIP) == SIP_MASK,
        spec_read_raw(spec_write_raw(s, FCSR, 0xFFFF_FFFF_FFFF_FFFF), FCSR) == 0xFF,
        spec_read_raw(spec_write_raw(s, MISA, 0xFFFF_FFFF_FFFF_FFFF), MISA) == spec_read_raw(
            s,
            MISA,
        ),
        spec_read_raw(spec_write_raw(s, MVENDORID, 0xFFFF_FFFF_FFFF_FFFF), MVENDORID)
            == spec_read_raw(s, MVENDORID),
{
    let st = s[MSTATUS as int];
    let ie = s[MIE as int];
    let ip = s[MIP as int];
    assert((st & !0x8000_0000_000C_DE62u64 | (0xFFFF_FFFF_FFFF_FFFFu64
        & 0x8000_0000_000C_DE62u64)) & 0x8000_0000_000C_DE62u64 == 0x8000_0000_000C_DE62u64 && (ie
        & !0x0222u64 | (0xFFFF_FFFF_FFFF_FFFFu64 & 0x0222u64)) & 0x0222u64 == 0x0222u64 && (ip
        & !0x0222u64 | (0xFFFF_FFFF_FFFF_FFFFu64 & 0x0222u64)) & 0x0222u64 == 0x0222u64
        && 0xFFFF_FFFF_FFFF_FFFFu64 & 0x8000_0000_003F_FFEAu64 == 0x8000_0000_003F_FFEAu64
        && 0xFFFF_FFFF_FFFF_FFFFu64 & 0x0AAAu64 == 0x0AAAu64 && 0xFFFF_FFFF_FFFF_FFFFu64 & 0xFFu64
        == 0xFFu64) by (bit_vector);
}

/// Trap return round-trip: MRET after stacking a trap into machine mode
/// restores MIE to its pre-trap value, returns to the stacked mode, and
/// targets the unchanged MEPC.
pub proof fn lemma_trap_mret_roundtrip(s: Seq<u64>, from: u8)
    requires
        s.len() == 4096,
        from == 0 || from == 1 || from == 3,
    ensures
        spec_mret(spec_trap_into_machine(s, from)).1 == from,
        spec_mret(spec_trap_into_machine(s, from)).0 == s[MEPC as int],
        (spec_mret(spec_trap_into_machine(s, from)).2[MSTATUS as int] >> 3) & 1 == (s[MSTATUS
            as int] >> 3) & 1,
{
    let st = s[MSTATUS as int];
    let fromw = from as u64;
    let stacked = (st & !TRAP_INTO_MACHINE_MASK) | (((st >> 3) & 1) << 7) | (fromw << 11);
    assert((stacked >> 11) & 0x3 == fromw && (stacked >> 7) & 1 == (st >> 3) & 1) by (bit_vector)
        requires
            stacked == (st & !0x1888u64) | (((st >> 3) & 1) << 7) | (fromw << 11),
            fromw == 0 || fromw == 1 || fromw == 3,
    ;
    let mpie = (stacked >> 7) & 1;
    let mprv: u64 = if from == 3 {
        (stacked >> 17) & 1
    } else {
        0
    };
    let restored = (stacked & !MRET_MASK) | (mpie << 3) | (1u64 << 7) | (mprv << 17);
    assert((restored >> 3) & 1 == (st >> 3) & 1) by (bit_vector)
        requires
            restored == (stacked & !0x21888u64) | (mpie << 3) | (1u64 << 7) | (mprv << 17),
            mpie == (st >> 3) & 1,
    ;
}

} // verus!

