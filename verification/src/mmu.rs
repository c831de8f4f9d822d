//! The memory-management unit: SV39 virtual-to-physical translation,
//! permission checks, misalignment handling, instruction fetch, and the
//! bus access paths used by load, store and atomic instructions.

use vstd::prelude::*;
use crate::bus::Bus;
use crate::csr::CsrRegistry;
use crate::memory::{ram_range, spec_read_u8, spec_read_u16, spec_read_u64, MEMORY_START, MEMORY_END};
use crate::trap::Exception;

verus! {

/// What kind of access is being translated; read-write is for atomics.
#[derive(Debug, Clone, Copy, PartialEq, Eq, Structural)]
pub enum AccessType {
    Execute,
    Read,
    Write,
    ReadWrite,
}

/// A fetched instruction: full-width, or compressed and still encoded.
#[derive(Debug, Clone, Copy, PartialEq, Eq, Structural)]
pub enum InstructionWithType {
    L32(u32),
    L16(u16),
}

/// The page-fault exception matching an access type, carrying the
/// faulting virtual address.
pub open spec fn spec_page_fault(access: AccessType, addr: u64) -> Exception {
    match access {
        AccessType::Execute => Exception::InstructionPageFault(addr),
        AccessType::Read => Exception::LoadPageFault(addr),
        AccessType::Write => Exception::StoreAMOPageFault(addr),
        AccessType::ReadWrite => Exception::StoreAMOPageFault(addr),
    }
}

/// SATP names the SV39 scheme.
pub open spec fn spec_satp_mode_on(satp: u64) -> bool {
    satp >> 60 == 8
}

/// The root page-table page number held in SATP.
pub open spec fn spec_satp_ppn(satp: u64) -> u64 {
    satp & 0xFFF_FFFF_FFFF
}

/// The privilege a data access is performed at: MPRV substitutes MPP
/// for everything but instruction fetches.
pub open spec fn spec_effective_mode(
    mode: u8,
    access: AccessType,
    mprv: bool,
    mpp: u8,
) -> u8 {
    if mprv && access != AccessType::Execute {
        mpp
    } else {
        mode
    }
}

/// Bits [63:39] must sign-extend bit 38, or the address is not a
/// canonical SV39 virtual address.
pub open spec fn spec_va_invalid(addr: u64) -> bool {
    (addr >> 39) != (if (addr >> 38) & 1 == 1 {
        0x1FF_FFFFu64
    } else {
        0u64
    })
}

/// The three 9-bit virtual page numbers; `i` is the walk level.
pub open spec fn spec_vpn(addr: u64, i: int) -> u64 {
    if i == 0 {
        (addr >> 12) & 0x1FF
    } else if i == 1 {
        (addr >> 21) & 0x1FF
    } else {
        (addr >> 30) & 0x1FF
    }
}

pub open spec fn spec_pte_invalid(pte: u64) -> bool {
    pte >> 54 != 0
}

pub open spec fn spec_pte_ppn(pte: u64) -> u64 {
    (pte >> 10) & 0xFFF_FFFF_FFFF
}

/// The per-level slices of a PTE's physical page number.
pub open spec fn spec_pte_ppn_slice(pte: u64, j: int) -> u64 {
    if j == 0 {
        (pte >> 10) & 0x1FF
    } else if j == 1 {
        (pte >> 19) & 0x1FF
    } else {
        (pte >> 28) & 0x3FF_FFFF
    }
}

pub open spec fn spec_pte_d(pte: u64) -> bool {
    (pte >> 7) & 1 == 1
}

pub open spec fn spec_pte_a(pte: u64) -> bool {
    (pte >> 6) & 1 == 1
}

pub open spec fn spec_pte_u(pte: u64) -> bool {
    (pte >> 4) & 1 == 1
}

pub open spec fn spec_pte_x(pte: u64) -> bool {
    (pte >> 3) & 1 == 1
}

pub open spec fn spec_pte_w(pte: u64) -> bool {
    (pte >> 2) & 1 == 1
}

pub open spec fn spec_pte_r(pte: u64) -> bool {
    (pte >> 1) & 1 == 1
}

pub open spec fn spec_pte_v(pte: u64) -> bool {
    pte & 1 == 1
}

/// How a walk step ends: at a leaf PTE found at some level, at a page
/// fault, or at a table entry outside RAM (an access fault on the
/// entry's own physical address).
pub enum WalkOut {
    Leaf(u64, u64),
    PageFault,
    RamFault(u64),
}

/// The SV39 table walk from table base `a` at `level`, reading each PTE
/// out of RAM: stop at the first leaf (R or X set), fault on invalid
/// entries and on running out of levels.
pub open spec fn spec_walk(ram: Seq<u8>, a: u64, addr: u64, level: int) -> WalkOut
    decreases level,
{
    let pte_addr = (a + spec_vpn(addr, level) * 8) as u64;
    if !ram_range(pte_addr, 8) {
        WalkOut::RamFault(pte_addr)
    } else {
        let pte = spec_read_u64(ram, pte_addr);
        if spec_pte_invalid(pte) || !spec_pte_v(pte) || (!spec_pte_r(pte) && spec_pte_w(pte)) {
            WalkOut::PageFault
        } else if spec_pte_r(pte) || spec_pte_x(pte) {
            WalkOut::Leaf(pte, level as u64)
        } else if level <= 0 {
            WalkOut::PageFault
        } else {
            spec_walk(ram, (spec_pte_ppn(pte) * 4096) as u64, addr, level - 1)
        }
    }
}

/// The physical address a leaf found at `level` maps `addr` to: the
/// leaf's page number slices above the level, the virtual page numbers
/// below it (superpages splice them in), and the page offset.
pub open spec fn spec_leaf_pa(pte: u64, addr: u64, level: int) -> u64 {
    let p0 = if level > 0 {
        spec_vpn(addr, 0) << 12
    } else {
        spec_pte_ppn_slice(pte, 0) << 12
    };
    let p1 = if level > 1 {
        spec_vpn(addr, 1) << 21
    } else {
        spec_pte_ppn_slice(pte, 1) << 21
    };
    let p2 = spec_pte_ppn_slice(pte, 2) << 30;
    p0 | p1 | p2 | (addr & 0xFFF)
}

/// Whether a leaf found at `level` permits `access` under the given
/// effective mode and the SUM/MXR bits, with its accessed/dirty state
/// and superpage alignment in order.
pub open spec fn spec_leaf_ok(
    pte: u64,
    level: int,
    access: AccessType,
    eff_mode: u8,
    sum: bool,
    mxr: bool,
) -> bool {
    let perm = match access {
        AccessType::Execute => spec_pte_x(pte),
        AccessType::Read => spec_pte_r(pte) || (spec_pte_x(pte) && mxr),
        AccessType::Write => spec_pte_w(pte),
        AccessType::ReadWrite => spec_pte_r(pte) && spec_pte_w(pte),
    };
    &&& perm
    &&& !(eff_mode == 0 && !spec_pte_u(pte))
    &&& !(spec_pte_u(pte) && eff_mode == 1 && !sum)
    &&& !(level > 0 && spec_pte_ppn_slice(pte, 0) != 0)
    &&& !(level > 1 && spec_pte_ppn_slice(pte, 1) != 0)
    &&& spec_pte_a(pte)
    &&& !((access == AccessType::Write || access == AccessType::ReadWrite) && !spec_pte_d(pte))
}

/// The whole translation: identity when paging is off or the effective
/// privilege is machine; otherwise the SV39 walk with its fault cases.
pub open spec fn spec_translate(
    ram: Seq<u8>,
    satp: u64,
    mstatus: u64,
    mode: u8,
    addr: u64,
    access: AccessType,
) -> Result<u64, Exception> {
    if !spec_satp_mode_on(satp) {
        Ok(addr)
    } else {
        let mprv = (mstatus >> 17) & 1 == 1;
        let mpp = crate::csr::spec_mstatus_mpp(mstatus);
        let sum = (mstatus >> 18) & 1 == 1;
        let mxr = (mstatus >> 19) & 1 == 1;
        let eff = spec_effective_mode(mode, access, mprv, mpp);
        if eff == 3 {
            Ok(addr)
        } else if spec_va_invalid(addr) {
            Err(spec_page_fault(access, addr))
        } else {
            match spec_walk(ram, (spec_satp_ppn(satp) * 4096) as u64, addr, 2) {
                WalkOut::RamFault(pa) => Err(Exception::LoadAccessFault(pa)),
                WalkOut::PageFault => Err(spec_page_fault(access, addr)),
                WalkOut::Leaf(pte, level) => {
                    if spec_leaf_ok(pte, level as int, access, eff, sum, mxr) {
                        Ok(spec_leaf_pa(pte, addr, level as int))
                    } else {
                        Err(spec_page_fault(access, addr))
                    }
                },
            }
        }
    }
}

/// SATP decoded: the translation mode selector and the root table's
/// physical page number.
#[derive(Debug, Clone, Copy, PartialEq, Eq, Structural)]
pub struct SATP {
    pub mode: u64,
    pub ppn: u64,
}

impl SATP {
    pub fn from_u64(data: u64) -> (r: SATP)
        ensures
            r.mode == data >> 60,
            r.ppn == spec_satp_ppn(data),
    {
        SATP { mode: data >> 60, ppn: data & 0xFFF_FFFF_FFFF }
    }
}

/// An SV39 virtual address decoded: canonicality, the three 9-bit
/// virtual page numbers, and the page offset.
#[derive(Debug, Clone, Copy, PartialEq, Eq, Structural)]
pub struct VirtualAddress {
    pub invalid: bool,
    pub vpn0: u64,
    pub vpn1: u64,
    pub vpn2: u64,
    pub page_offset: u64,
}

impl VirtualAddress {
    pub fn from_u64(data: u64) -> (r: VirtualAddress)
        ensures
            r.invalid == spec_va_invalid(data),
            r.vpn0 == spec_vpn(data, 0),
            r.vpn1 == spec_vpn(data, 1),
            r.vpn2 == spec_vpn(data, 2),
            r.page_offset == data & 0xFFF,
    {
        VirtualAddress {
            invalid: (data >> 39) != (if (data >> 38) & 1 == 1 {
                0x1FF_FFFFu64
            } else {
                0u64
            }),
            vpn0: (data >> 12) & 0x1FF,
            vpn1: (data >> 21) & 0x1FF,
            vpn2: (data >> 30) & 0x1FF,
            page_offset: data & 0xFFF,
        }
    }
}

/// A page-table entry decoded into its physical page number (whole and
/// per level) and permission bits.
#[derive(Debug, Clone, Copy, PartialEq, Eq, Structural)]
pub struct PTE {
    pub invalid: bool,
    pub ppn: u64,
    pub ppn0: u64,
    pub ppn1: u64,
    pub ppn2: u64,
    pub d: bool,
    pub a: bool,
    pub u: bool,
    pub x: bool,
    pub w: bool,
    pub r: bool,
    pub v: bool,
}

impl PTE {
    pub fn from_u64(data: u64) -> (r: PTE)
        ensures
            r.invalid == spec_pte_invalid(data),
            r.ppn == spec_pte_ppn(data),
            r.ppn0 == spec_pte_ppn_slice(data, 0),
            r.ppn1 == spec_pte_ppn_slice(data, 1),
            r.ppn2 == spec_pte_ppn_slice(data, 2),
            r.d == spec_pte_d(data),
            r.a == spec_pte_a(data),
            r.u == spec_pte_u(data),
            r.x == spec_pte_x(data),
            r.w == spec_pte_w(data),
            r.r == spec_pte_r(data),
            r.v == spec_pte_v(data),
    {
        PTE {
            invalid: data >> 54 != 0,
            ppn: (data >> 10) & 0xFFF_FFFF_FFFF,
            ppn0: (data >> 10) & 0x1FF,
            ppn1: (data >> 19) & 0x1FF,
            ppn2: (data >> 28) & 0x3FF_FFFF,
            d: (data >> 7) & 1 == 1,
            a: (data >> 6) & 1 == 1,
            u: (data >> 4) & 1 == 1,
            x: (data >> 3) & 1 == 1,
            w: (data >> 2) & 1 == 1,
            r: (data >> 1) & 1 == 1,
            v: data & 1 == 1,
        }
    }
}

/// Where byte `i` of a misaligned access lands: the low translation
/// covers the first `len - address % len` bytes, the translation of
/// `address + len` covers the rest, `len` below its own base.
pub open spec fn spec_mis_byte_addr(address: u64, pa_lo: u64, pa_hi: u64, len: u64, i: int) -> u64 {
    if i < len - address % len {
        vstd::wrapping::u64_specs::wrapping_add(pa_lo, i as u64)
    } else {
        vstd::wrapping::u64_specs::wrapping_sub(
            vstd::wrapping::u64_specs::wrapping_add(pa_hi, i as u64),
            len,
        )
    }
}

/// Every byte of the split access lands in RAM.
pub open spec fn spec_mis_all_ram(address: u64, pa_lo: u64, pa_hi: u64, len: u64) -> bool {
    forall|i: int|
        0 <= i < len ==> ram_range(
            #[trigger] spec_mis_byte_addr(address, pa_lo, pa_hi, len, i),
            1,
        )
}

/// RAM after scattering the first `i` bytes of `data` across the split.
pub open spec fn spec_mis_write(
    ram: Seq<u8>,
    address: u64,
    pa_lo: u64,
    pa_hi: u64,
    data: Seq<u8>,
    i: int,
) -> Seq<u8>
    decreases i,
{
    if i <= 0 {
        ram
    } else {
        crate::memory::spec_write_u8(
            spec_mis_write(ram, address, pa_lo, pa_hi, data, i - 1),
            spec_mis_byte_addr(address, pa_lo, pa_hi, data.len() as u64, i - 1),
            data[i - 1],
        )
    }
}

/// The little-endian halfword gathered across the split.
pub open spec fn spec_mis_read_u16(ram: Seq<u8>, address: u64, pa_lo: u64, pa_hi: u64) -> u16 {
    (spec_read_u8(ram, spec_mis_byte_addr(address, pa_lo, pa_hi, 2, 0)) as u16) | ((spec_read_u8(
        ram,
        spec_mis_byte_addr(address, pa_lo, pa_hi, 2, 1),
    ) as u16) << 8)
}

/// The little-endian word gathered across the split.
pub open spec fn spec_mis_read_u32(ram: Seq<u8>, address: u64, pa_lo: u64, pa_hi: u64) -> u32 {
    (spec_read_u8(ram, spec_mis_byte_addr(address, pa_lo, pa_hi, 4, 0)) as u32) | ((spec_read_u8(
        ram,
        spec_mis_byte_addr(address, pa_lo, pa_hi, 4, 1),
    ) as u32) << 8) | ((spec_read_u8(ram, spec_mis_byte_addr(address, pa_lo, pa_hi, 4, 2)) as u32)
        << 16) | ((spec_read_u8(ram, spec_mis_byte_addr(address, pa_lo, pa_hi, 4, 3)) as u32) << 24)
}

/// The little-endian doubleword gathered across the split.
pub open spec fn spec_mis_read_u64(ram: Seq<u8>, address: u64, pa_lo: u64, pa_hi: u64) -> u64 {
    (spec_read_u8(ram, spec_mis_byte_addr(address, pa_lo, pa_hi, 8, 0)) as u64) | ((spec_read_u8(
        ram,
        spec_mis_byte_addr(address, pa_lo, pa_hi, 8, 1),
    ) as u64) << 8) | ((spec_read_u8(ram, spec_mis_byte_addr(address, pa_lo, pa_hi, 8, 2)) as u64)
        << 16) | ((spec_read_u8(ram, spec_mis_byte_addr(address, pa_lo, pa_hi, 8, 3)) as u64) << 24)
        | ((spec_read_u8(ram, spec_mis_byte_addr(address, pa_lo, pa_hi, 8, 4)) as u64) << 32) | ((
    spec_read_u8(ram, spec_mis_byte_addr(address, pa_lo, pa_hi, 8, 5)) as u64) << 40) | ((
    spec_read_u8(ram, spec_mis_byte_addr(address, pa_lo, pa_hi, 8, 6)) as u64) << 48) | ((
    spec_read_u8(ram, spec_mis_byte_addr(address, pa_lo, pa_hi, 8, 7)) as u64) << 56)
}

/// The MMU owns the bus; every instruction-visible memory access goes
/// through here.
pub struct MMU {
    pub bus: Bus,
}

impl MMU {
    pub open spec fn wf(&self) -> bool {
        self.bus.wf()
    }

    pub open spec fn ram(&self) -> Seq<u8> {
        self.bus.ram()
    }

    pub open spec fn reservations(&self) -> Seq<u64> {
        self.bus.memory.reservations()
    }

    pub fn new(bus: Bus) -> (r: MMU)
        ensures
            r.bus == bus,
    {
        MMU { bus }
    }

    /// Reserve `address` for a later store-conditional.
    pub fn lock_addr(&mut self, address: u64)
        requires
            old(self).wf(),
        ensures
            final (self).wf(),
            final (self).ram() == old(self).ram(),
            final (self).reservations() == old(self).reservations().push(address),
            final (self).bus.aclint == old(self).bus.aclint,
            final (self).bus.plic == old(self).bus.plic,
            final (self).bus.uart == old(self).bus.uart,
    {
        self.bus.memory.lock_addr(address);
    }

    /// Consume the reservation set; true iff `address` was reserved.
    pub fn unlock_addr(&mut self, address: u64) -> (r: bool)
        requires
            old(self).wf(),
        ensures
            final (self).wf(),
            final (self).ram() == old(self).ram(),
            r == old(self).reservations().contains(address),
            final (self).reservations() == Seq::<u64>::empty(),
            final (self).bus.aclint == old(self).bus.aclint,
            final (self).bus.plic == old(self).bus.plic,
            final (self).bus.uart == old(self).bus.uart,
    {
        self.bus.memory.unlock_addr(address)
    }

    /// Translate `address` for `access` under the current SATP and
    /// MSTATUS; exactly `spec_translate`.
    pub fn translate(&self, csr: &CsrRegistry, mode: u8, address: u64, access: AccessType) -> (r:
        Result<u64, Exception>)
        requires
            self.wf(),
            csr.wf(),
            mode == 0 || mode == 1 || mode == 3,
        ensures
            r == spec_translate(
                self.ram(),
                csr@[crate::csr::SATP as int],
                csr@[crate::csr::MSTATUS as int],
                mode,
                address,
                access,
            ),
    {
        let satp = csr.read_satp();
        if satp >> 60 != 8 {
            return Ok(address);
        }
        let (mprv, mpp, sum, mxr) = csr.read_mstatus_mprv_mpp_sum_mxr();
        let eff: u8 = if mprv && access != AccessType::Execute {
            mpp
        } else {
            mode
        };
        if eff == 3 {
            return Ok(address);
        }
        let invalid = (address >> 39) != (if (address >> 38) & 1 == 1 {
            0x1FF_FFFFu64
        } else {
            0u64
        });
        if invalid {
            return Err(page_fault(access, address));
        }
        proof {
            assert(satp & 0xFFF_FFFF_FFFF <= 0xFFF_FFFF_FFFFu64) by (bit_vector);
        }
        let ghost ram = self.ram();
        let mut a: u64 = (satp & 0xFFF_FFFF_FFFF) * 4096;
        let ghost a0 = a;
        let mut level: usize = 2;
        loop
            invariant
                self.wf(),
                csr.wf(),
                level <= 2,
                a <= 0xFFF_FFFF_FFFFu64 * 4096,
                ram == self.ram(),
                spec_walk(ram, a0, address, 2) == spec_walk(ram, a, address, level as int),
                spec_translate(
                    self.ram(),
                    csr@[crate::csr::SATP as int],
                    csr@[crate::csr::MSTATUS as int],
                    mode,
                    address,
                    access,
                ) == ({
                    match spec_walk(ram, a0, address, 2) {
                        WalkOut::RamFault(pa) => Err::<u64, Exception>(
                            Exception::LoadAccessFault(pa),
                        ),
                        WalkOut::PageFault => Err(spec_page_fault(access, address)),
                        WalkOut::Leaf(pte, lv) => {
                            if spec_leaf_ok(pte, lv as int, access, eff, sum, mxr) {
                                Ok(spec_leaf_pa(pte, address, lv as int))
                            } else {
                                Err(spec_page_fault(access, address))
                            }
                        },
                    }
                }),
            decreases level,
        {
            let vpn: u64 = if level == 0 {
                (address >> 12) & 0x1FF
            } else if level == 1 {
                (address >> 21) & 0x1FF
            } else {
                (address >> 30) & 0x1FF
            };
            proof {
                assert(((address >> 12) & 0x1FF) <= 0x1FF && ((address >> 21) & 0x1FF) <= 0x1FF && (
                (address >> 30) & 0x1FF) <= 0x1FF) by (bit_vector);
            }
            let pte_addr = a + vpn * 8;
            if !(MEMORY_START <= pte_addr && pte_addr + 8 - 1 <= MEMORY_END) {
                return Err(Exception::LoadAccessFault(pte_addr));
            }
            let pte = self.bus.memory.read64(pte_addr);
            let v = pte & 1 == 1;
            let r = (pte >> 1) & 1 == 1;
            let w = (pte >> 2) & 1 == 1;
            let x = (pte >> 3) & 1 == 1;
            if (pte >> 54 != 0) || !v || (!r && w) {
                return Err(page_fault(access, address));
            }
            if r || x {
                let u = (pte >> 4) & 1 == 1;
                let d = (pte >> 7) & 1 == 1;
                let acc_a = (pte >> 6) & 1 == 1;
                let perm = match access {
                    AccessType::Execute => x,
                    AccessType::Read => r || (x && mxr),
                    AccessType::Write => w,
                    AccessType::ReadWrite => r && w,
                };
                if !perm {
                    return Err(page_fault(access, address));
                }
                if (eff == 0 && !u) || (u && eff == 1 && !sum) {
                    return Err(page_fault(access, address));
                }
                let ppn0 = (pte >> 10) & 0x1FF;
                let ppn1 = (pte >> 19) & 0x1FF;
                let ppn2 = (pte >> 28) & 0x3FF_FFFF;
                if level > 0 && ppn0 != 0 {
                    return Err(page_fault(access, address));
                }
                if level > 1 && ppn1 != 0 {
                    return Err(page_fault(access, address));
                }
                if !acc_a || ((access == AccessType::Write || access == AccessType::ReadWrite)
                    && !d) {
                    return Err(page_fault(access, address));
                }
                let p0: u64 = if level > 0 {
                    ((address >> 12) & 0x1FF) << 12
                } else {
                    ppn0 << 12
                };
                let p1: u64 = if level > 1 {
                    ((address >> 21) & 0x1FF) << 21
                } else {
                    ppn1 << 21
                };
                let p2: u64 = ppn2 << 30;
                let pa = p0 | p1 | p2 | (address & 0xFFF);
                return Ok(pa);
            }
            if level == 0 {
                return Err(page_fault(access, address));
            }
            level = level - 1;
            let ppn = (pte >> 10) & 0xFFF_FFFF_FFFF;
            proof {
                assert((pte >> 10) & 0xFFF_FFFF_FFFF <= 0xFFF_FFFF_FFFFu64) by (bit_vector);
            }
            a = ppn * 4096;
        }
    }
}

/// What fetching one instruction at `pc` yields: translation faults
/// surface as-is, a fetch outside RAM is an instruction access fault,
/// an instruction whose low two bits are set is 32 bits wide (possibly
/// straddling a page boundary), anything else is compressed.
pub open spec fn spec_fetch(
    ram: Seq<u8>,
    satp: u64,
    mstatus: u64,
    mode: u8,
    pc: u64,
) -> Result<InstructionWithType, Exception> {
    match spec_translate(ram, satp, mstatus, mode, pc, AccessType::Execute) {
        Err(e) => Err(e),
        Ok(pa_lo) => {
            if !ram_range(pa_lo, 2) {
                Err(Exception::InstructionAccessFault(pc))
            } else {
                let low = spec_read_u16(ram, pa_lo);
                if low & 3 != 3 {
                    Ok(InstructionWithType::L16(low))
                } else if pc % 4 == 0 {
                    if !ram_range((pa_lo + 2) as u64, 2) {
                        Err(Exception::InstructionAccessFault(pc))
                    } else {
                        Ok(
                            InstructionWithType::L32(
                                ((spec_read_u16(ram, (pa_lo + 2) as u64) as u32) << 16) | (
                                low as u32),
                            ),
                        )
                    }
                } else {
                    let pc_hi = vstd::wrapping::u64_specs::wrapping_add(pc, 2);
                    match spec_translate(ram, satp, mstatus, mode, pc_hi, AccessType::Execute) {
                        Err(e) => Err(e),
                        Ok(pa_hi) => {
                            if !ram_range(pa_hi, 2) {
                                Err(Exception::InstructionAccessFault(pc))
                            } else {
                                Ok(
                                    InstructionWithType::L32(
                                        ((spec_read_u16(ram, pa_hi) as u32) << 16) | (low as u32),
                                    ),
                                )
                            }
                        },
                    }
                }
            }
        },
    }
}

impl MMU {
    /// Fetch the instruction at `pc`; exactly `spec_fetch`. Code is
    /// executed out of RAM only: a fetch that translates to a device
    /// address is an instruction access fault.
    pub fn fetch(&self, csr: &CsrRegistry, mode: u8, pc: u64) -> (r: Result<
        InstructionWithType,
        Exception,
    >)
        requires
            self.wf(),
            csr.wf(),
            mode == 0 || mode == 1 || mode == 3,
        ensures
            r == spec_fetch(
                self.ram(),
                csr@[crate::csr::SATP as int],
                csr@[crate::csr::MSTATUS as int],
                mode,
                pc,
            ),
    {
        let pa_lo = match self.translate(csr, mode, pc, AccessType::Execute) {
            Ok(pa) => pa,
            Err(e) => {
                return Err(e);
            },
        };
        if !(MEMORY_START <= pa_lo && pa_lo <= MEMORY_END - 1) {
            return Err(Exception::InstructionAccessFault(pc));
        }
        let low = self.bus.memory.read16(pa_lo);
        if low & 3 != 3 {
            return Ok(InstructionWithType::L16(low));
        }
        if pc % 4 == 0 {
            if !(MEMORY_START <= pa_lo + 2 && pa_lo + 2 <= MEMORY_END - 1) {
                return Err(Exception::InstructionAccessFault(pc));
            }
            let high = self.bus.memory.read16(pa_lo + 2);
            Ok(InstructionWithType::L32(((high as u32) << 16) | (low as u32)))
        } else {
            let pa_hi = match self.translate(csr, mode, pc.wrapping_add(2), AccessType::Execute) {
                Ok(pa) => pa,
                Err(e) => {
                    return Err(e);
                },
            };
            if !(MEMORY_START <= pa_hi && pa_hi <= MEMORY_END - 1) {
                return Err(Exception::InstructionAccessFault(pc));
            }
            let high = self.bus.memory.read16(pa_hi);
            Ok(InstructionWithType::L32(((high as u32) << 16) | (low as u32)))
        }
    }
}


impl MMU {
    /// Load one byte at a virtual address.
    pub fn read8(&mut self, csr: &CsrRegistry, mode: u8, address: u64) -> (r: Result<
        u8,
        Exception,
    >)
        requires
            old(self).wf(),
            csr.wf(),
            mode == 0 || mode == 1 || mode == 3,
        ensures
            final (self).wf(),
            final (self).ram() == old(self).ram(),
            final (self).reservations() == old(self).reservations(),
            ({
                let t = spec_translate(
                    old(self).ram(),
                    csr@[crate::csr::SATP as int],
                    csr@[crate::csr::MSTATUS as int],
                    mode,
                    address,
                    AccessType::Read,
                );
                &&& (t matches Err(e) ==> r == Err::<u8, Exception>(e))
                &&& (t matches Ok(pa) ==> (ram_range(pa, 1) ==> r == Ok::<u8, Exception>(
                    spec_read_u8(old(self).ram(), pa),
                )))
            }),
    {
        let pa = match self.translate(csr, mode, address, AccessType::Read) {
            Ok(pa) => pa,
            Err(e) => {
                return Err(e);
            },
        };
        self.bus.read8(pa)
    }

    /// Load a halfword; a misaligned address is split into two
    /// byte-granularity accesses, each translated on its own.
    pub fn read16(&mut self, csr: &CsrRegistry, mode: u8, address: u64) -> (r: Result<
        u16,
        Exception,
    >)
        requires
            old(self).wf(),
            csr.wf(),
            mode == 0 || mode == 1 || mode == 3,
        ensures
            final (self).wf(),
            final (self).ram() == old(self).ram(),
            final (self).reservations() == old(self).reservations(),
            address % 2 == 0 ==> ({
                let t = spec_translate(
                    old(self).ram(),
                    csr@[crate::csr::SATP as int],
                    csr@[crate::csr::MSTATUS as int],
                    mode,
                    address,
                    AccessType::Read,
                );
                &&& (t matches Err(e) ==> r == Err::<u16, Exception>(e))
                &&& (t matches Ok(pa) ==> (ram_range(pa, 2) ==> r == Ok::<u16, Exception>(
                    spec_read_u16(old(self).ram(), pa),
                )))
            }),
            address % 2 != 0 ==> ({
                let t_lo = spec_translate(
                    old(self).ram(),
                    csr@[crate::csr::SATP as int],
                    csr@[crate::csr::MSTATUS as int],
                    mode,
                    address,
                    AccessType::Read,
                );
                let t_hi = spec_translate(
                    old(self).ram(),
                    csr@[crate::csr::SATP as int],
                    csr@[crate::csr::MSTATUS as int],
                    mode,
                    vstd::wrapping::u64_specs::wrapping_add(address, 2),
                    AccessType::Read,
                );
                &&& (t_lo matches Err(e) ==> r == Err::<u16, Exception>(e))
                &&& (t_lo matches Ok(pa_lo) ==> ((t_hi matches Err(e) ==> r == Err::<
                    u16,
                    Exception,
                >(e)) && (t_hi matches Ok(pa_hi) ==> (spec_mis_all_ram(
                    address,
                    pa_lo,
                    pa_hi,
                    2,
                ) ==> r == Ok::<u16, Exception>(spec_mis_read_u16(old(self).ram(), address, pa_lo, pa_hi))))))
            }),
    {
        if address % 2 == 0 {
            let pa = match self.translate(csr, mode, address, AccessType::Read) {
                Ok(pa) => pa,
                Err(e) => {
                    return Err(e);
                },
            };
            self.bus.read16(pa)
        } else {
            let b = self.misaligned_read(csr, mode, address, 2)?;
            Ok((b[0] as u16) | ((b[1] as u16) << 8))
        }
    }

    /// Load a word; misaligned addresses split as in `read16`.
    pub fn read32(&mut self, csr: &CsrRegistry, mode: u8, address: u64) -> (r: Result<
        u32,
        Exception,
    >)
        requires
            old(self).wf(),
            csr.wf(),
            mode == 0 || mode == 1 || mode == 3,
        ensures
            final (self).wf(),
            final (self).ram() == old(self).ram(),
            final (self).reservations() == old(self).reservations(),
            address % 4 == 0 ==> ({
                let t = spec_translate(
                    old(self).ram(),
                    csr@[crate::csr::SATP as int],
                    csr@[crate::csr::MSTATUS as int],
                    mode,
                    address,
                    AccessType::Read,
                );
                &&& (t matches Err(e) ==> r == Err::<u32, Exception>(e))
                &&& (t matches Ok(pa) ==> (ram_range(pa, 4) ==> r == Ok::<u32, Exception>(
                    crate::memory::spec_read_u32(old(self).ram(), pa),
                )))
            }),
            address % 4 != 0 ==> ({
                let t_lo = spec_translate(
                    old(self).ram(),
                    csr@[crate::csr::SATP as int],
                    csr@[crate::csr::MSTATUS as int],
                    mode,
                    address,
                    AccessType::Read,
                );
                let t_hi = spec_translate(
                    old(self).ram(),
                    csr@[crate::csr::SATP as int],
                    csr@[crate::csr::MSTATUS as int],
                    mode,
                    vstd::wrapping::u64_specs::wrapping_add(address, 4),
                    AccessType::Read,
                );
                &&& (t_lo matches Err(e) ==> r == Err::<u32, Exception>(e))
                &&& (t_lo matches Ok(pa_lo) ==> ((t_hi matches Err(e) ==> r == Err::<
                    u32,
                    Exception,
                >(e)) && (t_hi matches Ok(pa_hi) ==> (spec_mis_all_ram(
                    address,
                    pa_lo,
                    pa_hi,
                    4,
                ) ==> r == Ok::<u32, Exception>(spec_mis_read_u32(old(self).ram(), address, pa_lo, pa_hi))))))
            }),
    {
        if address % 4 == 0 {
            let pa = match self.translate(csr, mode, address, AccessType::Read) {
                Ok(pa) => pa,
                Err(e) => {
                    return Err(e);
                },
            };
            self.bus.read32(pa)
        } else {
            let b = self.misaligned_read(csr, mode, address, 4)?;
            Ok(
                (b[0] as u32) | ((b[1] as u32) << 8) | ((b[2] as u32) << 16) | ((b[3] as u32)
                    << 24),
            )
        }
    }

    /// Load a doubleword; misaligned addresses split as in `read16`.
    pub fn read64(&mut self, csr: &CsrRegistry, mode: u8, address: u64) -> (r: Result<
        u64,
        Exception,
    >)
        requires
            old(self).wf(),
            csr.wf(),
            mode == 0 || mode == 1 || mode == 3,
        ensures
            final (self).wf(),
            final (self).ram() == old(self).ram(),
            final (self).reservations() == old(self).reservations(),
            address % 8 == 0 ==> ({
                let t = spec_translate(
                    old(self).ram(),
                    csr@[crate::csr::SATP as int],
                    csr@[crate::csr::MSTATUS as int],
                    mode,
                    address,
                    AccessType::Read,
                );
                &&& (t matches Err(e) ==> r == Err::<u64, Exception>(e))
                &&& (t matches Ok(pa) ==> (ram_range(pa, 8) ==> r == Ok::<u64, Exception>(
                    spec_read_u64(old(self).ram(), pa),
                )))
            }),
            address % 8 != 0 ==> ({
                let t_lo = spec_translate(
                    old(self).ram(),
                    csr@[crate::csr::SATP as int],
                    csr@[crate::csr::MSTATUS as int],
                    mode,
                    address,
                    AccessType::Read,
                );
                let t_hi = spec_translate(
                    old(self).ram(),
                    csr@[crate::csr::SATP as int],
                    csr@[crate::csr::MSTATUS as int],
                    mode,
                    vstd::wrapping::u64_specs::wrapping_add(address, 8),
                    AccessType::Read,
                );
                &&& (t_lo matches Err(e) ==> r == Err::<u64, Exception>(e))
                &&& (t_lo matches Ok(pa_lo) ==> ((t_hi matches Err(e) ==> r == Err::<
                    u64,
                    Exception,
                >(e)) && (t_hi matches Ok(pa_hi) ==> (spec_mis_all_ram(
                    address,
                    pa_lo,
                    pa_hi,
                    8,
                ) ==> r == Ok::<u64, Exception>(spec_mis_read_u64(old(self).ram(), address, pa_lo, pa_hi))))))
            }),
    {
        if address % 8 == 0 {
            let pa = match self.translate(csr, mode, address, AccessType::Read) {
                Ok(pa) => pa,
                Err(e) => {
                    return Err(e);
                },
            };
            self.bus.read64(pa)
        } else {
            let b = self.misaligned_read(csr, mode, address, 8)?;
            Ok(
                (b[0] as u64) | ((b[1] as u64) << 8) | ((b[2] as u64) << 16) | ((b[3] as u64)
                    << 24) | ((b[4] as u64) << 32) | ((b[5] as u64) << 40) | ((b[6] as u64) << 48)
                    | ((b[7] as u64) << 56),
            )
        }
    }

    /// The misaligned-load path: translate the low and high parts
    /// separately (each may independently fault), then gather `len`
    /// bytes across the split.
    fn misaligned_read(&mut self, csr: &CsrRegistry, mode: u8, address: u64, len: u64) -> (r:
        Result<Vec<u8>, Exception>)
        requires
            old(self).wf(),
            csr.wf(),
            mode == 0 || mode == 1 || mode == 3,
            len == 2 || len == 4 || len == 8,
        ensures
            final (self).wf(),
            final (self).ram() == old(self).ram(),
            final (self).reservations() == old(self).reservations(),
            r matches Ok(b) ==> b@.len() == len,
            ({
                let t_lo = spec_translate(
                    old(self).ram(),
                    csr@[crate::csr::SATP as int],
                    csr@[crate::csr::MSTATUS as int],
                    mode,
                    address,
                    AccessType::Read,
                );
                let t_hi = spec_translate(
                    old(self).ram(),
                    csr@[crate::csr::SATP as int],
                    csr@[crate::csr::MSTATUS as int],
                    mode,
                    vstd::wrapping::u64_specs::wrapping_add(address, len),
                    AccessType::Read,
                );
                &&& (t_lo matches Err(e) ==> r == Err::<Vec<u8>, Exception>(e) && *final (self)
                    == *old(self))
                &&& (t_lo matches Ok(pa_lo) ==> ((t_hi matches Err(e) ==> r == Err::<
                    Vec<u8>,
                    Exception,
                >(e) && *final (self) == *old(self)) && (t_hi matches Ok(pa_hi) ==> (
                spec_mis_all_ram(address, pa_lo, pa_hi, len) ==> (r matches Ok(b) && b@.len() == len
                    && (forall|i: int|
                    0 <= i < len ==> b@[i] == spec_read_u8(
                        old(self).ram(),
                        #[trigger] spec_mis_byte_addr(address, pa_lo, pa_hi, len, i),
                    )))))))
            }),
    {
        let address_low = match self.translate(csr, mode, address, AccessType::Read) {
            Ok(pa) => pa,
            Err(e) => {
                return Err(e);
            },
        };
        let address_high = match self.translate(
            csr,
            mode,
            address.wrapping_add(len),
            AccessType::Read,
        ) {
            Ok(pa) => pa,
            Err(e) => {
                return Err(e);
            },
        };
        let high_len = address % len;
        let low_len = len - high_len;
        let mut bytes: Vec<u8> = Vec::new();
        let mut i: u64 = 0;
        while i < len
            invariant
                self.wf(),
                i <= len,
                bytes@.len() == i,
                self.ram() == old(self).ram(),
                self.reservations() == old(self).reservations(),
                len == 2 || len == 4 || len == 8,
                low_len == len - address % len,
                spec_translate(
                    old(self).ram(),
                    csr@[crate::csr::SATP as int],
                    csr@[crate::csr::MSTATUS as int],
                    mode,
                    address,
                    AccessType::Read,
                ) == Ok::<u64, Exception>(address_low),
                spec_translate(
                    old(self).ram(),
                    csr@[crate::csr::SATP as int],
                    csr@[crate::csr::MSTATUS as int],
                    mode,
                    vstd::wrapping::u64_specs::wrapping_add(address, len),
                    AccessType::Read,
                ) == Ok::<u64, Exception>(address_high),
                spec_mis_all_ram(address, address_low, address_high, len) ==> *self == *old(self)
                    && (forall|j: int|
                    0 <= j < i ==> bytes@[j] == spec_read_u8(
                        old(self).ram(),
                        #[trigger] spec_mis_byte_addr(address, address_low, address_high, len, j),
                    )),
            decreases len - i,
        {
            proof {
                if spec_mis_all_ram(address, address_low, address_high, len) {
                    assert(ram_range(
                        spec_mis_byte_addr(address, address_low, address_high, len, i as int),
                        1,
                    ));
                }
            }
            let b = if i < low_len {
                self.bus.read8(address_low.wrapping_add(i))?
            } else {
                self.bus.read8(address_high.wrapping_add(i).wrapping_sub(len))?
            };
            bytes.push(b);
            i = i + 1;
        }
        Ok(bytes)
    }

    /// Store one byte at a virtual address.
    pub fn write8(&mut self, csr: &CsrRegistry, mode: u8, address: u64, data: u8) -> (r: Result<
        (),
        Exception,
    >)
        requires
            old(self).wf(),
            csr.wf(),
            mode == 0 || mode == 1 || mode == 3,
        ensures
            final (self).wf(),
            ({
                let t = spec_translate(
                    old(self).ram(),
                    csr@[crate::csr::SATP as int],
                    csr@[crate::csr::MSTATUS as int],
                    mode,
                    address,
                    AccessType::Write,
                );
                &&& (t matches Err(e) ==> r == Err::<(), Exception>(e) && final (self).ram()
                    == old(self).ram())
                &&& (t matches Ok(pa) ==> (ram_range(pa, 1) ==> r == Ok::<(), Exception>(())
                    && final (self).ram() == crate::memory::spec_write_u8(
                    old(self).ram(),
                    pa,
                    data,
                ) && final (self).reservations() == Seq::<u64>::empty()))
            }),
    {
        let pa = match self.translate(csr, mode, address, AccessType::Write) {
            Ok(pa) => pa,
            Err(e) => {
                return Err(e);
            },
        };
        self.bus.write8(pa, data)
    }

    /// Store a halfword; misaligned addresses split into byte stores,
    /// each half translated on its own.
    pub fn write16(&mut self, csr: &CsrRegistry, mode: u8, address: u64, data: u16) -> (r: Result<
        (),
        Exception,
    >)
        requires
            old(self).wf(),
            csr.wf(),
            mode == 0 || mode == 1 || mode == 3,
        ensures
            final (self).wf(),
            address % 2 == 0 ==> ({
                let t = spec_translate(
                    old(self).ram(),
                    csr@[crate::csr::SATP as int],
                    csr@[crate::csr::MSTATUS as int],
                    mode,
                    address,
                    AccessType::Write,
                );
                &&& (t matches Err(e) ==> r == Err::<(), Exception>(e) && final (self).ram()
                    == old(self).ram())
                &&& (t matches Ok(pa) ==> (ram_range(pa, 2) ==> r == Ok::<(), Exception>(())
                    && final (self).ram() == crate::memory::spec_write_u16(
                    old(self).ram(),
                    pa,
                    data,
                ) && final (self).reservations() == Seq::<u64>::empty()))
            }),
            address % 2 != 0 ==> ({
                let t_lo = spec_translate(
                    old(self).ram(),
                    csr@[crate::csr::SATP as int],
                    csr@[crate::csr::MSTATUS as int],
                    mode,
                    address,
                    AccessType::Write,
                );
                let t_hi = spec_translate(
                    old(self).ram(),
                    csr@[crate::csr::SATP as int],
                    csr@[crate::csr::MSTATUS as int],
                    mode,
                    vstd::wrapping::u64_specs::wrapping_add(address, 2),
                    AccessType::Write,
                );
                &&& (t_lo matches Err(e) ==> r == Err::<(), Exception>(e) && final (self).ram()
                    == old(self).ram())
                &&& (t_lo matches Ok(pa_lo) ==> ((t_hi matches Err(e) ==> r == Err::<
                    (),
                    Exception,
                >(e) && final (self).ram() == old(self).ram()) && (t_hi matches Ok(pa_hi) ==> (
                spec_mis_all_ram(address, pa_lo, pa_hi, 2) ==> r == Ok::<(), Exception>(())
                    && final (self).ram() == spec_mis_write(
                    old(self).ram(),
                    address,
                    pa_lo,
                    pa_hi,
                    seq![(data as u8), ((data >> 8) as u8)],
                    2,
                ) && final (self).reservations() == Seq::<u64>::empty()))))
            }),
    {
        if address % 2 == 0 {
            let pa = match self.translate(csr, mode, address, AccessType::Write) {
                Ok(pa) => pa,
                Err(e) => {
                    return Err(e);
                },
            };
            self.bus.write16(pa, data)
        } else {
            #[verifier::truncate]
            let b0 = data as u8;
            #[verifier::truncate]
            let b1 = (data >> 8) as u8;
            let mut bytes: Vec<u8> = Vec::new();
            bytes.push(b0);
            bytes.push(b1);
            proof {
                assert(bytes@ =~= seq![(data as u8), ((data >> 8) as u8)]);
            }
            self.misaligned_write(csr, mode, address, bytes)
        }
    }

    /// Store a word; misaligned addresses split as in `write16`.
    pub fn write32(&mut self, csr: &CsrRegistry, mode: u8, address: u64, data: u32) -> (r: Result<
        (),
        Exception,
    >)
        requires
            old(self).wf(),
            csr.wf(),
            mode == 0 || mode == 1 || mode == 3,
        ensures
            final (self).wf(),
            address % 4 == 0 ==> ({
                let t = spec_translate(
                    old(self).ram(),
                    csr@[crate::csr::SATP as int],
                    csr@[crate::csr::MSTATUS as int],
                    mode,
                    address,
                    AccessType::Write,
                );
                &&& (t matches Err(e) ==> r == Err::<(), Exception>(e) && final (self).ram()
                    == old(self).ram())
                &&& (t matches Ok(pa) ==> (ram_range(pa, 4) ==> r == Ok::<(), Exception>(())
                    && final (self).ram() == crate::memory::spec_write_u32(
                    old(self).ram(),
                    pa,
                    data,
                ) && final (self).reservations() == Seq::<u64>::empty()))
            }),
            address % 4 != 0 ==> ({
                let t_lo = spec_translate(
                    old(self).ram(),
                    csr@[crate::csr::SATP as int],
                    csr@[crate::csr::MSTATUS as int],
                    mode,
                    address,
                    AccessType::Write,
                );
                let t_hi = spec_translate(
                    old(self).ram(),
                    csr@[crate::csr::SATP as int],
                    csr@[crate::csr::MSTATUS as int],
                    mode,
                    vstd::wrapping::u64_specs::wrapping_add(address, 4),
                    AccessType::Write,
                );
                &&& (t_lo matches Err(e) ==> r == Err::<(), Exception>(e) && final (self).ram()
                    == old(self).ram())
                &&& (t_lo matches Ok(pa_lo) ==> ((t_hi matches Err(e) ==> r == Err::<
                    (),
                    Exception,
                >(e) && final (self).ram() == old(self).ram()) && (t_hi matches Ok(pa_hi) ==> (
                spec_mis_all_ram(address, pa_lo, pa_hi, 4) ==> r == Ok::<(), Exception>(())
                    && final (self).ram() == spec_mis_write(
                    old(self).ram(),
                    address,
                    pa_lo,
                    pa_hi,
                    seq![(data as u8), ((data >> 8) as u8), ((data >> 16) as u8), ((data >> 24) as u8)],
                    4,
                ) && final (self).reservations() == Seq::<u64>::empty()))))
            }),
    {
        if address % 4 == 0 {
            let pa = match self.translate(csr, mode, address, AccessType::Write) {
                Ok(pa) => pa,
                Err(e) => {
                    return Err(e);
                },
            };
            self.bus.write32(pa, data)
        } else {
            #[verifier::truncate]
            let b0 = data as u8;
            #[verifier::truncate]
            let b1 = (data >> 8) as u8;
            #[verifier::truncate]
            let b2 = (data >> 16) as u8;
            #[verifier::truncate]
            let b3 = (data >> 24) as u8;
            let mut bytes: Vec<u8> = Vec::new();
            bytes.push(b0);
            bytes.push(b1);
            bytes.push(b2);
            bytes.push(b3);
            proof {
                assert(bytes@ =~= seq![
                    (data as u8),
                    ((data >> 8) as u8),
                    ((data >> 16) as u8),
                    ((data >> 24) as u8),
                ]);
            }
            self.misaligned_write(csr, mode, address, bytes)
        }
    }

    /// Store a doubleword; misaligned addresses split as in `write16`.
    pub fn write64(&mut self, csr: &CsrRegistry, mode: u8, address: u64, data: u64) -> (r: Result<
        (),
        Exception,
    >)
        requires
            old(self).wf(),
            csr.wf(),
            mode == 0 || mode == 1 || mode == 3,
        ensures
            final (self).wf(),
            address % 8 == 0 ==> ({
                let t = spec_translate(
                    old(self).ram(),
                    csr@[crate::csr::SATP as int],
                    csr@[crate::csr::MSTATUS as int],
                    mode,
                    address,
                    AccessType::Write,
                );
                &&& (t matches Err(e) ==> r == Err::<(), Exception>(e) && final (self).ram()
                    == old(self).ram())
                &&& (t matches Ok(pa) ==> (ram_range(pa, 8) ==> r == Ok::<(), Exception>(())
                    && final (self).ram() == crate::memory::spec_write_u64(
                    old(self).ram(),
                    pa,
                    data,
                ) && final (self).reservations() == Seq::<u64>::empty()))
            }),
            address % 8 != 0 ==> ({
                let t_lo = spec_translate(
                    old(self).ram(),
                    csr@[crate::csr::SATP as int],
                    csr@[crate::csr::MSTATUS as int],
                    mode,
                    address,
                    AccessType::Write,
                );
                let t_hi = spec_translate(
                    old(self).ram(),
                    csr@[crate::csr::SATP as int],
                    csr@[crate::csr::MSTATUS as int],
                    mode,
                    vstd::wrapping::u64_specs::wrapping_add(address, 8),
                    AccessType::Write,
                );
                &&& (t_lo matches Err(e) ==> r == Err::<(), Exception>(e) && final (self).ram()
                    == old(self).ram())
                &&& (t_lo matches Ok(pa_lo) ==> ((t_hi matches Err(e) ==> r == Err::<
                    (),
                    Exception,
                >(e) && final (self).ram() == old(self).ram()) && (t_hi matches Ok(pa_hi) ==> (
                spec_mis_all_ram(address, pa_lo, pa_hi, 8) ==> r == Ok::<(), Exception>(())
                    && final (self).ram() == spec_mis_write(
                    old(self).ram(),
                    address,
                    pa_lo,
                    pa_hi,
                    seq![(data as u8), ((data >> 8) as u8), ((data >> 16) as u8), ((data >> 24) as u8), ((data >> 32) as u8), ((data >> 40) as u8), ((data >> 48) as u8), ((data >> 56) as u8)],
                    8,
                ) && final (self).reservations() == Seq::<u64>::empty()))))
            }),
    {
        if address % 8 == 0 {
            let pa = match self.translate(csr, mode, address, AccessType::Write) {
                Ok(pa) => pa,
                Err(e) => {
                    return Err(e);
                },
            };
            self.bus.write64(pa, data)
        } else {
            let mut bytes: Vec<u8> = Vec::new();
            #[verifier::truncate]
            let b0 = data as u8;
            #[verifier::truncate]
            let b1 = (data >> 8) as u8;
            #[verifier::truncate]
            let b2 = (data >> 16) as u8;
            #[verifier::truncate]
            let b3 = (data >> 24) as u8;
            #[verifier::truncate]
            let b4 = (data >> 32) as u8;
            #[verifier::truncate]
            let b5 = (data >> 40) as u8;
            #[verifier::truncate]
            let b6 = (data >> 48) as u8;
            #[verifier::truncate]
            let b7 = (data >> 56) as u8;
            bytes.push(b0);
            bytes.push(b1);
            bytes.push(b2);
            bytes.push(b3);
            bytes.push(b4);
            bytes.push(b5);
            bytes.push(b6);
            bytes.push(b7);
            proof {
                assert(bytes@ =~= seq![
                    (data as u8),
                    ((data >> 8) as u8),
                    ((data >> 16) as u8),
                    ((data >> 24) as u8),
                    ((data >> 32) as u8),
                    ((data >> 40) as u8),
                    ((data >> 48) as u8),
                    ((data >> 56) as u8),
                ]);
            }
            self.misaligned_write(csr, mode, address, bytes)
        }
    }

    /// The misaligned-store path: translate the low and high parts
    /// separately (each may independently fault), then scatter the
    /// bytes across the split.
    fn misaligned_write(&mut self, csr: &CsrRegistry, mode: u8, address: u64, data: Vec<u8>) -> (r:
        Result<(), Exception>)
        requires
            old(self).wf(),
            csr.wf(),
            mode == 0 || mode == 1 || mode == 3,
            data@.len() == 2 || data@.len() == 4 || data@.len() == 8,
        ensures
            final (self).wf(),
            ({
                let len = data@.len() as u64;
                let t_lo = spec_translate(
                    old(self).ram(),
                    csr@[crate::csr::SATP as int],
                    csr@[crate::csr::MSTATUS as int],
                    mode,
                    address,
                    AccessType::Write,
                );
                let t_hi = spec_translate(
                    old(self).ram(),
                    csr@[crate::csr::SATP as int],
                    csr@[crate::csr::MSTATUS as int],
                    mode,
                    vstd::wrapping::u64_specs::wrapping_add(address, len),
                    AccessType::Write,
                );
                &&& (t_lo matches Err(e) ==> r == Err::<(), Exception>(e) && *final (self) == *old(
                    self,
                ))
                &&& (t_lo matches Ok(pa_lo) ==> ((t_hi matches Err(e) ==> r == Err::<
                    (),
                    Exception,
                >(e) && *final (self) == *old(self)) && (t_hi matches Ok(pa_hi) ==> (
                spec_mis_all_ram(address, pa_lo, pa_hi, len) ==> r == Ok::<(), Exception>(())
                    && final (self).ram() == spec_mis_write(
                    old(self).ram(),
                    address,
                    pa_lo,
                    pa_hi,
                    data@,
                    len as int,
                ) && final (self).reservations() == Seq::<u64>::empty()))))
            }),
    {
        let len = data.len() as u64;
        let address_low = match self.translate(csr, mode, address, AccessType::Write) {
            Ok(pa) => pa,
            Err(e) => {
                return Err(e);
            },
        };
        let address_high = match self.translate(
            csr,
            mode,
            address.wrapping_add(len),
            AccessType::Write,
        ) {
            Ok(pa) => pa,
            Err(e) => {
                return Err(e);
            },
        };
        let high_len = address % len;
        let low_len = len - high_len;
        let mut i: u64 = 0;
        while i < len
            invariant
                self.wf(),
                i <= len,
                len == data@.len(),
                low_len == len - address % len,
                spec_translate(
                    old(self).ram(),
                    csr@[crate::csr::SATP as int],
                    csr@[crate::csr::MSTATUS as int],
                    mode,
                    address,
                    AccessType::Write,
                ) == Ok::<u64, Exception>(address_low),
                spec_translate(
                    old(self).ram(),
                    csr@[crate::csr::SATP as int],
                    csr@[crate::csr::MSTATUS as int],
                    mode,
                    vstd::wrapping::u64_specs::wrapping_add(address, len),
                    AccessType::Write,
                ) == Ok::<u64, Exception>(address_high),
                spec_mis_all_ram(address, address_low, address_high, len) ==> self.ram()
                    == spec_mis_write(
                    old(self).ram(),
                    address,
                    address_low,
                    address_high,
                    data@,
                    i as int,
                ) && (i > 0 ==> self.reservations() == Seq::<u64>::empty()),
            decreases len - i,
        {
            proof {
                if spec_mis_all_ram(address, address_low, address_high, len) {
                    assert(ram_range(
                        spec_mis_byte_addr(address, address_low, address_high, len, i as int),
                        1,
                    ));
                }
            }
            let b = data[i as usize];
            if i < low_len {
                self.bus.write8(address_low.wrapping_add(i), b)?;
            } else {
                self.bus.write8(address_high.wrapping_add(i).wrapping_sub(len), b)?;
            }
            i = i + 1;
        }
        Ok(())
    }
}

impl MMU {
    /// Atomic swap of a word: performs the
    /// read-modify-write at a naturally aligned address and returns the
    /// prior value; a misaligned address faults without translating.
    pub fn atomic_swap32(&mut self, csr: &CsrRegistry, mode: u8, address: u64, val: u32) -> (r:
        Result<u32, Exception>)
        requires
            old(self).wf(),
            csr.wf(),
            mode == 0 || mode == 1 || mode == 3,
        ensures
            final (self).wf(),
            address % 4 != 0 ==> r == Err::<u32, Exception>(
                Exception::StoreAMOAddressMisaligned(address),
            ) && final (self).ram() == old(self).ram() && final (self).reservations() == old(
                self,
            ).reservations(),
            address % 4 == 0 ==> ({
                let t = spec_translate(
                    old(self).ram(),
                    csr@[crate::csr::SATP as int],
                    csr@[crate::csr::MSTATUS as int],
                    mode,
                    address,
                    AccessType::ReadWrite,
                );
                &&& (t matches Err(e) ==> r == Err::<u32, Exception>(e) && final (self).ram()
                    == old(self).ram())
                &&& (t matches Ok(pa) ==> (ram_range(pa, 4) ==> r == Ok::<u32, Exception>(
                    crate::memory::spec_read_u32(old(self).ram(), pa),
                ) && final (self).ram() == crate::memory::spec_write_u32(
                    old(self).ram(),
                    pa,
                    val,
                ) && final (self).reservations() == Seq::<u64>::empty()))
            }),
    {
        if address % 4 != 0 {
            return Err(Exception::StoreAMOAddressMisaligned(address));
        }
        let pa = match self.translate(csr, mode, address, AccessType::ReadWrite) {
            Ok(pa) => pa,
            Err(e) => {
                return Err(e);
            },
        };
        if MEMORY_START <= pa && pa <= MEMORY_END - 3 {
            Ok(self.bus.memory.atomic_swap32(pa, val))
        } else {
            let origin = self.bus.read32(pa)?;
            self.bus.write32(pa, val)?;
            Ok(origin)
        }
    }

    /// Atomic add of a word: performs the
    /// read-modify-write at a naturally aligned address and returns the
    /// prior value; a misaligned address faults without translating.
    pub fn atomic_add32(&mut self, csr: &CsrRegistry, mode: u8, address: u64, val: u32) -> (r:
        Result<u32, Exception>)
        requires
            old(self).wf(),
            csr.wf(),
            mode == 0 || mode == 1 || mode == 3,
        ensures
            final (self).wf(),
            address % 4 != 0 ==> r == Err::<u32, Exception>(
                Exception::StoreAMOAddressMisaligned(address),
            ) && final (self).ram() == old(self).ram() && final (self).reservations() == old(
                self,
            ).reservations(),
            address % 4 == 0 ==> ({
                let t = spec_translate(
                    old(self).ram(),
                    csr@[crate::csr::SATP as int],
                    csr@[crate::csr::MSTATUS as int],
                    mode,
                    address,
                    AccessType::ReadWrite,
                );
                &&& (t matches Err(e) ==> r == Err::<u32, Exception>(e) && final (self).ram()
                    == old(self).ram())
                &&& (t matches Ok(pa) ==> (ram_range(pa, 4) ==> r == Ok::<u32, Exception>(
                    crate::memory::spec_read_u32(old(self).ram(), pa),
                ) && final (self).ram() == crate::memory::spec_write_u32(
                    old(self).ram(),
                    pa,
                    vstd::wrapping::u32_specs::wrapping_add(crate::memory::spec_read_u32(old(self).ram(), pa), val),
                ) && final (self).reservations() == Seq::<u64>::empty()))
            }),
    {
        if address % 4 != 0 {
            return Err(Exception::StoreAMOAddressMisaligned(address));
        }
        let pa = match self.translate(csr, mode, address, AccessType::ReadWrite) {
            Ok(pa) => pa,
            Err(e) => {
                return Err(e);
            },
        };
        if MEMORY_START <= pa && pa <= MEMORY_END - 3 {
            Ok(self.bus.memory.atomic_add32(pa, val))
        } else {
            let origin = self.bus.read32(pa)?;
            self.bus.write32(pa, origin.wrapping_add(val))?;
            Ok(origin)
        }
    }

    /// Atomic xor of a word: performs the
    /// read-modify-write at a naturally aligned address and returns the
    /// prior value; a misaligned address faults without translating.
    pub fn atomic_xor32(&mut self, csr: &CsrRegistry, mode: u8, address: u64, val: u32) -> (r:
        Result<u32, Exception>)
        requires
            old(self).wf(),
            csr.wf(),
            mode == 0 || mode == 1 || mode == 3,
        ensures
            final (self).wf(),
            address % 4 != 0 ==> r == Err::<u32, Exception>(
                Exception::StoreAMOAddressMisaligned(address),
            ) && final (self).ram() == old(self).ram() && final (self).reservations() == old(
                self,
            ).reservations(),
            address % 4 == 0 ==> ({
                let t = spec_translate(
                    old(self).ram(),
                    csr@[crate::csr::SATP as int],
                    csr@[crate::csr::MSTATUS as int],
                    mode,
                    address,
                    AccessType::ReadWrite,
                );
                &&& (t matches Err(e) ==> r == Err::<u32, Exception>(e) && final (self).ram()
                    == old(self).ram())
                &&& (t matches Ok(pa) ==> (ram_range(pa, 4) ==> r == Ok::<u32, Exception>(
                    crate::memory::spec_read_u32(old(self).ram(), pa),
                ) && final (self).ram() == crate::memory::spec_write_u32(
                    old(self).ram(),
                    pa,
                    crate::memory::spec_read_u32(old(self).ram(), pa) ^ val,
                ) && final (self).reservations() == Seq::<u64>::empty()))
            }),
    {
        if address % 4 != 0 {
            return Err(Exception::StoreAMOAddressMisaligned(address));
        }
        let pa = match self.translate(csr, mode, address, AccessType::ReadWrite) {
            Ok(pa) => pa,
            Err(e) => {
                return Err(e);
            },
        };
        if MEMORY_START <= pa && pa <= MEMORY_END - 3 {
            Ok(self.bus.memory.atomic_xor32(pa, val))
        } else {
            let origin = self.bus.read32(pa)?;
            self.bus.write32(pa, origin ^ val)?;
            Ok(origin)
        }
    }

    /// Atomic and of a word: performs the
    /// read-modify-write at a naturally aligned address and returns the
    /// prior value; a misaligned address faults without translating.
    pub fn atomic_and32(&mut self, csr: &CsrRegistry, mode: u8, address: u64, val: u32) -> (r:
        Result<u32, Exception>)
        requires
            old(self).wf(),
            csr.wf(),
            mode == 0 || mode == 1 || mode == 3,
        ensures
            final (self).wf(),
            address % 4 != 0 ==> r == Err::<u32, Exception>(
                Exception::StoreAMOAddressMisaligned(address),
            ) && final (self).ram() == old(self).ram() && final (self).reservations() == old(
                self,
            ).reservations(),
            address % 4 == 0 ==> ({
                let t = spec_translate(
                    old(self).ram(),
                    csr@[crate::csr::SATP as int],
                    csr@[crate::csr::MSTATUS as int],
                    mode,
                    address,
                    AccessType::ReadWrite,
                );
                &&& (t matches Err(e) ==> r == Err::<u32, Exception>(e) && final (self).ram()
                    == old(self).ram())
                &&& (t matches Ok(pa) ==> (ram_range(pa, 4) ==> r == Ok::<u32, Exception>(
                    crate::memory::spec_read_u32(old(self).ram(), pa),
                ) && final (self).ram() == crate::memory::spec_write_u32(
                    old(self).ram(),
                    pa,
                    crate::memory::spec_read_u32(old(self).ram(), pa) & val,
                ) && final (self).reservations() == Seq::<u64>::empty()))
            }),
    {
        if address % 4 != 0 {
            return Err(Exception::StoreAMOAddressMisaligned(address));
        }
        let pa = match self.translate(csr, mode, address, AccessType::ReadWrite) {
            Ok(pa) => pa,
            Err(e) => {
                return Err(e);
            },
        };
        if MEMORY_START <= pa && pa <= MEMORY_END - 3 {
            Ok(self.bus.memory.atomic_and32(pa, val))
        } else {
            let origin = self.bus.read32(pa)?;
            self.bus.write32(pa, origin & val)?;
            Ok(origin)
        }
    }

    /// Atomic or of a word: performs the
    /// read-modify-write at a naturally aligned address and returns the
    /// prior value; a misaligned address faults without translating.
    pub fn atomic_or32(&mut self, csr: &CsrRegistry, mode: u8, address: u64, val: u32) -> (r:
        Result<u32, Exception>)
        requires
            old(self).wf(),
            csr.wf(),
            mode == 0 || mode == 1 || mode == 3,
        ensures
            final (self).wf(),
            address % 4 != 0 ==> r == Err::<u32, Exception>(
                Exception::StoreAMOAddressMisaligned(address),
            ) && final (self).ram() == old(self).ram() && final (self).reservations() == old(
                self,
            ).reservations(),
            address % 4 == 0 ==> ({
                let t = spec_translate(
                    old(self).ram(),
                    csr@[crate::csr::SATP as int],
                    csr@[crate::csr::MSTATUS as int],
                    mode,
                    address,
                    AccessType::ReadWrite,
                );
                &&& (t matches Err(e) ==> r == Err::<u32, Exception>(e) && final (self).ram()
                    == old(self).ram())
                &&& (t matches Ok(pa) ==> (ram_range(pa, 4) ==> r == Ok::<u32, Exception>(
                    crate::memory::spec_read_u32(old(self).ram(), pa),
                ) && final (self).ram() == crate::memory::spec_write_u32(
                    old(self).ram(),
                    pa,
                    crate::memory::spec_read_u32(old(self).ram(), pa) | val,
                ) && final (self).reservations() == Seq::<u64>::empty()))
            }),
    {
        if address % 4 != 0 {
            return Err(Exception::StoreAMOAddressMisaligned(address));
        }
        let pa = match self.translate(csr, mode, address, AccessType::ReadWrite) {
            Ok(pa) => pa,
            Err(e) => {
                return Err(e);
            },
        };
        if MEMORY_START <= pa && pa <= MEMORY_END - 3 {
            Ok(self.bus.memory.atomic_or32(pa, val))
        } else {
            let origin = self.bus.read32(pa)?;
            self.bus.write32(pa, origin | val)?;
            Ok(origin)
        }
    }

    /// Atomic min_i of a word: performs the
    /// read-modify-write at a naturally aligned address and returns the
    /// prior value; a misaligned address faults without translating.
    pub fn atomic_min_i32(&mut self, csr: &CsrRegistry, mode: u8, address: u64, val: i32) -> (r:
        Result<i32, Exception>)
        requires
            old(self).wf(),
            csr.wf(),
            mode == 0 || mode == 1 || mode == 3,
        ensures
            final (self).wf(),
            address % 4 != 0 ==> r == Err::<i32, Exception>(
                Exception::StoreAMOAddressMisaligned(address),
            ) && final (self).ram() == old(self).ram() && final (self).reservations() == old(
                self,
            ).reservations(),
            address % 4 == 0 ==> ({
                let t = spec_translate(
                    old(self).ram(),
                    csr@[crate::csr::SATP as int],
                    csr@[crate::csr::MSTATUS as int],
                    mode,
                    address,
                    AccessType::ReadWrite,
                );
                &&& (t matches Err(e) ==> r == Err::<i32, Exception>(e) && final (self).ram()
                    == old(self).ram())
                &&& (t matches Ok(pa) ==> (ram_range(pa, 4) ==> r == Ok::<i32, Exception>(
                    (crate::memory::spec_read_u32(old(self).ram(), pa) as i32),
                ) && final (self).ram() == crate::memory::spec_write_u32(
                    old(self).ram(),
                    pa,
                    (if (crate::memory::spec_read_u32(old(self).ram(), pa) as i32) < val {
                        crate::memory::spec_read_u32(old(self).ram(), pa)
                    } else {
                        val as u32
                    }),
                ) && final (self).reservations() == Seq::<u64>::empty()))
            }),
    {
        if address % 4 != 0 {
            return Err(Exception::StoreAMOAddressMisaligned(address));
        }
        let pa = match self.translate(csr, mode, address, AccessType::ReadWrite) {
            Ok(pa) => pa,
            Err(e) => {
                return Err(e);
            },
        };
        if MEMORY_START <= pa && pa <= MEMORY_END - 3 {
            Ok(self.bus.memory.atomic_min_i32(pa, val))
        } else {
            let raw = self.bus.read32(pa)?;
            #[verifier::truncate]
            let origin = raw as i32;
            let stored = (if origin < val {
                origin
            } else {
                val
            }) as u32;
            self.bus.write32(pa, stored)?;
            Ok(origin)
        }
    }

    /// Atomic max_i of a word: performs the
    /// read-modify-write at a naturally aligned address and returns the
    /// prior value; a misaligned address faults without translating.
    pub fn atomic_max_i32(&mut self, csr: &CsrRegistry, mode: u8, address: u64, val: i32) -> (r:
        Result<i32, Exception>)
        requires
            old(self).wf(),
            csr.wf(),
            mode == 0 || mode == 1 || mode == 3,
        ensures
            final (self).wf(),
            address % 4 != 0 ==> r == Err::<i32, Exception>(
                Exception::StoreAMOAddressMisaligned(address),
            ) && final (self).ram() == old(self).ram() && final (self).reservations() == old(
                self,
            ).reservations(),
            address % 4 == 0 ==> ({
                let t = spec_translate(
                    old(self).ram(),
                    csr@[crate::csr::SATP as int],
                    csr@[crate::csr::MSTATUS as int],
                    mode,
                    address,
                    AccessType::ReadWrite,
                );
                &&& (t matches Err(e) ==> r == Err::<i32, Exception>(e) && final (self).ram()
                    == old(self).ram())
                &&& (t matches Ok(pa) ==> (ram_range(pa, 4) ==> r == Ok::<i32, Exception>(
                    (crate::memory::spec_read_u32(old(self).ram(), pa) as i32),
                ) && final (self).ram() == crate::memory::spec_write_u32(
                    old(self).ram(),
                    pa,
                    (if (crate::memory::spec_read_u32(old(self).ram(), pa) as i32) > val {
                        crate::memory::spec_read_u32(old(self).ram(), pa)
                    } else {
                        val as u32
                    }),
                ) && final (self).reservations() == Seq::<u64>::empty()))
            }),
    {
        if address % 4 != 0 {
            return Err(Exception::StoreAMOAddressMisaligned(address));
        }
        let pa = match self.translate(csr, mode, address, AccessType::ReadWrite) {
            Ok(pa) => pa,
            Err(e) => {
                return Err(e);
            },
        };
        if MEMORY_START <= pa && pa <= MEMORY_END - 3 {
            Ok(self.bus.memory.atomic_max_i32(pa, val))
        } else {
            let raw = self.bus.read32(pa)?;
            #[verifier::truncate]
            let origin = raw as i32;
            let stored = (if origin > val {
                origin
            } else {
                val
            }) as u32;
            self.bus.write32(pa, stored)?;
            Ok(origin)
        }
    }

    /// Atomic min_u of a word: performs the
    /// read-modify-write at a naturally aligned address and returns the
    /// prior value; a misaligned address faults without translating.
    pub fn atomic_min_u32(&mut self, csr: &CsrRegistry, mode: u8, address: u64, val: u32) -> (r:
        Result<u32, Exception>)
        requires
            old(self).wf(),
            csr.wf(),
            mode == 0 || mode == 1 || mode == 3,
        ensures
            final (self).wf(),
            address % 4 != 0 ==> r == Err::<u32, Exception>(
                Exception::StoreAMOAddressMisaligned(address),
            ) && final (self).ram() == old(self).ram() && final (self).reservations() == old(
                self,
            ).reservations(),
            address % 4 == 0 ==> ({
                let t = spec_translate(
                    old(self).ram(),
                    csr@[crate::csr::SATP as int],
                    csr@[crate::csr::MSTATUS as int],
                    mode,
                    address,
                    AccessType::ReadWrite,
                );
                &&& (t matches Err(e) ==> r == Err::<u32, Exception>(e) && final (self).ram()
                    == old(self).ram())
                &&& (t matches Ok(pa) ==> (ram_range(pa, 4) ==> r == Ok::<u32, Exception>(
                    crate::memory::spec_read_u32(old(self).ram(), pa),
                ) && final (self).ram() == crate::memory::spec_write_u32(
                    old(self).ram(),
                    pa,
                    (if crate::memory::spec_read_u32(old(self).ram(), pa) < val {
                        crate::memory::spec_read_u32(old(self).ram(), pa)
                    } else {
                        val
                    }),
                ) && final (self).reservations() == Seq::<u64>::empty()))
            }),
    {
        if address % 4 != 0 {
            return Err(Exception::StoreAMOAddressMisaligned(address));
        }
        let pa = match self.translate(csr, mode, address, AccessType::ReadWrite) {
            Ok(pa) => pa,
            Err(e) => {
                return Err(e);
            },
        };
        if MEMORY_START <= pa && pa <= MEMORY_END - 3 {
            Ok(self.bus.memory.atomic_min_u32(pa, val))
        } else {
            let origin = self.bus.read32(pa)?;
            let stored = if origin < val {
                origin
            } else {
                val
            };
            self.bus.write32(pa, stored)?;
            Ok(origin)
        }
    }

    /// Atomic max_u of a word: performs the
    /// read-modify-write at a naturally aligned address and returns the
    /// prior value; a misaligned address faults without translating.
    pub fn atomic_max_u32(&mut self, csr: &CsrRegistry, mode: u8, address: u64, val: u32) -> (r:
        Result<u32, Exception>)
        requires
            old(self).wf(),
            csr.wf(),
            mode == 0 || mode == 1 || mode == 3,
        ensures
            final (self).wf(),
            address % 4 != 0 ==> r == Err::<u32, Exception>(
                Exception::StoreAMOAddressMisaligned(address),
            ) && final (self).ram() == old(self).ram() && final (self).reservations() == old(
                self,
            ).reservations(),
            address % 4 == 0 ==> ({
                let t = spec_translate(
                    old(self).ram(),
                    csr@[crate::csr::SATP as int],
                    csr@[crate::csr::MSTATUS as int],
                    mode,
                    address,
                    AccessType::ReadWrite,
                );
                &&& (t matches Err(e) ==> r == Err::<u32, Exception>(e) && final (self).ram()
                    == old(self).ram())
                &&& (t matches Ok(pa) ==> (ram_range(pa, 4) ==> r == Ok::<u32, Exception>(
                    crate::memory::spec_read_u32(old(self).ram(), pa),
                ) && final (self).ram() == crate::memory::spec_write_u32(
                    old(self).ram(),
                    pa,
                    (if crate::memory::spec_read_u32(old(self).ram(), pa) > val {
                        crate::memory::spec_read_u32(old(self).ram(), pa)
                    } else {
                        val
                    }),
                ) && final (self).reservations() == Seq::<u64>::empty()))
            }),
    {
        if address % 4 != 0 {
            return Err(Exception::StoreAMOAddressMisaligned(address));
        }
        let pa = match self.translate(csr, mode, address, AccessType::ReadWrite) {
            Ok(pa) => pa,
            Err(e) => {
                return Err(e);
            },
        };
        if MEMORY_START <= pa && pa <= MEMORY_END - 3 {
            Ok(self.bus.memory.atomic_max_u32(pa, val))
        } else {
            let origin = self.bus.read32(pa)?;
            let stored = if origin > val {
                origin
            } else {
                val
            };
            self.bus.write32(pa, stored)?;
            Ok(origin)
        }
    }

    /// Atomic swap of a doubleword: performs the
    /// read-modify-write at a naturally aligned address and returns the
    /// prior value; a misaligned address faults without translating.
    pub fn atomic_swap64(&mut self, csr: &CsrRegistry, mode: u8, address: u64, val: u64) -> (r:
        Result<u64, Exception>)
        requires
            old(self).wf(),
            csr.wf(),
            mode == 0 || mode == 1 || mode == 3,
        ensures
            final (self).wf(),
            address % 8 != 0 ==> r == Err::<u64, Exception>(
                Exception::StoreAMOAddressMisaligned(address),
            ) && final (self).ram() == old(self).ram() && final (self).reservations() == old(
                self,
            ).reservations(),
            address % 8 == 0 ==> ({
                let t = spec_translate(
                    old(self).ram(),
                    csr@[crate::csr::SATP as int],
                    csr@[crate::csr::MSTATUS as int],
                    mode,
                    address,
                    AccessType::ReadWrite,
                );
                &&& (t matches Err(e) ==> r == Err::<u64, Exception>(e) && final (self).ram()
                    == old(self).ram())
                &&& (t matches Ok(pa) ==> (ram_range(pa, 8) ==> r == Ok::<u64, Exception>(
                    crate::memory::spec_read_u64(old(self).ram(), pa),
                ) && final (self).ram() == crate::memory::spec_write_u64(
                    old(self).ram(),
                    pa,
                    val,
                ) && final (self).reservations() == Seq::<u64>::empty()))
            }),
    {
        if address % 8 != 0 {
            return Err(Exception::StoreAMOAddressMisaligned(address));
        }
        let pa = match self.translate(csr, mode, address, AccessType::ReadWrite) {
            Ok(pa) => pa,
            Err(e) => {
                return Err(e);
            },
        };
        if MEMORY_START <= pa && pa <= MEMORY_END - 7 {
            Ok(self.bus.memory.atomic_swap64(pa, val))
        } else {
            let origin = self.bus.read64(pa)?;
            self.bus.write64(pa, val)?;
            Ok(origin)
        }
    }

    /// Atomic add of a doubleword: performs the
    /// read-modify-write at a naturally aligned address and returns the
    /// prior value; a misaligned address faults without translating.
    pub fn atomic_add64(&mut self, csr: &CsrRegistry, mode: u8, address: u64, val: u64) -> (r:
        Result<u64, Exception>)
        requires
            old(self).wf(),
            csr.wf(),
            mode == 0 || mode == 1 || mode == 3,
        ensures
            final (self).wf(),
            address % 8 != 0 ==> r == Err::<u64, Exception>(
                Exception::StoreAMOAddressMisaligned(address),
            ) && final (self).ram() == old(self).ram() && final (self).reservations() == old(
                self,
            ).reservations(),
            address % 8 == 0 ==> ({
                let t = spec_translate(
                    old(self).ram(),
                    csr@[crate::csr::SATP as int],
                    csr@[crate::csr::MSTATUS as int],
                    mode,
                    address,
                    AccessType::ReadWrite,
                );
                &&& (t matches Err(e) ==> r == Err::<u64, Exception>(e) && final (self).ram()
                    == old(self).ram())
                &&& (t matches Ok(pa) ==> (ram_range(pa, 8) ==> r == Ok::<u64, Exception>(
                    crate::memory::spec_read_u64(old(self).ram(), pa),
                ) && final (self).ram() == crate::memory::spec_write_u64(
                    old(self).ram(),
                    pa,
                    vstd::wrapping::u64_specs::wrapping_add(crate::memory::spec_read_u64(old(self).ram(), pa), val),
                ) && final (self).reservations() == Seq::<u64>::empty()))
            }),
    {
        if address % 8 != 0 {
            return Err(Exception::StoreAMOAddressMisaligned(address));
        }
        let pa = match self.translate(csr, mode, address, AccessType::ReadWrite) {
            Ok(pa) => pa,
            Err(e) => {
                return Err(e);
            },
        };
        if MEMORY_START <= pa && pa <= MEMORY_END - 7 {
            Ok(self.bus.memory.atomic_add64(pa, val))
        } else {
            let origin = self.bus.read64(pa)?;
            self.bus.write64(pa, origin.wrapping_add(val))?;
            Ok(origin)
        }
    }

    /// Atomic xor of a doubleword: performs the
    /// read-modify-write at a naturally aligned address and returns the
    /// prior value; a misaligned address faults without translating.
    pub fn atomic_xor64(&mut self, csr: &CsrRegistry, mode: u8, address: u64, val: u64) -> (r:
        Result<u64, Exception>)
        requires
            old(self).wf(),
            csr.wf(),
            mode == 0 || mode == 1 || mode == 3,
        ensures
            final (self).wf(),
            address % 8 != 0 ==> r == Err::<u64, Exception>(
                Exception::StoreAMOAddressMisaligned(address),
            ) && final (self).ram() == old(self).ram() && final (self).reservations() == old(
                self,
            ).reservations(),
            address % 8 == 0 ==> ({
                let t = spec_translate(
                    old(self).ram(),
                    csr@[crate::csr::SATP as int],
                    csr@[crate::csr::MSTATUS as int],
                    mode,
                    address,
                    AccessType::ReadWrite,
                );
                &&& (t matches Err(e) ==> r == Err::<u64, Exception>(e) && final (self).ram()
                    == old(self).ram())
                &&& (t matches Ok(pa) ==> (ram_range(pa, 8) ==> r == Ok::<u64, Exception>(
                    crate::memory::spec_read_u64(old(self).ram(), pa),
                ) && final (self).ram() == crate::memory::spec_write_u64(
                    old(self).ram(),
                    pa,
                    crate::memory::spec_read_u64(old(self).ram(), pa) ^ val,
                ) && final (self).reservations() == Seq::<u64>::empty()))
            }),
    {
        if address % 8 != 0 {
            return Err(Exception::StoreAMOAddressMisaligned(address));
        }
        let pa = match self.translate(csr, mode, address, AccessType::ReadWrite) {
            Ok(pa) => pa,
            Err(e) => {
                return Err(e);
            },
        };
        if MEMORY_START <= pa && pa <= MEMORY_END - 7 {
            Ok(self.bus.memory.atomic_xor64(pa, val))
        } else {
            let origin = self.bus.read64(pa)?;
            self.bus.write64(pa, origin ^ val)?;
            Ok(origin)
        }
    }

    /// Atomic and of a doubleword: performs the
    /// read-modify-write at a naturally aligned address and returns the
    /// prior value; a misaligned address faults without translating.
    pub fn atomic_and64(&mut self, csr: &CsrRegistry, mode: u8, address: u64, val: u64) -> (r:
        Result<u64, Exception>)
        requires
            old(self).wf(),
            csr.wf(),
            mode == 0 || mode == 1 || mode == 3,
        ensures
            final (self).wf(),
            address % 8 != 0 ==> r == Err::<u64, Exception>(
                Exception::StoreAMOAddressMisaligned(address),
            ) && final (self).ram() == old(self).ram() && final (self).reservations() == old(
                self,
            ).reservations(),
            address % 8 == 0 ==> ({
                let t = spec_translate(
                    old(self).ram(),
                    csr@[crate::csr::SATP as int],
                    csr@[crate::csr::MSTATUS as int],
                    mode,
                    address,
                    AccessType::ReadWrite,
                );
                &&& (t matches Err(e) ==> r == Err::<u64, Exception>(e) && final (self).ram()
                    == old(self).ram())
                &&& (t matches Ok(pa) ==> (ram_range(pa, 8) ==> r == Ok::<u64, Exception>(
                    crate::memory::spec_read_u64(old(self).ram(), pa),
                ) && final (self).ram() == crate::memory::spec_write_u64(
                    old(self).ram(),
                    pa,
                    crate::memory::spec_read_u64(old(self).ram(), pa) & val,
                ) && final (self).reservations() == Seq::<u64>::empty()))
            }),
    {
        if address % 8 != 0 {
            return Err(Exception::StoreAMOAddressMisaligned(address));
        }
        let pa = match self.translate(csr, mode, address, AccessType::ReadWrite) {
            Ok(pa) => pa,
            Err(e) => {
                return Err(e);
            },
        };
        if MEMORY_START <= pa && pa <= MEMORY_END - 7 {
            Ok(self.bus.memory.atomic_and64(pa, val))
        } else {
            let origin = self.bus.read64(pa)?;
            self.bus.write64(pa, origin & val)?;
            Ok(origin)
        }
    }

    /// Atomic or of a doubleword: performs the
    /// read-modify-write at a naturally aligned address and returns the
    /// prior value; a misaligned address faults without translating.
    pub fn atomic_or64(&mut self, csr: &CsrRegistry, mode: u8, address: u64, val: u64) -> (r:
        Result<u64, Exception>)
        requires
            old(self).wf(),
            csr.wf(),
            mode == 0 || mode == 1 || mode == 3,
        ensures
            final (self).wf(),
            address % 8 != 0 ==> r == Err::<u64, Exception>(
                Exception::StoreAMOAddressMisaligned(address),
            ) && final (self).ram() == old(self).ram() && final (self).reservations() == old(
                self,
            ).reservations(),
            address % 8 == 0 ==> ({
                let t = spec_translate(
                    old(self).ram(),
                    csr@[crate::csr::SATP as int],
                    csr@[crate::csr::MSTATUS as int],
                    mode,
                    address,
                    AccessType::ReadWrite,
                );
                &&& (t matches Err(e) ==> r == Err::<u64, Exception>(e) && final (self).ram()
                    == old(self).ram())
                &&& (t matches Ok(pa) ==> (ram_range(pa, 8) ==> r == Ok::<u64, Exception>(
                    crate::memory::spec_read_u64(old(self).ram(), pa),
                ) && final (self).ram() == crate::memory::spec_write_u64(
                    old(self).ram(),
                    pa,
                    crate::memory::spec_read_u64(old(self).ram(), pa) | val,
                ) && final (self).reservations() == Seq::<u64>::empty()))
            }),
    {
        if address % 8 != 0 {
            return Err(Exception::StoreAMOAddressMisaligned(address));
        }
        let pa = match self.translate(csr, mode, address, AccessType::ReadWrite) {
            Ok(pa) => pa,
            Err(e) => {
                return Err(e);
            },
        };
        if MEMORY_START <= pa && pa <= MEMORY_END - 7 {
            Ok(self.bus.memory.atomic_or64(pa, val))
        } else {
            let origin = self.bus.read64(pa)?;
            self.bus.write64(pa, origin | val)?;
            Ok(origin)
        }
    }

    /// Atomic min_i of a doubleword: performs the
    /// read-modify-write at a naturally aligned address and returns the
    /// prior value; a misaligned address faults without translating.
    pub fn atomic_min_i64(&mut self, csr: &CsrRegistry, mode: u8, address: u64, val: i64) -> (r:
        Result<i64, Exception>)
        requires
            old(self).wf(),
            csr.wf(),
            mode == 0 || mode == 1 || mode == 3,
        ensures
            final (self).wf(),
            address % 8 != 0 ==> r == Err::<i64, Exception>(
                Exception::StoreAMOAddressMisaligned(address),
            ) && final (self).ram() == old(self).ram() && final (self).reservations() == old(
                self,
            ).reservations(),
            address % 8 == 0 ==> ({
                let t = spec_translate(
                    old(self).ram(),
                    csr@[crate::csr::SATP as int],
                    csr@[crate::csr::MSTATUS as int],
                    mode,
                    address,
                    AccessType::ReadWrite,
                );
                &&& (t matches Err(e) ==> r == Err::<i64, Exception>(e) && final (self).ram()
                    == old(self).ram())
                &&& (t matches Ok(pa) ==> (ram_range(pa, 8) ==> r == Ok::<i64, Exception>(
                    (crate::memory::spec_read_u64(old(self).ram(), pa) as i64),
                ) && final (self).ram() == crate::memory::spec_write_u64(
                    old(self).ram(),
                    pa,
                    (if (crate::memory::spec_read_u64(old(self).ram(), pa) as i64) < val {
                        crate::memory::spec_read_u64(old(self).ram(), pa)
                    } else {
                        val as u64
                    }),
                ) && final (self).reservations() == Seq::<u64>::empty()))
            }),
    {
        if address % 8 != 0 {
            return Err(Exception::StoreAMOAddressMisaligned(address));
        }
        let pa = match self.translate(csr, mode, address, AccessType::ReadWrite) {
            Ok(pa) => pa,
            Err(e) => {
                return Err(e);
            },
        };
        if MEMORY_START <= pa && pa <= MEMORY_END - 7 {
            Ok(self.bus.memory.atomic_min_i64(pa, val))
        } else {
            let raw = self.bus.read64(pa)?;
            #[verifier::truncate]
            let origin = raw as i64;
            let stored = (if origin < val {
                origin
            } else {
                val
            }) as u64;
            self.bus.write64(pa, stored)?;
            Ok(origin)
        }
    }

    /// Atomic max_i of a doubleword: performs the
    /// read-modify-write at a naturally aligned address and returns the
    /// prior value; a misaligned address faults without translating.
    pub fn atomic_max_i64(&mut self, csr: &CsrRegistry, mode: u8, address: u64, val: i64) -> (r:
        Result<i64, Exception>)
        requires
            old(self).wf(),
            csr.wf(),
            mode == 0 || mode == 1 || mode == 3,
        ensures
            final (self).wf(),
            address % 8 != 0 ==> r == Err::<i64, Exception>(
                Exception::StoreAMOAddressMisaligned(address),
            ) && final (self).ram() == old(self).ram() && final (self).reservations() == old(
                self,
            ).reservations(),
            address % 8 == 0 ==> ({
                let t = spec_translate(
                    old(self).ram(),
                    csr@[crate::csr::SATP as int],
                    csr@[crate::csr::MSTATUS as int],
                    mode,
                    address,
                    AccessType::ReadWrite,
                );
                &&& (t matches Err(e) ==> r == Err::<i64, Exception>(e) && final (self).ram()
                    == old(self).ram())
                &&& (t matches Ok(pa) ==> (ram_range(pa, 8) ==> r == Ok::<i64, Exception>(
                    (crate::memory::spec_read_u64(old(self).ram(), pa) as i64),
                ) && final (self).ram() == crate::memory::spec_write_u64(
                    old(self).ram(),
                    pa,
                    (if (crate::memory::spec_read_u64(old(self).ram(), pa) as i64) > val {
                        crate::memory::spec_read_u64(old(self).ram(), pa)
                    } else {
                        val as u64
                    }),
                ) && final (self).reservations() == Seq::<u64>::empty()))
            }),
    {
        if address % 8 != 0 {
            return Err(Exception::StoreAMOAddressMisaligned(address));
        }
        let pa = match self.translate(csr, mode, address, AccessType::ReadWrite) {
            Ok(pa) => pa,
            Err(e) => {
                return Err(e);
            },
        };
        if MEMORY_START <= pa && pa <= MEMORY_END - 7 {
            Ok(self.bus.memory.atomic_max_i64(pa, val))
        } else {
            let raw = self.bus.read64(pa)?;
            #[verifier::truncate]
            let origin = raw as i64;
            let stored = (if origin > val {
                origin
            } else {
                val
            }) as u64;
            self.bus.write64(pa, stored)?;
            Ok(origin)
        }
    }

    /// Atomic min_u of a doubleword: performs the
    /// read-modify-write at a naturally aligned address and returns the
    /// prior value; a misaligned address faults without translating.
    pub fn atomic_min_u64(&mut self, csr: &CsrRegistry, mode: u8, address: u64, val: u64) -> (r:
        Result<u64, Exception>)
        requires
            old(self).wf(),
            csr.wf(),
            mode == 0 || mode == 1 || mode == 3,
        ensures
            final (self).wf(),
            address % 8 != 0 ==> r == Err::<u64, Exception>(
                Exception::StoreAMOAddressMisaligned(address),
            ) && final (self).ram() == old(self).ram() && final (self).reservations() == old(
                self,
            ).reservations(),
            address % 8 == 0 ==> ({
                let t = spec_translate(
                    old(self).ram(),
                    csr@[crate::csr::SATP as int],
                    csr@[crate::csr::MSTATUS as int],
                    mode,
                    address,
                    AccessType::ReadWrite,
                );
                &&& (t matches Err(e) ==> r == Err::<u64, Exception>(e) && final (self).ram()
                    == old(self).ram())
                &&& (t matches Ok(pa) ==> (ram_range(pa, 8) ==> r == Ok::<u64, Exception>(
                    crate::memory::spec_read_u64(old(self).ram(), pa),
                ) && final (self).ram() == crate::memory::spec_write_u64(
                    old(self).ram(),
                    pa,
                    (if crate::memory::spec_read_u64(old(self).ram(), pa) < val {
                        crate::memory::spec_read_u64(old(self).ram(), pa)
                    } else {
                        val
                    }),
                ) && final (self).reservations() == Seq::<u64>::empty()))
            }),
    {
        if address % 8 != 0 {
            return Err(Exception::StoreAMOAddressMisaligned(address));
        }
        let pa = match self.translate(csr, mode, address, AccessType::ReadWrite) {
            Ok(pa) => pa,
            Err(e) => {
                return Err(e);
            },
        };
        if MEMORY_START <= pa && pa <= MEMORY_END - 7 {
            Ok(self.bus.memory.atomic_min_u64(pa, val))
        } else {
            let origin = self.bus.read64(pa)?;
            let stored = if origin < val {
                origin
            } else {
                val
            };
            self.bus.write64(pa, stored)?;
            Ok(origin)
        }
    }

    /// Atomic max_u of a doubleword: performs the
    /// read-modify-write at a naturally aligned address and returns the
    /// prior value; a misaligned address faults without translating.
    pub fn atomic_max_u64(&mut self, csr: &CsrRegistry, mode: u8, address: u64, val: u64) -> (r:
        Result<u64, Exception>)
        requires
            old(self).wf(),
            csr.wf(),
            mode == 0 || mode == 1 || mode == 3,
        ensures
            final (self).wf(),
            address % 8 != 0 ==> r == Err::<u64, Exception>(
                Exception::StoreAMOAddressMisaligned(address),
            ) && final (self).ram() == old(self).ram() && final (self).reservations() == old(
                self,
            ).reservations(),
            address % 8 == 0 ==> ({
                let t = spec_translate(
                    old(self).ram(),
                    csr@[crate::csr::SATP as int],
                    csr@[crate::csr::MSTATUS as int],
                    mode,
                    address,
                    AccessType::ReadWrite,
                );
                &&& (t matches Err(e) ==> r == Err::<u64, Exception>(e) && final (self).ram()
                    == old(self).ram())
                &&& (t matches Ok(pa) ==> (ram_range(pa, 8) ==> r == Ok::<u64, Exception>(
                    crate::memory::spec_read_u64(old(self).ram(), pa),
                ) && final (self).ram() == crate::memory::spec_write_u64(
                    old(self).ram(),
                    pa,
                    (if crate::memory::spec_read_u64(old(self).ram(), pa) > val {
                        crate::memory::spec_read_u64(old(self).ram(), pa)
                    } else {
                        val
                    }),
                ) && final (self).reservations() == Seq::<u64>::empty()))
            }),
    {
        if address % 8 != 0 {
            return Err(Exception::StoreAMOAddressMisaligned(address));
        }
        let pa = match self.translate(csr, mode, address, AccessType::ReadWrite) {
            Ok(pa) => pa,
            Err(e) => {
                return Err(e);
            },
        };
        if MEMORY_START <= pa && pa <= MEMORY_END - 7 {
            Ok(self.bus.memory.atomic_max_u64(pa, val))
        } else {
            let origin = self.bus.read64(pa)?;
            let stored = if origin > val {
                origin
            } else {
                val
            };
            self.bus.write64(pa, stored)?;
            Ok(origin)
        }
    }
}

/// The page fault matching an access type.
pub fn page_fault(access: AccessType, addr: u64) -> (r: Exception)
    ensures
        r == spec_page_fault(access, addr),
{
    match access {
        AccessType::Execute => Exception::InstructionPageFault(addr),
        AccessType::Read => Exception::LoadPageFault(addr),
        AccessType::Write => Exception::StoreAMOPageFault(addr),
        AccessType::ReadWrite => Exception::StoreAMOPageFault(addr),
    }
}

} // verus!
