//! Unit tests of the library's pieces: sign extension, register
//! files, CSR masking, the reservation set, decoding, and the decode
//! table machinery.

use rv64emu::bus::Bus;
use rv64emu::cdecode::decompress;
use rv64emu::csr::{self, CsrRegistry};
use rv64emu::decode::{instructors, parse, funct3, funct37, Op};
use rv64emu::fields::{ordering, aq_of, rl_of, MemoryOrdering};
use rv64emu::hart::{Hart, Mode};
use rv64emu::memory::Memory;
use rv64emu::mmu::{MMU, SATP, VirtualAddress, PTE};
use rv64emu::register::{Registers, FRegisters};
use rv64emu::trap::{Exception, Interrupt, Trap};
use rv64emu::util::extend_sign;

#[test]
fn sign_extension() {
    assert_eq!(extend_sign(0x800, 12), -2048);
    assert_eq!(extend_sign(0x7FF, 12), 2047);
    assert_eq!(extend_sign(0xFFF, 12), -1);
    assert_eq!(extend_sign(0x20, 6), -32);
    assert_eq!(extend_sign(0x1F, 6), 31);
    assert_eq!(extend_sign(5, 12), 5);
}

#[test]
fn register_zero_reads_zero() {
    let mut regs = Registers::new();
    regs.set(0, 0xDEAD_BEEF);
    assert_eq!(regs.get(0), 0);
    regs.set(1, 7);
    assert_eq!(regs.get(1), 7);
    regs.set(0, 1);
    regs.set(0, u64::MAX);
    assert_eq!(regs.get(0), 0);
    let mut fregs = FRegisters::new();
    fregs.set(0, 5);
    assert_eq!(fregs.get(0), 5);
}

#[test]
fn csr_write_masks() {
    let mut c = CsrRegistry::new();
    c.write_raw(csr::MSTATUS, u64::MAX);
    assert_eq!(c.read_raw(csr::MSTATUS), csr::MSTATUS_MASK);
    c.write_raw(csr::MIE, u64::MAX);
    assert_eq!(c.read_raw(csr::MIE), csr::MIE_MASK);
    c.write_raw(csr::MIP, u64::MAX);
    assert_eq!(c.read_raw(csr::MIP), csr::MIP_MASK);
    c.write_raw(csr::FCSR, u64::MAX);
    assert_eq!(c.read_raw(csr::FCSR), 0xFF);
    let before = c.read_raw(csr::MISA);
    c.write_raw(csr::MISA, u64::MAX);
    assert_eq!(c.read_raw(csr::MISA), before);
}

#[test]
fn csr_aliases_project() {
    let mut c = CsrRegistry::new();
    c.write_raw(csr::SSTATUS, u64::MAX);
    assert_eq!(c.read_raw(csr::SSTATUS), csr::SSTATUS_MASK);
    c.write_raw(csr::MSTATUS, 0);
    c.write_raw(csr::FCSR, 0xA5);
    assert_eq!(c.read_raw(csr::FFLAGS), 0x05);
    assert_eq!(c.read_raw(csr::FRM), 0x5);
    c.write_raw(csr::FRM, 0x3);
    assert_eq!(c.read_raw(csr::FCSR) >> 5, 0x3);
}

#[test]
fn interrupt_bit_decoding() {
    let mut c = CsrRegistry::new();
    c.write_raw(csr::MIE, 0x0AAA);
    let mie = c.read_mie();
    assert!(mie.ss && mie.ms && mie.st && mie.mt && mie.se && mie.me);
    c.write_raw(csr::MIP, 0x0080);
    let mip = c.read_mip();
    assert!(mip.mt && !mip.ms && !mip.me && !mip.ss && !mip.st && !mip.se);
}

#[test]
fn csr_read_only_faults() {
    let mut c = CsrRegistry::new();
    assert_eq!(c.write(3, csr::MVENDORID, 1), Err(Exception::IllegalInstruction));
    assert_eq!(c.write(0, csr::MSTATUS, 1), Err(Exception::IllegalInstruction));
    assert_eq!(c.read(0, csr::MSTATUS), Err(Exception::IllegalInstruction));
    assert!(c.write(3, csr::MSTATUS, 0x8).is_ok());
}

#[test]
fn tvec_mode_write() {
    let mut c = CsrRegistry::new();
    c.write_raw(csr::MTVEC, 0x8000_0001);
    assert_eq!(c.read_raw(csr::MTVEC), 0x8000_0001);
    c.write_raw(csr::MTVEC, 0x8000_0002);
    assert_eq!(c.read_raw(csr::MTVEC), 0x8000_0000);
    c.write_raw(csr::MTVEC, 0x8000_0003);
    assert_eq!(c.read_raw(csr::MTVEC), 0x8000_0000);
}

#[test]
fn trap_codes() {
    assert_eq!(Trap::Exception(Exception::IllegalInstruction).code(), 2);
    assert_eq!(Trap::Exception(Exception::EnvironmentCallFromUMode).code(), 8);
    assert_eq!(Trap::Exception(Exception::StoreAMOPageFault(1)).code(), 15);
    assert_eq!(Trap::Interrupt(Interrupt::MachineTimer).code(), 7);
    assert_eq!(Interrupt::MachineTimer.mode(), 3);
    assert_eq!(Interrupt::SupervisorExternal.mode(), 1);
    assert_eq!(Trap::Exception(Exception::LoadPageFault(0x123)).value(), 0x123);
    assert_eq!(Trap::Exception(Exception::IllegalInstruction).value(), 0);
}

#[test]
fn memory_round_trips() {
    let mut m = Memory::new();
    m.write64(0x8000_0000, 0x0102_0304_0506_0708);
    assert_eq!(m.read64(0x8000_0000), 0x0102_0304_0506_0708);
    assert_eq!(m.read8(0x8000_0000), 0x08); // little endian
    assert_eq!(m.read16(0x8000_0006), 0x0102);
    m.write8(0x8000_0000, 0xFF);
    assert_eq!(m.read64(0x8000_0000), 0x0102_0304_0506_07FF);
}

#[test]
fn atomic_swap_round_trip() {
    let mut m = Memory::new();
    m.write32(0x8000_0010, 0x1111_1111);
    let old = m.atomic_swap32(0x8000_0010, 0x2222_2222);
    assert_eq!(old, 0x1111_1111);
    assert_eq!(m.read32(0x8000_0010), 0x2222_2222);
    let old64 = m.atomic_swap64(0x8000_0020, 0xABCD);
    assert_eq!(old64, 0);
    assert_eq!(m.read64(0x8000_0020), 0xABCD);
}

#[test]
fn atomic_arithmetic() {
    let mut m = Memory::new();
    m.write32(0x8000_0010, 10);
    assert_eq!(m.atomic_add32(0x8000_0010, 5), 10);
    assert_eq!(m.read32(0x8000_0010), 15);
    m.write32(0x8000_0010, 0xFFFF_FFFF); // -1 signed
    assert_eq!(m.atomic_min_i32(0x8000_0010, 3), -1);
    assert_eq!(m.read32(0x8000_0010), 0xFFFF_FFFF);
    assert_eq!(m.atomic_max_i32(0x8000_0010, 3), -1);
    assert_eq!(m.read32(0x8000_0010), 3);
    m.write32(0x8000_0010, 2);
    assert_eq!(m.atomic_min_u32(0x8000_0010, 7), 2);
    assert_eq!(m.read32(0x8000_0010), 2);
    assert_eq!(m.atomic_max_u32(0x8000_0010, 7), 2);
    assert_eq!(m.read32(0x8000_0010), 7);
}

#[test]
fn reservation_set() {
    let mut m = Memory::new();
    m.lock_addr(0x8000_1000);
    assert!(m.unlock_addr(0x8000_1000));
    assert!(!m.unlock_addr(0x8000_1000)); // consumed
    m.lock_addr(0x8000_1000);
    m.write8(0x8000_2000, 1); // any store invalidates
    assert!(!m.unlock_addr(0x8000_1000));
}

#[test]
fn decompress_reserved_and_known() {
    assert_eq!(decompress(0x0000), None); // all-zero is reserved
    assert_eq!(decompress(0x0095), Some(0x0050_8093)); // C.ADDI x1, 5
    assert_eq!(decompress(0x0001), Some(0x0000_0013)); // C.NOP
    assert_eq!(decompress(0x9002), Some(0x0010_0073)); // C.EBREAK
    // C.LI x5, -1: funct3 010, rd 5, imm -1
    assert_eq!(decompress(0x52FD), Some(0xFFF0_0293));
}

#[test]
fn decode_table_lookup() {
    let table = instructors();
    assert_eq!(parse(&table, 0x0050_0093), Some(Op::Addi));
    assert_eq!(parse(&table, 0x0000_0073), Some(Op::Ecall));
    assert_eq!(parse(&table, 0x0010_0073), Some(Op::Ebreak));
    assert_eq!(parse(&table, 0x3020_0073), Some(Op::Mret));
    assert_eq!(parse(&table, 0x1050_0073), Some(Op::Wfi));
    assert_eq!(parse(&table, 0x3000_1073), Some(Op::Csrrw));
    assert_eq!(parse(&table, 0x0000_00D3), Some(Op::FaddS)); // fadd.s
    assert_eq!(parse(&table, 0x0200_0053), Some(Op::FaddD));
    assert_eq!(parse(&table, 0xFFFF_FFFF), None);
    assert_eq!(parse(&table, 0x0000_0000), None);
}

#[test]
fn segment_builders() {
    let s = funct3(0b101);
    assert_eq!(s.len(), 1);
    assert_eq!(s[0].start, 12);
    assert_eq!(s[0].end, 14);
    assert_eq!(s[0].comp, 0b101);
    let s2 = funct37(0b001, 0b0100000);
    assert_eq!(s2.len(), 2);
    assert_eq!(s2[1].start, 25);
    assert_eq!(s2[1].comp, 0b0100000);
    let table = instructors();
    // the ADD entry pins funct3 and funct7
    let add = table.iter().find(|e| e.name == "ADD").unwrap();
    assert_eq!(add.mask(), 0xFE00_7000);
    assert_eq!(add.comp(), 0x0000_0000);
}

#[test]
fn aq_rl_orderings() {
    assert_eq!(ordering(false, false), MemoryOrdering::Relaxed);
    assert_eq!(ordering(true, false), MemoryOrdering::Acquire);
    assert_eq!(ordering(false, true), MemoryOrdering::Release);
    assert_eq!(ordering(true, true), MemoryOrdering::AcquireRelease);
    // AMOSWAP.W with both qualifiers set
    let inst: u32 = (0b00001 << 27) | (1 << 26) | (1 << 25) | 0x2F;
    assert!(aq_of(inst));
    assert!(rl_of(inst));
    assert_eq!(ordering(aq_of(inst), rl_of(inst)), MemoryOrdering::AcquireRelease);
}

#[test]
fn translation_field_decoding() {
    let satp = SATP::from_u64((8u64 << 60) | 0x80002);
    assert_eq!(satp.mode, 8);
    assert_eq!(satp.ppn, 0x80002);
    let va = VirtualAddress::from_u64(0x0000_003F_C020_1FFF);
    assert!(!va.invalid);
    assert_eq!(va.vpn2, 0xFF);
    assert_eq!(va.vpn1, 1);
    assert_eq!(va.vpn0, 1);
    assert_eq!(va.page_offset, 0xFFF);
    assert!(VirtualAddress::from_u64(1u64 << 39).invalid);
    assert!(!VirtualAddress::from_u64(0xFFFF_FFC0_0000_0000).invalid);
    let pte = PTE::from_u64((0x80000u64 << 10) | 0xDF);
    assert!(!pte.invalid);
    assert_eq!(pte.ppn, 0x80000);
    assert_eq!(pte.ppn2, 2);
    assert_eq!(pte.ppn1, 0);
    assert_eq!(pte.ppn0, 0);
    assert!(pte.v && pte.r && pte.w && pte.x && pte.u && pte.a && pte.d);
}

#[test]
fn division_conventions() {
    let mut hart = Hart::new();
    let mut mmu = MMU::new(Bus::new());
    hart.pc = 0x8000_0000;
    // DIV x3, x1, x2 with x2 = 0 gives all-ones
    hart.regs.set(1, 7);
    hart.regs.set(2, 0);
    mmu.bus.memory.write32(0x8000_0000, 0x0220_C1B3);
    hart.step(&mut mmu);
    assert_eq!(hart.regs.get(3), u64::MAX);
    // overflow: MIN / -1 gives the dividend back
    hart.pc = 0x8000_0000;
    hart.regs.set(1, i64::MIN as u64);
    hart.regs.set(2, u64::MAX);
    hart.step(&mut mmu);
    assert_eq!(hart.regs.get(3), i64::MIN as u64);
    // REM x3, x1, x2 with divisor zero gives the dividend
    hart.pc = 0x8000_0000;
    hart.regs.set(1, 42);
    hart.regs.set(2, 0);
    mmu.bus.memory.write32(0x8000_0000, 0x0220_E1B3);
    hart.step(&mut mmu);
    assert_eq!(hart.regs.get(3), 42);
    // plain signed division truncates toward zero
    hart.pc = 0x8000_0000;
    hart.regs.set(1, (-7i64) as u64);
    hart.regs.set(2, 2);
    mmu.bus.memory.write32(0x8000_0000, 0x0220_C1B3);
    hart.step(&mut mmu);
    assert_eq!(hart.regs.get(3), (-3i64) as u64);
}

#[test]
fn mode_encodings() {
    assert_eq!(Mode::User.as_u8(), 0);
    assert_eq!(Mode::Supervisor.as_u8(), 1);
    assert_eq!(Mode::Machine.as_u8(), 3);
    assert_eq!(Mode::from_u8(0), Mode::User);
    assert_eq!(Mode::from_u8(1), Mode::Supervisor);
    assert_eq!(Mode::from_u8(3), Mode::Machine);
}

#[test]
fn misaligned_load_splits() {
    let hart = Hart::new();
    let mut mmu = MMU::new(Bus::new());
    mmu.bus.memory.write64(0x8000_0100, 0x1122_3344_5566_7788);
    let v = mmu.read32(&hart.csr, 3, 0x8000_0101).unwrap();
    assert_eq!(v, 0x4455_6677);
    let h = mmu.read16(&hart.csr, 3, 0x8000_0103).unwrap();
    assert_eq!(h, 0x4455);
}
