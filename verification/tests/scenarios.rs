//! End-to-end scenarios: small programs placed in RAM and run through
//! the hart's step loop.

use rv64emu::bus::Bus;
use rv64emu::csr;
use rv64emu::hart::{Hart, Mode};
use rv64emu::mmu::MMU;

fn machine() -> (Hart, MMU) {
    let mut hart = Hart::new();
    hart.pc = 0x8000_0000;
    let mmu = MMU::new(Bus::new());
    (hart, mmu)
}

#[test]
fn addi_sequence() {
    let (mut hart, mut mmu) = machine();
    mmu.bus.memory.write32(0x8000_0000, 0x0050_0093); // ADDI x1, x0, 5
    mmu.bus.memory.write32(0x8000_0004, 0x0070_8113); // ADDI x2, x1, 7
    hart.step(&mut mmu);
    hart.step(&mut mmu);
    assert_eq!(hart.regs.get(1), 5);
    assert_eq!(hart.regs.get(2), 12);
    assert_eq!(hart.pc, 0x8000_0008);
}

#[test]
fn branch_taken() {
    let (mut hart, mut mmu) = machine();
    mmu.bus.memory.write32(0x8000_0000, 0x0010_0093); // ADDI x1, x0, 1
    mmu.bus.memory.write32(0x8000_0004, 0x0000_9463); // BNE x1, x0, +8
    mmu.bus.memory.write32(0x8000_0008, 0x0630_0113); // ADDI x2, x0, 99
    mmu.bus.memory.write32(0x8000_000C, 0x0070_0193); // ADDI x3, x0, 7
    hart.step(&mut mmu);
    hart.step(&mut mmu);
    hart.step(&mut mmu);
    assert_eq!(hart.regs.get(1), 1);
    assert_eq!(hart.regs.get(2), 0);
    assert_eq!(hart.regs.get(3), 7);
    assert_eq!(hart.pc, 0x8000_0010);
}

#[test]
fn lr_sc_success() {
    let (mut hart, mut mmu) = machine();
    mmu.bus.memory.write32(0x8000_1000, 0);
    hart.regs.set(5, 0x8000_1000);
    hart.regs.set(2, 0x42);
    mmu.bus.memory.write32(0x8000_0000, 0x1002_A0AF); // LR.W x1, (x5)
    mmu.bus.memory.write32(0x8000_0004, 0x1822_A1AF); // SC.W x3, x2, (x5)
    hart.step(&mut mmu);
    hart.step(&mut mmu);
    assert_eq!(hart.regs.get(1), 0);
    assert_eq!(hart.regs.get(3), 0);
    assert_eq!(mmu.bus.memory.read32(0x8000_1000), 0x42);
}

#[test]
fn lr_sc_fails_after_intervening_store() {
    let (mut hart, mut mmu) = machine();
    mmu.bus.memory.write32(0x8000_1000, 0);
    hart.regs.set(5, 0x8000_1000);
    hart.regs.set(2, 0x42);
    mmu.bus.memory.write32(0x8000_0000, 0x1002_A0AF); // LR.W x1, (x5)
    mmu.bus.memory.write32(0x8000_0004, 0x0022_A023); // SW x2, 0(x5)
    mmu.bus.memory.write32(0x8000_0008, 0x1822_A1AF); // SC.W x3, x2, (x5)
    hart.step(&mut mmu);
    hart.step(&mut mmu);
    hart.step(&mut mmu);
    assert_ne!(hart.regs.get(3), 0);
}

#[test]
fn sv39_user_load() {
    let (mut hart, mut mmu) = machine();
    // a leaf at the root's first entry mapping the gigapage to 0x8000_0000
    let pte: u64 = (0x80000u64 << 10) | 0xDF; // D A U X W R V
    mmu.bus.memory.write64(0x8000_2000, pte);
    mmu.bus.memory.write8(0x8000_0000, 0xAB);
    hart.csr.write_raw(csr::SATP, (8u64 << 60) | 0x80002);
    hart.mode = Mode::User;
    let got = mmu.read8(&hart.csr, 0, 0x0);
    assert_eq!(got, Ok(0xAB));
}

#[test]
fn illegal_csr_from_user_mode() {
    let (mut hart, mut mmu) = machine();
    mmu.bus.memory.write32(0x8000_0000, 0x3000_1073); // CSRRW x0, mstatus, x0
    hart.mode = Mode::User;
    hart.step(&mut mmu);
    assert_eq!(hart.csr.read_raw(csr::MCAUSE), 2);
    assert_eq!(hart.csr.read_raw(csr::MEPC), 0x8000_0000);
    assert_eq!(hart.mode, Mode::Machine);
    assert_eq!(hart.pc, hart.csr.read_raw(csr::MTVEC) & !3);
}

#[test]
fn timer_interrupt_delivery() {
    let (mut hart, mut mmu) = machine();
    mmu.bus.memory.write32(0x8000_0000, 0x0050_0093); // ADDI x1, x0, 5
    mmu.bus.aclint.mtimecmp0 = 1; // mtime starts at 0 = mtimecmp - 1
    hart.csr.write_raw(csr::MIE, 0x80); // MTIE
    hart.csr.write_raw(csr::MSTATUS, 0x8); // MIE
    hart.csr.write_raw(csr::MTVEC, 0x8000_0100);
    hart.step(&mut mmu); // execute one instruction
    mmu.bus.step(&mut hart.csr); // tick: mtime reaches mtimecmp
    hart.step(&mut mmu); // the next step delivers the interrupt
    assert_eq!(hart.csr.read_raw(csr::MCAUSE), (1u64 << 63) | 7);
    assert_eq!(hart.pc, 0x8000_0100);
    assert_eq!(hart.mode, Mode::Machine);
}

#[test]
fn wfi_then_timer_resume() {
    let (mut hart, mut mmu) = machine();
    mmu.bus.memory.write32(0x8000_0000, 0x1050_0073); // WFI
    hart.csr.write_raw(csr::MIE, 0x80);
    hart.csr.write_raw(csr::MSTATUS, 0x8);
    mmu.bus.aclint.mtimecmp0 = 1;
    hart.step(&mut mmu);
    assert!(hart.wfi);
    hart.step(&mut mmu); // still waiting, nothing pending
    assert!(hart.wfi);
    mmu.bus.step(&mut hart.csr);
    hart.step(&mut mmu); // resumes and delivers
    assert!(!hart.wfi);
    assert_eq!(hart.csr.read_raw(csr::MCAUSE), (1u64 << 63) | 7);
}

#[test]
fn compressed_and_expanded_agree() {
    // C.ADDI x1, 5 and its expansion ADDI x1, x1, 5 from equal states
    let w32 = rv64emu::cdecode::decompress(0x0095).unwrap();
    assert_eq!(w32, 0x0050_8093);
    let (mut h16, mut m16) = machine();
    let (mut h32, mut m32) = machine();
    h16.regs.set(1, 10);
    h32.regs.set(1, 10);
    m16.bus.memory.write16(0x8000_0000, 0x0095);
    m32.bus.memory.write32(0x8000_0000, w32);
    h16.step(&mut m16);
    h32.step(&mut m32);
    assert_eq!(h16.regs.get(1), 15);
    assert_eq!(h16.regs.get(1), h32.regs.get(1));
    assert_eq!(h16.pc, 0x8000_0002);
    assert_eq!(h32.pc, 0x8000_0004);
}

#[test]
fn mret_round_trip() {
    let (mut hart, mut mmu) = machine();
    // enter a trap from machine mode with MIE set, then return with MRET
    hart.csr.write_raw(csr::MSTATUS, 0x8);
    mmu.bus.memory.write32(0x8000_0000, 0x0000_0073); // ECALL
    mmu.bus.memory.write32(0x8000_0100, 0x3020_0073); // MRET at the vector
    hart.csr.write_raw(csr::MTVEC, 0x8000_0100);
    hart.step(&mut mmu);
    assert_eq!(hart.csr.read_raw(csr::MCAUSE), 11);
    assert_eq!(hart.pc, 0x8000_0100);
    hart.step(&mut mmu);
    assert_eq!(hart.pc, 0x8000_0000); // back at the trapping pc
    assert_eq!(hart.mode, Mode::Machine);
    assert_eq!(hart.csr.read_raw(csr::MSTATUS) & 0x8, 0x8); // MIE restored
}

#[test]
fn delegation_sends_user_ecall_to_supervisor() {
    let (mut hart, mut mmu) = machine();
    hart.csr.write_raw(csr::MEDELEG, 1 << 8); // delegate ecall-from-U
    hart.csr.write_raw(csr::STVEC, 0x8000_0200);
    hart.mode = Mode::User;
    mmu.bus.memory.write32(0x8000_0000, 0x0000_0073); // ECALL
    hart.step(&mut mmu);
    assert_eq!(hart.mode, Mode::Supervisor);
    assert_eq!(hart.csr.read_raw(csr::SCAUSE), 8);
    assert_eq!(hart.pc, 0x8000_0200);
}
