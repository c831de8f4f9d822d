//! Device behavior: the timer, the interrupt controller, the UART, and
//! bus dispatch.

use rv64emu::aclint::{self, Aclint};
use rv64emu::bus::Bus;
use rv64emu::csr::{self, CsrRegistry};
use rv64emu::plic::{Plic, PLIC_SOURCE_PRIORITY_START, PLIC_SOURCE_ENABLE_START,
    PLIC_THRESHOLD_CLAIM_COMPLETE_START};
use rv64emu::uart::{self, Uart};

#[test]
fn aclint_bytes_and_tick() {
    let mut a = Aclint::new();
    assert_eq!(a.write8(aclint::MTIMECMP0_START, 5), Ok(()));
    assert_eq!(a.mtimecmp0, 5);
    assert_eq!(a.read8(aclint::MTIMECMP0_START), Ok(5));
    assert_eq!(a.read8(aclint::MTIME_START), Ok(0));
    let mut c = CsrRegistry::new();
    a.step(&mut c);
    assert_eq!(a.mtime, 1);
    assert_eq!(c.read_raw(csr::MIP) & 0x80, 0); // below the compare
    a.mtime = 4;
    a.step(&mut c);
    assert_eq!(c.read_raw(csr::MIP) & 0x80, 0x80); // reached it
}

#[test]
fn aclint_msip_forwarding() {
    let mut a = Aclint::new();
    assert_eq!(a.write8(aclint::MSIP0_START, 1), Ok(()));
    let mut c = CsrRegistry::new();
    a.step(&mut c);
    assert_eq!(c.read_raw(csr::MIP) & 0x8, 0x8);
    assert_eq!(a.write8(aclint::MSIP0_START, 0), Ok(()));
    a.step(&mut c);
    assert_eq!(c.read_raw(csr::MIP) & 0x8, 0);
}

#[test]
fn plic_claim_complete() {
    let mut p = Plic::new();
    // give source 10 a priority and enable it for context 0
    assert_eq!(p.write32(PLIC_SOURCE_PRIORITY_START + 4 * 9, 7), Ok(()));
    assert_eq!(p.write32(PLIC_SOURCE_ENABLE_START, 1 << 10), Ok(()));
    p.irq(10, true);
    assert_eq!(p.highest_irq(0), 10);
    // claiming returns the source and masks it until completion
    let claimed = p.read32(PLIC_THRESHOLD_CLAIM_COMPLETE_START + 4).unwrap();
    assert_eq!(claimed, 10);
    assert_eq!(p.highest_irq(0), 0);
    assert_eq!(p.write32(PLIC_THRESHOLD_CLAIM_COMPLETE_START + 4, 10), Ok(()));
    p.irq(10, true);
    assert_eq!(p.highest_irq(0), 10);
}

#[test]
fn plic_threshold_gates() {
    let mut p = Plic::new();
    assert_eq!(p.write32(PLIC_SOURCE_PRIORITY_START + 4 * 9, 3), Ok(()));
    assert_eq!(p.write32(PLIC_SOURCE_ENABLE_START, 1 << 10), Ok(()));
    p.irq(10, true);
    assert_eq!(p.write32(PLIC_THRESHOLD_CLAIM_COMPLETE_START, 5), Ok(()));
    assert_eq!(p.highest_irq(0), 0); // priority 3 below threshold 5
    assert_eq!(p.write32(PLIC_THRESHOLD_CLAIM_COMPLETE_START, 2), Ok(()));
    assert_eq!(p.highest_irq(0), 10);
}

#[test]
fn plic_priority_order() {
    let mut p = Plic::new();
    assert_eq!(p.write32(PLIC_SOURCE_PRIORITY_START + 4 * 4, 2), Ok(()));
    assert_eq!(p.write32(PLIC_SOURCE_PRIORITY_START + 4 * 19, 9), Ok(()));
    assert_eq!(p.write32(PLIC_SOURCE_ENABLE_START, (1 << 5) | (1 << 20)), Ok(()));
    p.irq(5, true);
    p.irq(20, true);
    assert_eq!(p.highest_irq(0), 20); // higher priority wins
}

#[test]
fn uart_transmit_and_receive() {
    let mut u = Uart::new();
    assert_eq!(u.write8(uart::UART_RBR_THR_DLL, b'h'), Ok(()));
    assert_eq!(u.write8(uart::UART_RBR_THR_DLL, b'i'), Ok(()));
    assert_eq!(u.pop_output(), Some(b'h'));
    assert_eq!(u.pop_output(), Some(b'i'));
    assert_eq!(u.pop_output(), None);
    u.push_input(b'x');
    assert_eq!(u.read8(uart::UART_RBR_THR_DLL), Ok(b'x'));
    assert_eq!(u.read8(uart::UART_RBR_THR_DLL), Ok(0)); // drained
}

#[test]
fn uart_divisor_latch() {
    let mut u = Uart::new();
    assert_eq!(u.write8(uart::UART_LCR, 0x80), Ok(())); // DLAB on
    assert_eq!(u.write8(uart::UART_RBR_THR_DLL, 0x34), Ok(()));
    assert_eq!(u.read8(uart::UART_RBR_THR_DLL), Ok(0x34)); // DLL, not data
    assert_eq!(u.write8(uart::UART_LCR, 0), Ok(()));
    assert_eq!(u.pop_output(), None); // nothing was transmitted
}

#[test]
fn uart_interrupt_drives_plic() {
    let mut u = Uart::new();
    let mut p = Plic::new();
    assert_eq!(u.write8(uart::UART_IER_DLM, 0x01), Ok(())); // receive interrupt
    u.push_input(b'a');
    u.step(&mut p);
    // the UART source is pending in the controller now
    assert_eq!(p.pending[(uart::UART_INTERRUPT_ID / 32) as usize]
        & (1 << (uart::UART_INTERRUPT_ID % 32)), 1 << uart::UART_INTERRUPT_ID);
}

#[test]
fn bus_dispatch_and_faults() {
    let mut b = Bus::new();
    assert_eq!(b.write32(0x8000_0000, 0x1234_5678), Ok(()));
    assert_eq!(b.read32(0x8000_0000), Ok(0x1234_5678));
    assert!(b.read8(0x0000_0000).is_err()); // unmapped
    assert!(b.write8(0x0000_0000, 1).is_err());
    assert!(b.read8(aclint::MTIME_START).is_ok());
    assert_eq!(b.write8(uart::UART_RBR_THR_DLL, b'z'), Ok(()));
    assert_eq!(b.uart.pop_output(), Some(b'z'));
}
