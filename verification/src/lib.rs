//! A verified emulator core for a 64-bit RISC-style processor: integer,
//! multiply/divide, atomic, compressed and floating-point instruction
//! execution, a CSR file with WPRI/WARL masking, trap and interrupt
//! delivery with delegation, an SV39 memory-management unit, and a small
//! bus of memory-mapped devices (RAM, timer, interrupt controller, UART).
//!
//! Floating-point rounding and significand arithmetic are delegated to
//! the `rustc_apfloat` crate through a small set of trusted wrappers;
//! everything else is verified down to the bit level.

pub mod util;
pub mod trap;
pub mod register;
pub mod csr;
pub mod memory;
pub mod aclint;
pub mod plic;
pub mod uart;
pub mod bus;
pub mod mmu;
pub mod softfloat;
pub mod fputil;
pub mod decode;
pub mod cdecode;
pub mod fields;
pub mod hart;
pub mod inst_i;
pub mod inst_m;
pub mod inst_zicsr;
pub mod inst_sm;
pub mod inst_a;
pub mod inst_f;
pub mod inst_d;
