//! The hart: its architectural state and the fetch-decode-execute-trap
//! step loop.

use vstd::prelude::*;
use crate::csr::CsrRegistry;
use crate::trap::{Trap, Interrupt, Exception};
use crate::decode::{Instructor, Op};
use crate::register::{Registers, FRegisters};

verus! {

/// The privilege modes.
#[derive(Debug, Clone, Copy, PartialEq, Eq, Structural)]
pub enum Mode {
    User,
    Supervisor,
    Machine,
}

/// The architectural encoding of a mode: user 0, supervisor 1,
/// machine 3.
pub open spec fn spec_mode_encoding(m: Mode) -> u8 {
    match m {
        Mode::User => 0,
        Mode::Supervisor => 1,
        Mode::Machine => 3,
    }
}

impl Mode {
    /// This mode's architectural encoding.
    pub fn as_u8(&self) -> (r: u8)
        ensures
            r == spec_mode_encoding(*self),
            r == 0 || r == 1 || r == 3,
    {
        match self {
            Mode::User => 0,
            Mode::Supervisor => 1,
            Mode::Machine => 3,
        }
    }

    /// The mode an architectural encoding names.
    pub fn from_u8(num: u8) -> (r: Mode)
        requires
            num == 0 || num == 1 || num == 3,
        ensures
            spec_mode_encoding(r) == num,
    {
        if num == 0 {
            Mode::User
        } else if num == 1 {
            Mode::Supervisor
        } else {
            Mode::Machine
        }
    }
}

/// One hardware thread: the integer and floating-point register files,
/// the program counter, the CSR file, the privilege mode, the
/// waiting-for-interrupt flag, and the decode table.
pub struct Hart {
    pub regs: Registers,
    pub fregs: FRegisters,
    pub pc: u64,
    pub csr: CsrRegistry,
    pub mode: Mode,
    pub wfi: bool,
    pub table: Vec<Instructor>,
}

/// A register file after a write: slot 0 is never overwritten.
pub open spec fn spec_set_reg(s: Seq<u64>, rd: int, v: u64) -> Seq<u64> {
    if rd == 0 {
        s
    } else {
        s.update(rd, v)
    }
}

/// Nothing but the integer register file differs between the two
/// states.
pub open spec fn only_regs_changed(h1: &Hart, h2: &Hart) -> bool {
    &&& h2.pc == h1.pc
    &&& h2.fregs@ == h1.fregs@
    &&& h2.csr@ == h1.csr@
    &&& h2.mode == h1.mode
    &&& h2.wfi == h1.wfi
    &&& h2.table == h1.table
}

/// Nothing but the integer register file and the program counter
/// differ between the two states.
pub open spec fn only_regs_pc_changed(h1: &Hart, h2: &Hart) -> bool {
    &&& h2.fregs@ == h1.fregs@
    &&& h2.csr@ == h1.csr@
    &&& h2.mode == h1.mode
    &&& h2.wfi == h1.wfi
    &&& h2.table == h1.table
}

/// Nothing but the floating-point registers and the CSR file (FCSR and
/// the FS field) differ between the two states.
pub open spec fn only_fp_changed(h1: &Hart, h2: &Hart) -> bool {
    &&& h2.pc == h1.pc
    &&& h2.regs@ == h1.regs@
    &&& h2.mode == h1.mode
    &&& h2.wfi == h1.wfi
    &&& h2.table == h1.table
}

impl Hart {
    /// Well-formed: the register files and the CSR file have their
    /// architectural sizes.
    pub open spec fn wf(&self) -> bool {
        &&& self.regs.wf()
        &&& self.fregs.wf()
        &&& self.csr.wf()
    }

    /// A fresh hart: machine mode, zeroed state, the decode table
    /// built once.
    pub fn new() -> (r: Hart)
        ensures
            r.wf(),
            r.pc == 0,
            r.mode == Mode::Machine,
            !r.wfi,
            r.regs@ == Seq::new(32, |i: int| 0u64),
            r.csr@ == Seq::new(4096, |i: int| 0u64),
            crate::decode::spec_decode_table_ok(r.table@),
    {
        Hart {
            regs: Registers::new(),
            fregs: FRegisters::new(),
            pc: 0,
            csr: CsrRegistry::new(),
            mode: Mode::Machine,
            wfi: false,
            table: crate::decode::instructors(),
        }
    }
}


/// The privilege a trap targets: machine-mode traps stay in machine
/// mode, and otherwise bit `code` of the delegation register sends the
/// trap to supervisor mode.
pub open spec fn spec_trap_target(mode: Mode, deleg: u64, code: u64) -> u8 {
    if mode == Mode::Machine {
        3
    } else if (deleg >> code) & 1 == 1 {
        1
    } else {
        3
    }
}

/// The trap-vector target: direct vectors are taken as they are, and
/// a vectored base applies only to interrupts.
pub open spec fn spec_trap_vector(tvec: u64, is_interrupt: bool, code: u64) -> u64 {
    if tvec & 3 == 1 && is_interrupt {
        vstd::wrapping::u64_specs::wrapping_add(tvec & !3u64, (4 * code) as u64)
    } else {
        tvec & !3u64
    }
}

/// The whole effect of delivering a trap: the new CSR file contents,
/// the new privilege encoding, and the new program counter.
pub open spec fn spec_handle_trap(csr: Seq<u64>, mode: Mode, pc: u64, trap: Trap) -> (
    Seq<u64>,
    u8,
    u64,
) {
    let code = crate::trap::spec_trap_code(trap);
    let is_int = trap matches Trap::Interrupt(_);
    let deleg = if is_int {
        csr[crate::csr::MIDELEG as int]
    } else {
        csr[crate::csr::MEDELEG as int]
    };
    let target = spec_trap_target(mode, deleg, code);
    let cause = if is_int {
        code | 0x8000_0000_0000_0000u64
    } else {
        code
    };
    let tval = crate::trap::spec_trap_value(trap);
    if target == 3 {
        let stacked = crate::csr::spec_trap_into_machine(csr, spec_mode_encoding(mode));
        let written = stacked.update(crate::csr::MEPC as int, pc & !1u64).update(
            crate::csr::MCAUSE as int,
            cause,
        ).update(crate::csr::MTVAL as int, tval);
        (written, 3, spec_trap_vector(csr[crate::csr::MTVEC as int], is_int, code))
    } else {
        let stacked = crate::csr::spec_trap_into_supervisor(csr, spec_mode_encoding(mode));
        let written = stacked.update(crate::csr::SEPC as int, pc & !1u64).update(
            crate::csr::SCAUSE as int,
            cause,
        ).update(crate::csr::STVAL as int, tval);
        (written, 1, spec_trap_vector(csr[crate::csr::STVEC as int], is_int, code))
    }
}

/// The highest-priority pending-and-enabled interrupt, if any, in the
/// architectural order from machine-external down to supervisor-timer.
/// A class targeting a higher privilege is always deliverable; one
/// targeting the current privilege needs its global enable bit.
pub open spec fn spec_pending_interrupt(mie: u64, mip: u64, mstatus: u64, mode: Mode) -> Option<
    Interrupt,
> {
    let menc = spec_mode_encoding(mode);
    let m_ok = 3 > menc || ((mstatus >> 3) & 1 == 1);
    let s_ok = 1 > menc || (menc == 1 && (mstatus >> 1) & 1 == 1);
    if (mie >> 11) & 1 == 1 && (mip >> 11) & 1 == 1 && m_ok {
        Some(Interrupt::MachineExternal)
    } else if (mie >> 3) & 1 == 1 && (mip >> 3) & 1 == 1 && m_ok {
        Some(Interrupt::MachineSoftware)
    } else if (mie >> 7) & 1 == 1 && (mip >> 7) & 1 == 1 && m_ok {
        Some(Interrupt::MachineTimer)
    } else if (mie >> 9) & 1 == 1 && (mip >> 9) & 1 == 1 && s_ok {
        Some(Interrupt::SupervisorExternal)
    } else if (mie >> 1) & 1 == 1 && (mip >> 1) & 1 == 1 && s_ok {
        Some(Interrupt::SupervisorSoftware)
    } else if (mie >> 5) & 1 == 1 && (mip >> 5) & 1 == 1 && s_ok {
        Some(Interrupt::SupervisorTimer)
    } else {
        None
    }
}

/// The 32-bit word a fetched instruction carries: a full-width word as
/// it is, a compressed one through the decompressor.
pub open spec fn decoded_word(f: crate::mmu::InstructionWithType) -> Option<u32> {
    match f {
        crate::mmu::InstructionWithType::L32(w) => Some(w),
        crate::mmu::InstructionWithType::L16(h) => crate::cdecode::spec_decompress(h),
    }
}

/// A hart and memory seen as plain values: what one instruction's
/// effect is stated over.
pub ghost struct HartView {
    pub regs: Seq<u64>,
    pub fregs: Seq<u64>,
    pub pc: u64,
    pub csr: Seq<u64>,
    pub mode: Mode,
    pub wfi: bool,
}

pub open spec fn hart_view(h: Hart) -> HartView {
    HartView { regs: h.regs@, fregs: h.fregs@, pc: h.pc, csr: h.csr@, mode: h.mode, wfi: h.wfi }
}

/// Nothing but the integer registers differs.
pub open spec fn view_only_regs_changed(a: HartView, b: HartView) -> bool {
    b.pc == a.pc && b.fregs == a.fregs && b.csr == a.csr && b.mode == a.mode && b.wfi == a.wfi
}

/// Nothing but the integer registers and the pc differs.
pub open spec fn view_only_regs_pc_changed(a: HartView, b: HartView) -> bool {
    b.fregs == a.fregs && b.csr == a.csr && b.mode == a.mode && b.wfi == a.wfi
}

/// Nothing but the floating-point registers and the CSR file differs.
pub open spec fn view_only_fp_changed(a: HartView, b: HartView) -> bool {
    b.pc == a.pc && b.regs == a.regs && b.mode == a.mode && b.wfi == a.wfi
}

/// The effect of dispatching one decoded instruction: for each
/// operation, exactly the clauses its handler guarantees, restated
/// over the before and after views of the hart and of RAM and the
/// reservation set. `execute` establishes this for every operation.
pub open spec fn spec_execute_post(
    op: Op,
    inst: u32,
    len: u64,
    h0: HartView,
    ram0: Seq<u8>,
    rsv0: Seq<u64>,
    r: Result<(), Exception>,
    h1: HartView,
    ram1: Seq<u8>,
    rsv1: Seq<u64>,
) -> bool {
    match op {
        Op::Lui => {
            &&& (view_only_regs_changed(h0, h1))
            &&& (r == Ok::<(), Exception>(()))
            &&& (h1.regs == spec_set_reg(
            h0.regs,
            crate::fields::spec_rd(inst),
            crate::fields::spec_imm_u(inst),
        ))
        },
        Op::Auipc => {
            &&& (view_only_regs_changed(h0, h1))
            &&& (r == Ok::<(), Exception>(()))
            &&& (h1.regs == spec_set_reg(
            h0.regs,
            crate::fields::spec_rd(inst),
            vstd::wrapping::u64_specs::wrapping_add(h0.pc, crate::fields::spec_imm_u(inst)),
        ))
        },
        Op::Addi => {
            &&& (view_only_regs_changed(h0, h1))
            &&& (r == Ok::<(), Exception>(()))
            &&& (h1.regs == spec_set_reg(
            h0.regs,
            crate::fields::spec_rd(inst),
            vstd::wrapping::u64_specs::wrapping_add(h0.regs[crate::fields::spec_rs1(inst)], crate::fields::spec_imm_i(inst)),
        ))
        },
        Op::Slti => {
            &&& (view_only_regs_changed(h0, h1))
            &&& (r == Ok::<(), Exception>(()))
            &&& (h1.regs == spec_set_reg(
            h0.regs,
            crate::fields::spec_rd(inst),
            (if (h0.regs[crate::fields::spec_rs1(inst)] as i64) < (crate::fields::spec_imm_i(inst) as i64) {
                1u64
            } else {
                0u64
            }),
        ))
        },
        Op::Sltiu => {
            &&& (view_only_regs_changed(h0, h1))
            &&& (r == Ok::<(), Exception>(()))
            &&& (h1.regs == spec_set_reg(
            h0.regs,
            crate::fields::spec_rd(inst),
            (if h0.regs[crate::fields::spec_rs1(inst)] < crate::fields::spec_imm_i(inst) {
                1u64
            } else {
                0u64
            }),
        ))
        },
        Op::Xori => {
            &&& (view_only_regs_changed(h0, h1))
            &&& (r == Ok::<(), Exception>(()))
            &&& (h1.regs == spec_set_reg(
            h0.regs,
            crate::fields::spec_rd(inst),
            h0.regs[crate::fields::spec_rs1(inst)] ^ crate::fields::spec_imm_i(inst),
        ))
        },
        Op::Ori => {
            &&& (view_only_regs_changed(h0, h1))
            &&& (r == Ok::<(), Exception>(()))
            &&& (h1.regs == spec_set_reg(
            h0.regs,
            crate::fields::spec_rd(inst),
            h0.regs[crate::fields::spec_rs1(inst)] | crate::fields::spec_imm_i(inst),
        ))
        },
        Op::Andi => {
            &&& (view_only_regs_changed(h0, h1))
            &&& (r == Ok::<(), Exception>(()))
            &&& (h1.regs == spec_set_reg(
            h0.regs,
            crate::fields::spec_rd(inst),
            h0.regs[crate::fields::spec_rs1(inst)] & crate::fields::spec_imm_i(inst),
        ))
        },
        Op::Slli => {
            &&& (view_only_regs_changed(h0, h1))
            &&& (r == Ok::<(), Exception>(()))
            &&& (h1.regs == spec_set_reg(
            h0.regs,
            crate::fields::spec_rd(inst),
            h0.regs[crate::fields::spec_rs1(inst)] << (((inst >> 20) & 0x3F) as u64),
        ))
        },
        Op::Srli => {
            &&& (view_only_regs_changed(h0, h1))
            &&& (r == Ok::<(), Exception>(()))
            &&& (h1.regs == spec_set_reg(
            h0.regs,
            crate::fields::spec_rd(inst),
            h0.regs[crate::fields::spec_rs1(inst)] >> (((inst >> 20) & 0x3F) as u64),
        ))
        },
        Op::Srai => {
            &&& (view_only_regs_changed(h0, h1))
            &&& (r == Ok::<(), Exception>(()))
            &&& (h1.regs == spec_set_reg(
            h0.regs,
            crate::fields::spec_rd(inst),
            (((h0.regs[crate::fields::spec_rs1(inst)] as i64) >> (((inst >> 20) & 0x3F) as u64)) as u64),
        ))
        },
        Op::Add => {
            &&& (view_only_regs_changed(h0, h1))
            &&& (r == Ok::<(), Exception>(()))
            &&& (h1.regs == spec_set_reg(
            h0.regs,
            crate::fields::spec_rd(inst),
            vstd::wrapping::u64_specs::wrapping_add(h0.regs[crate::fields::spec_rs1(inst)], h0.regs[crate::fields::spec_rs2(inst)]),
        ))
        },
        Op::Sub => {
            &&& (view_only_regs_changed(h0, h1))
            &&& (r == Ok::<(), Exception>(()))
            &&& (h1.regs == spec_set_reg(
            h0.regs,
            crate::fields::spec_rd(inst),
            vstd::wrapping::u64_specs::wrapping_sub(h0.regs[crate::fields::spec_rs1(inst)], h0.regs[crate::fields::spec_rs2(inst)]),
        ))
        },
        Op::Sll => {
            &&& (view_only_regs_changed(h0, h1))
            &&& (r == Ok::<(), Exception>(()))
            &&& (h1.regs == spec_set_reg(
            h0.regs,
            crate::fields::spec_rd(inst),
            h0.regs[crate::fields::spec_rs1(inst)] << (h0.regs[crate::fields::spec_rs2(inst)] & 0x3F),
        ))
        },
        Op::Slt => {
            &&& (view_only_regs_changed(h0, h1))
            &&& (r == Ok::<(), Exception>(()))
            &&& (h1.regs == spec_set_reg(
            h0.regs,
            crate::fields::spec_rd(inst),
            (if (h0.regs[crate::fields::spec_rs1(inst)] as i64) < (h0.regs[crate::fields::spec_rs2(inst)] as i64) {
                1u64
            } else {
                0u64
            }),
        ))
        },
        Op::Sltu => {
            &&& (view_only_regs_changed(h0, h1))
            &&& (r == Ok::<(), Exception>(()))
            &&& (h1.regs == spec_set_reg(
            h0.regs,
            crate::fields::spec_rd(inst),
            (if h0.regs[crate::fields::spec_rs1(inst)] < h0.regs[crate::fields::spec_rs2(inst)] {
                1u64
            } else {
                0u64
            }),
        ))
        },
        Op::Xor => {
            &&& (view_only_regs_changed(h0, h1))
            &&& (r == Ok::<(), Exception>(()))
            &&& (h1.regs == spec_set_reg(
            h0.regs,
            crate::fields::spec_rd(inst),
            h0.regs[crate::fields::spec_rs1(inst)] ^ h0.regs[crate::fields::spec_rs2(inst)],
        ))
        },
        Op::Srl => {
            &&& (view_only_regs_changed(h0, h1))
            &&& (r == Ok::<(), Exception>(()))
            &&& (h1.regs == spec_set_reg(
            h0.regs,
            crate::fields::spec_rd(inst),
            h0.regs[crate::fields::spec_rs1(inst)] >> (h0.regs[crate::fields::spec_rs2(inst)] & 0x3F),
        ))
        },
        Op::Sra => {
            &&& (view_only_regs_changed(h0, h1))
            &&& (r == Ok::<(), Exception>(()))
            &&& (h1.regs == spec_set_reg(
            h0.regs,
            crate::fields::spec_rd(inst),
            (((h0.regs[crate::fields::spec_rs1(inst)] as i64) >> (h0.regs[crate::fields::spec_rs2(inst)] & 0x3F)) as u64),
        ))
        },
        Op::Or => {
            &&& (view_only_regs_changed(h0, h1))
            &&& (r == Ok::<(), Exception>(()))
            &&& (h1.regs == spec_set_reg(
            h0.regs,
            crate::fields::spec_rd(inst),
            h0.regs[crate::fields::spec_rs1(inst)] | h0.regs[crate::fields::spec_rs2(inst)],
        ))
        },
        Op::And => {
            &&& (view_only_regs_changed(h0, h1))
            &&& (r == Ok::<(), Exception>(()))
            &&& (h1.regs == spec_set_reg(
            h0.regs,
            crate::fields::spec_rd(inst),
            h0.regs[crate::fields::spec_rs1(inst)] & h0.regs[crate::fields::spec_rs2(inst)],
        ))
        },
        Op::Addiw => {
            &&& (view_only_regs_changed(h0, h1))
            &&& (r == Ok::<(), Exception>(()))
            &&& (h1.regs == spec_set_reg(
            h0.regs,
            crate::fields::spec_rd(inst),
            ((vstd::wrapping::i32_specs::wrapping_add(h0.regs[crate::fields::spec_rs1(inst)] as u32 as i32, crate::fields::spec_imm_i(inst) as i32)) as i64 as u64),
        ))
        },
        Op::Slliw => {
            &&& (view_only_regs_changed(h0, h1))
            &&& (r == Ok::<(), Exception>(()))
            &&& (h1.regs == spec_set_reg(
            h0.regs,
            crate::fields::spec_rd(inst),
            ((((h0.regs[crate::fields::spec_rs1(inst)] as u32) << (((inst >> 20) & 0x1F) as u32)) as i32) as i64 as u64),
        ))
        },
        Op::Srliw => {
            &&& (view_only_regs_changed(h0, h1))
            &&& (r == Ok::<(), Exception>(()))
            &&& (h1.regs == spec_set_reg(
            h0.regs,
            crate::fields::spec_rd(inst),
            ((((h0.regs[crate::fields::spec_rs1(inst)] as u32) >> (((inst >> 20) & 0x1F) as u32)) as i32) as i64 as u64),
        ))
        },
        Op::Sraiw => {
            &&& (view_only_regs_changed(h0, h1))
            &&& (r == Ok::<(), Exception>(()))
            &&& (h1.regs == spec_set_reg(
            h0.regs,
            crate::fields::spec_rd(inst),
            ((((h0.regs[crate::fields::spec_rs1(inst)] as u32 as i32) >> (((inst >> 20) & 0x1F) as u32)) as i64) as u64),
        ))
        },
        Op::Addw => {
            &&& (view_only_regs_changed(h0, h1))
            &&& (r == Ok::<(), Exception>(()))
            &&& (h1.regs == spec_set_reg(
            h0.regs,
            crate::fields::spec_rd(inst),
            ((vstd::wrapping::i32_specs::wrapping_add(h0.regs[crate::fields::spec_rs1(inst)] as u32 as i32, h0.regs[crate::fields::spec_rs2(inst)] as u32 as i32)) as i64 as u64),
        ))
        },
        Op::Subw => {
            &&& (view_only_regs_changed(h0, h1))
            &&& (r == Ok::<(), Exception>(()))
            &&& (h1.regs == spec_set_reg(
            h0.regs,
            crate::fields::spec_rd(inst),
            ((vstd::wrapping::i32_specs::wrapping_sub(h0.regs[crate::fields::spec_rs1(inst)] as u32 as i32, h0.regs[crate::fields::spec_rs2(inst)] as u32 as i32)) as i64 as u64),
        ))
        },
        Op::Sllw => {
            &&& (view_only_regs_changed(h0, h1))
            &&& (r == Ok::<(), Exception>(()))
            &&& (h1.regs == spec_set_reg(
            h0.regs,
            crate::fields::spec_rd(inst),
            ((((h0.regs[crate::fields::spec_rs1(inst)] as u32) << ((h0.regs[crate::fields::spec_rs2(inst)] & 0x1F) as u32)) as i32) as i64 as u64),
        ))
        },
        Op::Srlw => {
            &&& (view_only_regs_changed(h0, h1))
            &&& (r == Ok::<(), Exception>(()))
            &&& (h1.regs == spec_set_reg(
            h0.regs,
            crate::fields::spec_rd(inst),
            ((((h0.regs[crate::fields::spec_rs1(inst)] as u32) >> ((h0.regs[crate::fields::spec_rs2(inst)] & 0x1F) as u32)) as i32) as i64 as u64),
        ))
        },
        Op::Sraw => {
            &&& (view_only_regs_changed(h0, h1))
            &&& (r == Ok::<(), Exception>(()))
            &&& (h1.regs == spec_set_reg(
            h0.regs,
            crate::fields::spec_rd(inst),
            ((((h0.regs[crate::fields::spec_rs1(inst)] as u32 as i32) >> ((h0.regs[crate::fields::spec_rs2(inst)] & 0x1F) as u32)) as i64) as u64),
        ))
        },
        Op::Jal => {
            &&& (view_only_regs_pc_changed(h0, h1))
            &&& (r == Ok::<(), Exception>(()))
            &&& (h1.regs == spec_set_reg(
            h0.regs,
            crate::fields::spec_rd(inst),
            vstd::wrapping::u64_specs::wrapping_add(h0.pc, len),
        ))
            &&& (h1.pc == vstd::wrapping::u64_specs::wrapping_sub(
            vstd::wrapping::u64_specs::wrapping_add(h0.pc, crate::fields::spec_imm_j(inst)),
            len,
        ))
        },
        Op::Jalr => {
            &&& (view_only_regs_pc_changed(h0, h1))
            &&& (r == Ok::<(), Exception>(()))
            &&& (h1.regs == spec_set_reg(
            h0.regs,
            crate::fields::spec_rd(inst),
            vstd::wrapping::u64_specs::wrapping_add(h0.pc, len),
        ))
            &&& (h1.pc == vstd::wrapping::u64_specs::wrapping_sub(
            vstd::wrapping::u64_specs::wrapping_add(
                h0.regs[crate::fields::spec_rs1(inst)],
                crate::fields::spec_imm_i(inst),
            ) & !1u64,
            len,
        ))
        },
        Op::Beq => {
            &&& (view_only_regs_pc_changed(h0, h1))
            &&& (h1.regs == h0.regs)
            &&& (r == Ok::<(), Exception>(()))
            &&& (h1.pc == (if h0.regs[crate::fields::spec_rs1(inst)] == h0.regs[crate::fields::spec_rs2(inst)] {
            vstd::wrapping::u64_specs::wrapping_sub(
                vstd::wrapping::u64_specs::wrapping_add(h0.pc, crate::fields::spec_imm_b(inst)),
                len,
            )
        } else {
            h0.pc
        }))
        },
        Op::Bne => {
            &&& (view_only_regs_pc_changed(h0, h1))
            &&& (h1.regs == h0.regs)
            &&& (r == Ok::<(), Exception>(()))
            &&& (h1.pc == (if h0.regs[crate::fields::spec_rs1(inst)] != h0.regs[crate::fields::spec_rs2(inst)] {
            vstd::wrapping::u64_specs::wrapping_sub(
                vstd::wrapping::u64_specs::wrapping_add(h0.pc, crate::fields::spec_imm_b(inst)),
                len,
            )
        } else {
            h0.pc
        }))
        },
        Op::Blt => {
            &&& (view_only_regs_pc_changed(h0, h1))
            &&& (h1.regs == h0.regs)
            &&& (r == Ok::<(), Exception>(()))
            &&& (h1.pc == (if (h0.regs[crate::fields::spec_rs1(inst)] as i64) < (h0.regs[crate::fields::spec_rs2(inst)] as i64) {
            vstd::wrapping::u64_specs::wrapping_sub(
                vstd::wrapping::u64_specs::wrapping_add(h0.pc, crate::fields::spec_imm_b(inst)),
                len,
            )
        } else {
            h0.pc
        }))
        },
        Op::Bge => {
            &&& (view_only_regs_pc_changed(h0, h1))
            &&& (h1.regs == h0.regs)
            &&& (r == Ok::<(), Exception>(()))
            &&& (h1.pc == (if (h0.regs[crate::fields::spec_rs1(inst)] as i64) >= (h0.regs[crate::fields::spec_rs2(inst)] as i64) {
            vstd::wrapping::u64_specs::wrapping_sub(
                vstd::wrapping::u64_specs::wrapping_add(h0.pc, crate::fields::spec_imm_b(inst)),
                len,
            )
        } else {
            h0.pc
        }))
        },
        Op::Bltu => {
            &&& (view_only_regs_pc_changed(h0, h1))
            &&& (h1.regs == h0.regs)
            &&& (r == Ok::<(), Exception>(()))
            &&& (h1.pc == (if h0.regs[crate::fields::spec_rs1(inst)] < h0.regs[crate::fields::spec_rs2(inst)] {
            vstd::wrapping::u64_specs::wrapping_sub(
                vstd::wrapping::u64_specs::wrapping_add(h0.pc, crate::fields::spec_imm_b(inst)),
                len,
            )
        } else {
            h0.pc
        }))
        },
        Op::Bgeu => {
            &&& (view_only_regs_pc_changed(h0, h1))
            &&& (h1.regs == h0.regs)
            &&& (r == Ok::<(), Exception>(()))
            &&& (h1.pc == (if h0.regs[crate::fields::spec_rs1(inst)] >= h0.regs[crate::fields::spec_rs2(inst)] {
            vstd::wrapping::u64_specs::wrapping_sub(
                vstd::wrapping::u64_specs::wrapping_add(h0.pc, crate::fields::spec_imm_b(inst)),
                len,
            )
        } else {
            h0.pc
        }))
        },
        Op::Lb => {
            &&& (view_only_regs_changed(h0, h1))
            &&& (ram1 == ram0)
            &&& (rsv1 == rsv0)
            &&& (r matches Err(_) ==> h1.regs == h0.regs)
            &&& (({
            let addr = vstd::wrapping::u64_specs::wrapping_add(
                h0.regs[crate::fields::spec_rs1(inst)],
                crate::fields::spec_imm_i(inst),
            );
            let t = crate::mmu::spec_translate(
                ram0,
                h0.csr[crate::csr::SATP as int],
                h0.csr[crate::csr::MSTATUS as int],
                spec_mode_encoding(h0.mode),
                addr,
                crate::mmu::AccessType::Read,
            );
            addr % 1 == 0 ==> ((t matches Err(e) ==> r == Err::<(), Exception>(e)) && (
            t matches Ok(pa) ==> (crate::memory::ram_range(pa, 1) ==> r == Ok::<(), Exception>(()) && h1.regs == spec_set_reg(h0.regs, crate::fields::spec_rd(inst), (crate::memory::spec_read_u8(ram0, pa) as i8 as i64 as u64)))))
        }))
        },
        Op::Lh => {
            &&& (view_only_regs_changed(h0, h1))
            &&& (ram1 == ram0)
            &&& (rsv1 == rsv0)
            &&& (r matches Err(_) ==> h1.regs == h0.regs)
            &&& (({
            let addr = vstd::wrapping::u64_specs::wrapping_add(
                h0.regs[crate::fields::spec_rs1(inst)],
                crate::fields::spec_imm_i(inst),
            );
            let t = crate::mmu::spec_translate(
                ram0,
                h0.csr[crate::csr::SATP as int],
                h0.csr[crate::csr::MSTATUS as int],
                spec_mode_encoding(h0.mode),
                addr,
                crate::mmu::AccessType::Read,
            );
            addr % 2 == 0 ==> ((t matches Err(e) ==> r == Err::<(), Exception>(e)) && (
            t matches Ok(pa) ==> (crate::memory::ram_range(pa, 2) ==> r == Ok::<(), Exception>(()) && h1.regs == spec_set_reg(h0.regs, crate::fields::spec_rd(inst), (crate::memory::spec_read_u16(ram0, pa) as i16 as i64 as u64)))))
        }))
        },
        Op::Lw => {
            &&& (view_only_regs_changed(h0, h1))
            &&& (ram1 == ram0)
            &&& (rsv1 == rsv0)
            &&& (r matches Err(_) ==> h1.regs == h0.regs)
            &&& (({
            let addr = vstd::wrapping::u64_specs::wrapping_add(
                h0.regs[crate::fields::spec_rs1(inst)],
                crate::fields::spec_imm_i(inst),
            );
            let t = crate::mmu::spec_translate(
                ram0,
                h0.csr[crate::csr::SATP as int],
                h0.csr[crate::csr::MSTATUS as int],
                spec_mode_encoding(h0.mode),
                addr,
                crate::mmu::AccessType::Read,
            );
            addr % 4 == 0 ==> ((t matches Err(e) ==> r == Err::<(), Exception>(e)) && (
            t matches Ok(pa) ==> (crate::memory::ram_range(pa, 4) ==> r == Ok::<(), Exception>(()) && h1.regs == spec_set_reg(h0.regs, crate::fields::spec_rd(inst), (crate::memory::spec_read_u32(ram0, pa) as i32 as i64 as u64)))))
        }))
        },
        Op::Ld => {
            &&& (view_only_regs_changed(h0, h1))
            &&& (ram1 == ram0)
            &&& (rsv1 == rsv0)
            &&& (r matches Err(_) ==> h1.regs == h0.regs)
            &&& (({
            let addr = vstd::wrapping::u64_specs::wrapping_add(
                h0.regs[crate::fields::spec_rs1(inst)],
                crate::fields::spec_imm_i(inst),
            );
            let t = crate::mmu::spec_translate(
                ram0,
                h0.csr[crate::csr::SATP as int],
                h0.csr[crate::csr::MSTATUS as int],
                spec_mode_encoding(h0.mode),
                addr,
                crate::mmu::AccessType::Read,
            );
            addr % 8 == 0 ==> ((t matches Err(e) ==> r == Err::<(), Exception>(e)) && (
            t matches Ok(pa) ==> (crate::memory::ram_range(pa, 8) ==> r == Ok::<(), Exception>(()) && h1.regs == spec_set_reg(h0.regs, crate::fields::spec_rd(inst), crate::memory::spec_read_u64(ram0, pa)))))
        }))
        },
        Op::Lbu => {
            &&& (view_only_regs_changed(h0, h1))
            &&& (ram1 == ram0)
            &&& (rsv1 == rsv0)
            &&& (r matches Err(_) ==> h1.regs == h0.regs)
            &&& (({
            let addr = vstd::wrapping::u64_specs::wrapping_add(
                h0.regs[crate::fields::spec_rs1(inst)],
                crate::fields::spec_imm_i(inst),
            );
            let t = crate::mmu::spec_translate(
                ram0,
                h0.csr[crate::csr::SATP as int],
                h0.csr[crate::csr::MSTATUS as int],
                spec_mode_encoding(h0.mode),
                addr,
                crate::mmu::AccessType::Read,
            );
            addr % 1 == 0 ==> ((t matches Err(e) ==> r == Err::<(), Exception>(e)) && (
            t matches Ok(pa) ==> (crate::memory::ram_range(pa, 1) ==> r == Ok::<(), Exception>(()) && h1.regs == spec_set_reg(h0.regs, crate::fields::spec_rd(inst), (crate::memory::spec_read_u8(ram0, pa) as u64)))))
        }))
        },
        Op::Lhu => {
            &&& (view_only_regs_changed(h0, h1))
            &&& (ram1 == ram0)
            &&& (rsv1 == rsv0)
            &&& (r matches Err(_) ==> h1.regs == h0.regs)
            &&& (({
            let addr = vstd::wrapping::u64_specs::wrapping_add(
                h0.regs[crate::fields::spec_rs1(inst)],
                crate::fields::spec_imm_i(inst),
            );
            let t = crate::mmu::spec_translate(
                ram0,
                h0.csr[crate::csr::SATP as int],
                h0.csr[crate::csr::MSTATUS as int],
                spec_mode_encoding(h0.mode),
                addr,
                crate::mmu::AccessType::Read,
            );
            addr % 2 == 0 ==> ((t matches Err(e) ==> r == Err::<(), Exception>(e)) && (
            t matches Ok(pa) ==> (crate::memory::ram_range(pa, 2) ==> r == Ok::<(), Exception>(()) && h1.regs == spec_set_reg(h0.regs, crate::fields::spec_rd(inst), (crate::memory::spec_read_u16(ram0, pa) as u64)))))
        }))
        },
        Op::Lwu => {
            &&& (view_only_regs_changed(h0, h1))
            &&& (ram1 == ram0)
            &&& (rsv1 == rsv0)
            &&& (r matches Err(_) ==> h1.regs == h0.regs)
            &&& (({
            let addr = vstd::wrapping::u64_specs::wrapping_add(
                h0.regs[crate::fields::spec_rs1(inst)],
                crate::fields::spec_imm_i(inst),
            );
            let t = crate::mmu::spec_translate(
                ram0,
                h0.csr[crate::csr::SATP as int],
                h0.csr[crate::csr::MSTATUS as int],
                spec_mode_encoding(h0.mode),
                addr,
                crate::mmu::AccessType::Read,
            );
            addr % 4 == 0 ==> ((t matches Err(e) ==> r == Err::<(), Exception>(e)) && (
            t matches Ok(pa) ==> (crate::memory::ram_range(pa, 4) ==> r == Ok::<(), Exception>(()) && h1.regs == spec_set_reg(h0.regs, crate::fields::spec_rd(inst), (crate::memory::spec_read_u32(ram0, pa) as u64)))))
        }))
        },
        Op::Sb => {
            &&& (h1 == h0)
            &&& (({
            let addr = vstd::wrapping::u64_specs::wrapping_add(
                h0.regs[crate::fields::spec_rs1(inst)],
                crate::fields::spec_imm_s(inst),
            );
            let t = crate::mmu::spec_translate(
                ram0,
                h0.csr[crate::csr::SATP as int],
                h0.csr[crate::csr::MSTATUS as int],
                spec_mode_encoding(h0.mode),
                addr,
                crate::mmu::AccessType::Write,
            );
            addr % 1 == 0 ==> ((t matches Err(e) ==> r == Err::<(), Exception>(e) && ram1 == ram0) && (t matches Ok(pa) ==> (crate::memory::ram_range(pa, 1) ==> r
                == Ok::<(), Exception>(()) && ram1 == crate::memory::spec_write_u8(
                ram0,
                pa,
                (h0.regs[crate::fields::spec_rs2(inst)] as u8),
            ) && rsv1 == Seq::<u64>::empty())))
        }))
        },
        Op::Sh => {
            &&& (h1 == h0)
            &&& (({
            let addr = vstd::wrapping::u64_specs::wrapping_add(
                h0.regs[crate::fields::spec_rs1(inst)],
                crate::fields::spec_imm_s(inst),
            );
            let t = crate::mmu::spec_translate(
                ram0,
                h0.csr[crate::csr::SATP as int],
                h0.csr[crate::csr::MSTATUS as int],
                spec_mode_encoding(h0.mode),
                addr,
                crate::mmu::AccessType::Write,
            );
            addr % 2 == 0 ==> ((t matches Err(e) ==> r == Err::<(), Exception>(e) && ram1 == ram0) && (t matches Ok(pa) ==> (crate::memory::ram_range(pa, 2) ==> r
                == Ok::<(), Exception>(()) && ram1 == crate::memory::spec_write_u16(
                ram0,
                pa,
                (h0.regs[crate::fields::spec_rs2(inst)] as u16),
            ) && rsv1 == Seq::<u64>::empty())))
        }))
        },
        Op::Sw => {
            &&& (h1 == h0)
            &&& (({
            let addr = vstd::wrapping::u64_specs::wrapping_add(
                h0.regs[crate::fields::spec_rs1(inst)],
                crate::fields::spec_imm_s(inst),
            );
            let t = crate::mmu::spec_translate(
                ram0,
                h0.csr[crate::csr::SATP as int],
                h0.csr[crate::csr::MSTATUS as int],
                spec_mode_encoding(h0.mode),
                addr,
                crate::mmu::AccessType::Write,
            );
            addr % 4 == 0 ==> ((t matches Err(e) ==> r == Err::<(), Exception>(e) && ram1 == ram0) && (t matches Ok(pa) ==> (crate::memory::ram_range(pa, 4) ==> r
                == Ok::<(), Exception>(()) && ram1 == crate::memory::spec_write_u32(
                ram0,
                pa,
                (h0.regs[crate::fields::spec_rs2(inst)] as u32),
            ) && rsv1 == Seq::<u64>::empty())))
        }))
        },
        Op::Sd => {
            &&& (h1 == h0)
            &&& (({
            let addr = vstd::wrapping::u64_specs::wrapping_add(
                h0.regs[crate::fields::spec_rs1(inst)],
                crate::fields::spec_imm_s(inst),
            );
            let t = crate::mmu::spec_translate(
                ram0,
                h0.csr[crate::csr::SATP as int],
                h0.csr[crate::csr::MSTATUS as int],
                spec_mode_encoding(h0.mode),
                addr,
                crate::mmu::AccessType::Write,
            );
            addr % 8 == 0 ==> ((t matches Err(e) ==> r == Err::<(), Exception>(e) && ram1 == ram0) && (t matches Ok(pa) ==> (crate::memory::ram_range(pa, 8) ==> r
                == Ok::<(), Exception>(()) && ram1 == crate::memory::spec_write_u64(
                ram0,
                pa,
                h0.regs[crate::fields::spec_rs2(inst)],
            ) && rsv1 == Seq::<u64>::empty())))
        }))
        },
        Op::Fence => {
            &&& (h1 == h0)
            &&& (r == Ok::<(), Exception>(()))
        },
        Op::FenceI => {
            &&& (h1 == h0)
            &&& (r == Ok::<(), Exception>(()))
        },
        Op::Ecall => {
            &&& (h1 == h0)
            &&& (r == Err::<(), Exception>(
            match h0.mode {
                Mode::User => Exception::EnvironmentCallFromUMode,
                Mode::Supervisor => Exception::EnvironmentCallFromSMode,
                Mode::Machine => Exception::EnvironmentCallFromMMode,
            },
        ))
        },
        Op::Ebreak => {
            &&& (h1 == h0)
            &&& (r == Err::<(), Exception>(Exception::Breakpoint(h0.pc)))
        },
        Op::Csrrw => {
            &&& (h1.pc == h0.pc && h1.fregs == h0.fregs && h1.mode == h0.mode && h1.wfi == h0.wfi && true)
            &&& (({
            let addr = crate::inst_zicsr::spec_csr_addr(inst);
            let m = spec_mode_encoding(h0.mode);
            let bad = crate::csr::spec_csr_read_only(addr) || crate::csr::spec_csr_privilege(addr) > m;
            &&& (bad ==> r == Err::<(), Exception>(Exception::IllegalInstruction) && h1.csr == h0.csr && h1.regs == h0.regs)
            &&& (!bad ==> r == Ok::<(), Exception>(()) && h1.csr == crate::csr::spec_write_raw(
                h0.csr,
                addr,
                h0.regs[crate::fields::spec_rs1(inst)],
            ) && h1.regs == spec_set_reg(
                h0.regs,
                crate::fields::spec_rd(inst),
                crate::csr::spec_read_raw(h0.csr, addr),
            ))
        }))
        },
        Op::Csrrs => {
            &&& (h1.pc == h0.pc && h1.fregs == h0.fregs && h1.mode == h0.mode && h1.wfi == h0.wfi && true)
            &&& (({
            let addr = crate::inst_zicsr::spec_csr_addr(inst);
            let m = spec_mode_encoding(h0.mode);
            let res = crate::csr::spec_read_raw(h0.csr, addr);
            let wdata = if false {
                res & !h0.regs[crate::fields::spec_rs1(inst)]
            } else {
                res | h0.regs[crate::fields::spec_rs1(inst)]
            };
            let bad = crate::csr::spec_csr_privilege(addr) > m || (crate::fields::spec_rs1(inst) != 0 && crate::csr::spec_csr_read_only(
                addr,
            ));
            &&& (bad ==> r == Err::<(), Exception>(Exception::IllegalInstruction) && h1.csr == h0.csr && h1.regs == h0.regs)
            &&& (!bad && crate::fields::spec_rs1(inst) != 0 ==> r == Ok::<(), Exception>(()) && h1.csr
                == crate::csr::spec_write_raw(h0.csr, addr, wdata) && h1.regs
                == spec_set_reg(h0.regs, crate::fields::spec_rd(inst), res))
            &&& (!bad && crate::fields::spec_rs1(inst) == 0 ==> r == Ok::<(), Exception>(()) && h1.csr
                == h0.csr && h1.regs == spec_set_reg(
                h0.regs,
                crate::fields::spec_rd(inst),
                res,
            ))
        }))
        },
        Op::Csrrc => {
            &&& (h1.pc == h0.pc && h1.fregs == h0.fregs && h1.mode == h0.mode && h1.wfi == h0.wfi && true)
            &&& (({
            let addr = crate::inst_zicsr::spec_csr_addr(inst);
            let m = spec_mode_encoding(h0.mode);
            let res = crate::csr::spec_read_raw(h0.csr, addr);
            let wdata = if true {
                res & !h0.regs[crate::fields::spec_rs1(inst)]
            } else {
                res | h0.regs[crate::fields::spec_rs1(inst)]
            };
            let bad = crate::csr::spec_csr_privilege(addr) > m || (crate::fields::spec_rs1(inst) != 0 && crate::csr::spec_csr_read_only(
                addr,
            ));
            &&& (bad ==> r == Err::<(), Exception>(Exception::IllegalInstruction) && h1.csr == h0.csr && h1.regs == h0.regs)
            &&& (!bad && crate::fields::spec_rs1(inst) != 0 ==> r == Ok::<(), Exception>(()) && h1.csr
                == crate::csr::spec_write_raw(h0.csr, addr, wdata) && h1.regs
                == spec_set_reg(h0.regs, crate::fields::spec_rd(inst), res))
            &&& (!bad && crate::fields::spec_rs1(inst) == 0 ==> r == Ok::<(), Exception>(()) && h1.csr
                == h0.csr && h1.regs == spec_set_reg(
                h0.regs,
                crate::fields::spec_rd(inst),
                res,
            ))
        }))
        },
        Op::Csrrwi => {
            &&& (view_only_regs_changed(h0, h1) || (h1.pc == h0.pc && h1.fregs == h0.fregs && h1.mode == h0.mode && h1.wfi == h0.wfi && true))
            &&& (({
            let addr = crate::inst_zicsr::spec_csr_addr(inst);
            let m = spec_mode_encoding(h0.mode);
            let bad = crate::csr::spec_csr_read_only(addr) || crate::csr::spec_csr_privilege(addr) > m;
            &&& (bad ==> r == Err::<(), Exception>(Exception::IllegalInstruction) && h1.csr == h0.csr && h1.regs == h0.regs)
            &&& (!bad ==> r == Ok::<(), Exception>(()) && h1.csr == crate::csr::spec_write_raw(
                h0.csr,
                addr,
                crate::fields::spec_rs1(inst) as u64,
            ) && h1.regs == spec_set_reg(
                h0.regs,
                crate::fields::spec_rd(inst),
                crate::csr::spec_read_raw(h0.csr, addr),
            ))
        }))
        },
        Op::Csrrsi => {
            &&& (h1.pc == h0.pc && h1.fregs == h0.fregs && h1.mode == h0.mode && h1.wfi == h0.wfi && true)
            &&& (({
            let addr = crate::inst_zicsr::spec_csr_addr(inst);
            let m = spec_mode_encoding(h0.mode);
            let res = crate::csr::spec_read_raw(h0.csr, addr);
            let wdata = if false {
                res & !(crate::fields::spec_rs1(inst) as u64)
            } else {
                res | (crate::fields::spec_rs1(inst) as u64)
            };
            let bad = crate::csr::spec_csr_privilege(addr) > m || (crate::fields::spec_rs1(inst) != 0 && crate::csr::spec_csr_read_only(
                addr,
            ));
            &&& (bad ==> r == Err::<(), Exception>(Exception::IllegalInstruction) && h1.csr == h0.csr && h1.regs == h0.regs)
            &&& (!bad && crate::fields::spec_rs1(inst) != 0 ==> r == Ok::<(), Exception>(()) && h1.csr
                == crate::csr::spec_write_raw(h0.csr, addr, wdata) && h1.regs
                == spec_set_reg(h0.regs, crate::fields::spec_rd(inst), res))
            &&& (!bad && crate::fields::spec_rs1(inst) == 0 ==> r == Ok::<(), Exception>(()) && h1.csr
                == h0.csr && h1.regs == spec_set_reg(
                h0.regs,
                crate::fields::spec_rd(inst),
                res,
            ))
        }))
        },
        Op::Csrrci => {
            &&& (h1.pc == h0.pc && h1.fregs == h0.fregs && h1.mode == h0.mode && h1.wfi == h0.wfi && true)
            &&& (({
            let addr = crate::inst_zicsr::spec_csr_addr(inst);
            let m = spec_mode_encoding(h0.mode);
            let res = crate::csr::spec_read_raw(h0.csr, addr);
            let wdata = if true {
                res & !(crate::fields::spec_rs1(inst) as u64)
            } else {
                res | (crate::fields::spec_rs1(inst) as u64)
            };
            let bad = crate::csr::spec_csr_privilege(addr) > m || (crate::fields::spec_rs1(inst) != 0 && crate::csr::spec_csr_read_only(
                addr,
            ));
            &&& (bad ==> r == Err::<(), Exception>(Exception::IllegalInstruction) && h1.csr == h0.csr && h1.regs == h0.regs)
            &&& (!bad && crate::fields::spec_rs1(inst) != 0 ==> r == Ok::<(), Exception>(()) && h1.csr
                == crate::csr::spec_write_raw(h0.csr, addr, wdata) && h1.regs
                == spec_set_reg(h0.regs, crate::fields::spec_rd(inst), res))
            &&& (!bad && crate::fields::spec_rs1(inst) == 0 ==> r == Ok::<(), Exception>(()) && h1.csr
                == h0.csr && h1.regs == spec_set_reg(
                h0.regs,
                crate::fields::spec_rd(inst),
                res,
            ))
        }))
        },
        Op::Mul => {
            &&& (view_only_regs_changed(h0, h1))
            &&& (r == Ok::<(), Exception>(()))
            &&& (h1.regs == spec_set_reg(
            h0.regs,
            crate::fields::spec_rd(inst),
            vstd::wrapping::u64_specs::wrapping_mul(h0.regs[crate::fields::spec_rs1(inst)], h0.regs[crate::fields::spec_rs2(inst)]),
        ))
        },
        Op::Mulh => {
            &&& (view_only_regs_changed(h0, h1))
            &&& (r == Ok::<(), Exception>(()))
            &&& (h1.regs == spec_set_reg(
            h0.regs,
            crate::fields::spec_rd(inst),
            ((((((h0.regs[crate::fields::spec_rs1(inst)] as i64 as i128) * (h0.regs[crate::fields::spec_rs2(inst)] as i64 as i128)) as i128) >> 64) as i64) as u64),
        ))
        },
        Op::Mulhsu => {
            &&& (view_only_regs_changed(h0, h1))
            &&& (r == Ok::<(), Exception>(()))
            &&& (h1.regs == spec_set_reg(
            h0.regs,
            crate::fields::spec_rd(inst),
            ((((((h0.regs[crate::fields::spec_rs1(inst)] as i64 as i128) * (h0.regs[crate::fields::spec_rs2(inst)] as i128)) as i128) >> 64) as i64) as u64),
        ))
        },
        Op::Mulhu => {
            &&& (view_only_regs_changed(h0, h1))
            &&& (r == Ok::<(), Exception>(()))
            &&& (h1.regs == spec_set_reg(
            h0.regs,
            crate::fields::spec_rd(inst),
            (((((h0.regs[crate::fields::spec_rs1(inst)] as u128) * (h0.regs[crate::fields::spec_rs2(inst)] as u128)) as u128) >> 64) as u64),
        ))
        },
        Op::Div => {
            &&& (view_only_regs_changed(h0, h1))
            &&& (r == Ok::<(), Exception>(()))
            &&& (h1.regs == spec_set_reg(
            h0.regs,
            crate::fields::spec_rd(inst),
            (if h0.regs[crate::fields::spec_rs2(inst)] == 0 {
                0xFFFF_FFFF_FFFF_FFFFu64
            } else if h0.regs[crate::fields::spec_rs1(inst)] == 0x8000_0000_0000_0000 && h0.regs[crate::fields::spec_rs2(inst)] == 0xFFFF_FFFF_FFFF_FFFF {
                h0.regs[crate::fields::spec_rs1(inst)]
            } else {
                crate::inst_m::spec_div_signed(h0.regs[crate::fields::spec_rs1(inst)], h0.regs[crate::fields::spec_rs2(inst)])
            }),
        ))
        },
        Op::Divu => {
            &&& (view_only_regs_changed(h0, h1))
            &&& (r == Ok::<(), Exception>(()))
            &&& (h1.regs == spec_set_reg(
            h0.regs,
            crate::fields::spec_rd(inst),
            (if h0.regs[crate::fields::spec_rs2(inst)] == 0 {
                0xFFFF_FFFF_FFFF_FFFFu64
            } else {
                h0.regs[crate::fields::spec_rs1(inst)] / h0.regs[crate::fields::spec_rs2(inst)]
            }),
        ))
        },
        Op::Rem => {
            &&& (view_only_regs_changed(h0, h1))
            &&& (r == Ok::<(), Exception>(()))
            &&& (h1.regs == spec_set_reg(
            h0.regs,
            crate::fields::spec_rd(inst),
            (if h0.regs[crate::fields::spec_rs2(inst)] == 0 {
                h0.regs[crate::fields::spec_rs1(inst)]
            } else if h0.regs[crate::fields::spec_rs1(inst)] == 0x8000_0000_0000_0000 && h0.regs[crate::fields::spec_rs2(inst)] == 0xFFFF_FFFF_FFFF_FFFF {
                0u64
            } else {
                crate::inst_m::spec_rem_signed(h0.regs[crate::fields::spec_rs1(inst)], h0.regs[crate::fields::spec_rs2(inst)])
            }),
        ))
        },
        Op::Remu => {
            &&& (view_only_regs_changed(h0, h1))
            &&& (r == Ok::<(), Exception>(()))
            &&& (h1.regs == spec_set_reg(
            h0.regs,
            crate::fields::spec_rd(inst),
            (if h0.regs[crate::fields::spec_rs2(inst)] == 0 {
                h0.regs[crate::fields::spec_rs1(inst)]
            } else {
                h0.regs[crate::fields::spec_rs1(inst)] % h0.regs[crate::fields::spec_rs2(inst)]
            }),
        ))
        },
        Op::Mulw => {
            &&& (view_only_regs_changed(h0, h1))
            &&& (r == Ok::<(), Exception>(()))
            &&& (h1.regs == spec_set_reg(
            h0.regs,
            crate::fields::spec_rd(inst),
            ((vstd::wrapping::i32_specs::wrapping_mul(h0.regs[crate::fields::spec_rs1(inst)] as i64 as i32, h0.regs[crate::fields::spec_rs2(inst)] as i64 as i32)) as i64 as u64),
        ))
        },
        Op::Divw => {
            &&& (view_only_regs_changed(h0, h1))
            &&& (r == Ok::<(), Exception>(()))
            &&& (h1.regs == spec_set_reg(
            h0.regs,
            crate::fields::spec_rd(inst),
            (if (h0.regs[crate::fields::spec_rs2(inst)] as u32) == 0 {
                0xFFFF_FFFF_FFFF_FFFFu64
            } else if (h0.regs[crate::fields::spec_rs1(inst)] as u32) == 0x8000_0000 && (h0.regs[crate::fields::spec_rs2(inst)] as u32) == 0xFFFF_FFFF {
                (((h0.regs[crate::fields::spec_rs1(inst)] as u32) as i32) as u64)
            } else {
                ((crate::inst_m::spec_div_signed32((h0.regs[crate::fields::spec_rs1(inst)] as u32), (h0.regs[crate::fields::spec_rs2(inst)] as u32)) as i32) as i64 as u64)
            }),
        ))
        },
        Op::Divuw => {
            &&& (view_only_regs_changed(h0, h1))
            &&& (r == Ok::<(), Exception>(()))
            &&& (h1.regs == spec_set_reg(
            h0.regs,
            crate::fields::spec_rd(inst),
            (if (h0.regs[crate::fields::spec_rs2(inst)] as u32) == 0 {
                0xFFFF_FFFF_FFFF_FFFFu64
            } else {
                ((((h0.regs[crate::fields::spec_rs1(inst)] as u32) / (h0.regs[crate::fields::spec_rs2(inst)] as u32)) as i32) as i64 as u64)
            }),
        ))
        },
        Op::Remw => {
            &&& (view_only_regs_changed(h0, h1))
            &&& (r == Ok::<(), Exception>(()))
            &&& (h1.regs == spec_set_reg(
            h0.regs,
            crate::fields::spec_rd(inst),
            (if (h0.regs[crate::fields::spec_rs2(inst)] as u32) == 0 {
                (((h0.regs[crate::fields::spec_rs1(inst)] as u32) as i32) as i64 as u64)
            } else if (h0.regs[crate::fields::spec_rs1(inst)] as u32) == 0x8000_0000 && (h0.regs[crate::fields::spec_rs2(inst)] as u32) == 0xFFFF_FFFF {
                0u64
            } else {
                ((crate::inst_m::spec_rem_signed32((h0.regs[crate::fields::spec_rs1(inst)] as u32), (h0.regs[crate::fields::spec_rs2(inst)] as u32)) as i32) as i64 as u64)
            }),
        ))
        },
        Op::Remuw => {
            &&& (view_only_regs_changed(h0, h1))
            &&& (r == Ok::<(), Exception>(()))
            &&& (h1.regs == spec_set_reg(
            h0.regs,
            crate::fields::spec_rd(inst),
            (if (h0.regs[crate::fields::spec_rs2(inst)] as u32) == 0 {
                (((h0.regs[crate::fields::spec_rs1(inst)] as u32) as i32) as i64 as u64)
            } else {
                ((((h0.regs[crate::fields::spec_rs1(inst)] as u32) % (h0.regs[crate::fields::spec_rs2(inst)] as u32)) as i32) as i64 as u64)
            }),
        ))
        },
        Op::LrW => {
            &&& (view_only_regs_changed(h0, h1))
            &&& (ram1 == ram0)
            &&& (r matches Ok(_) ==> rsv1 == rsv0.push(
            h0.regs[crate::fields::spec_rs1(inst)],
        ))
            &&& (r matches Err(_) ==> rsv1 == rsv0 && h1.regs == h0.regs)
            &&& (({
            let addr = h0.regs[crate::fields::spec_rs1(inst)];
            let t = crate::mmu::spec_translate(
                ram0,
                h0.csr[crate::csr::SATP as int],
                h0.csr[crate::csr::MSTATUS as int],
                spec_mode_encoding(h0.mode),
                addr,
                crate::mmu::AccessType::Read,
            );
            addr % 4 == 0 ==> ((t matches Err(e) ==> r == Err::<(), Exception>(e)) && (
            t matches Ok(pa) ==> (crate::memory::ram_range(pa, 4) ==> r == Ok::<(), Exception>(()) && h1.regs == spec_set_reg(h0.regs, crate::fields::spec_rd(inst), (crate::memory::spec_read_u32(ram0, pa) as i32 as i64 as u64)))))
        }))
        },
        Op::LrD => {
            &&& (view_only_regs_changed(h0, h1))
            &&& (ram1 == ram0)
            &&& (r matches Ok(_) ==> rsv1 == rsv0.push(
            h0.regs[crate::fields::spec_rs1(inst)],
        ))
            &&& (r matches Err(_) ==> rsv1 == rsv0 && h1.regs == h0.regs)
            &&& (({
            let addr = h0.regs[crate::fields::spec_rs1(inst)];
            let t = crate::mmu::spec_translate(
                ram0,
                h0.csr[crate::csr::SATP as int],
                h0.csr[crate::csr::MSTATUS as int],
                spec_mode_encoding(h0.mode),
                addr,
                crate::mmu::AccessType::Read,
            );
            addr % 8 == 0 ==> ((t matches Err(e) ==> r == Err::<(), Exception>(e)) && (
            t matches Ok(pa) ==> (crate::memory::ram_range(pa, 8) ==> r == Ok::<(), Exception>(()) && h1.regs == spec_set_reg(h0.regs, crate::fields::spec_rd(inst), crate::memory::spec_read_u64(ram0, pa)))))
        }))
        },
        Op::ScW => {
            &&& (view_only_regs_changed(h0, h1))
            &&& (!rsv0.contains(h0.regs[crate::fields::spec_rs1(inst)]) ==> r == Ok::<
            (),
            Exception,
        >(()) && h1.regs == spec_set_reg(h0.regs, crate::fields::spec_rd(inst), 1) && ram1 == ram0 && rsv1 == Seq::<u64>::empty())
            &&& (({
            let addr = h0.regs[crate::fields::spec_rs1(inst)];
            let t = crate::mmu::spec_translate(
                ram0,
                h0.csr[crate::csr::SATP as int],
                h0.csr[crate::csr::MSTATUS as int],
                spec_mode_encoding(h0.mode),
                addr,
                crate::mmu::AccessType::Write,
            );
            rsv0.contains(addr) && addr % 4 == 0 ==> ((t matches Err(e)
                ==> r == Err::<(), Exception>(e) && ram1 == ram0) && (
            t matches Ok(pa) ==> (crate::memory::ram_range(pa, 4) ==> r == Ok::<(), Exception>(()) && ram1 == crate::memory::spec_write_u32(ram0, pa, (h0.regs[crate::fields::spec_rs2(inst)] as u32)) && h1.regs == spec_set_reg(h0.regs, crate::fields::spec_rd(inst), 0) && rsv1 == Seq::<u64>::empty())))
        }))
        },
        Op::ScD => {
            &&& (view_only_regs_changed(h0, h1))
            &&& (!rsv0.contains(h0.regs[crate::fields::spec_rs1(inst)]) ==> r == Ok::<
            (),
            Exception,
        >(()) && h1.regs == spec_set_reg(h0.regs, crate::fields::spec_rd(inst), 1) && ram1 == ram0 && rsv1 == Seq::<u64>::empty())
            &&& (({
            let addr = h0.regs[crate::fields::spec_rs1(inst)];
            let t = crate::mmu::spec_translate(
                ram0,
                h0.csr[crate::csr::SATP as int],
                h0.csr[crate::csr::MSTATUS as int],
                spec_mode_encoding(h0.mode),
                addr,
                crate::mmu::AccessType::Write,
            );
            rsv0.contains(addr) && addr % 8 == 0 ==> ((t matches Err(e)
                ==> r == Err::<(), Exception>(e) && ram1 == ram0) && (
            t matches Ok(pa) ==> (crate::memory::ram_range(pa, 8) ==> r == Ok::<(), Exception>(()) && ram1 == crate::memory::spec_write_u64(ram0, pa, h0.regs[crate::fields::spec_rs2(inst)]) && h1.regs == spec_set_reg(h0.regs, crate::fields::spec_rd(inst), 0) && rsv1 == Seq::<u64>::empty())))
        }))
        },
        Op::AmoswapW => {
            &&& (view_only_regs_changed(h0, h1))
            &&& (r matches Err(_) ==> h1.regs == h0.regs)
            &&& (h0.regs[crate::fields::spec_rs1(inst)] % 4 != 0 ==> r == Err::<(), Exception>(
            Exception::StoreAMOAddressMisaligned(h0.regs[crate::fields::spec_rs1(inst)]),
        ) && ram1 == ram0)
            &&& (({
            let addr = h0.regs[crate::fields::spec_rs1(inst)];
            let t = crate::mmu::spec_translate(
                ram0,
                h0.csr[crate::csr::SATP as int],
                h0.csr[crate::csr::MSTATUS as int],
                spec_mode_encoding(h0.mode),
                addr,
                crate::mmu::AccessType::ReadWrite,
            );
            addr % 4 == 0 ==> ((t matches Err(e) ==> r == Err::<(), Exception>(e) && ram1 == ram0) && (t matches Ok(pa) ==> (crate::memory::ram_range(pa, 4) ==> r
                == Ok::<(), Exception>(()) && h1.regs == spec_set_reg(
                h0.regs,
                crate::fields::spec_rd(inst),
                (crate::memory::spec_read_u32(ram0, pa) as i32 as i64 as u64),
            ))))
        }))
        },
        Op::AmoswapD => {
            &&& (view_only_regs_changed(h0, h1))
            &&& (r matches Err(_) ==> h1.regs == h0.regs)
            &&& (h0.regs[crate::fields::spec_rs1(inst)] % 8 != 0 ==> r == Err::<(), Exception>(
            Exception::StoreAMOAddressMisaligned(h0.regs[crate::fields::spec_rs1(inst)]),
        ) && ram1 == ram0)
            &&& (({
            let addr = h0.regs[crate::fields::spec_rs1(inst)];
            let t = crate::mmu::spec_translate(
                ram0,
                h0.csr[crate::csr::SATP as int],
                h0.csr[crate::csr::MSTATUS as int],
                spec_mode_encoding(h0.mode),
                addr,
                crate::mmu::AccessType::ReadWrite,
            );
            addr % 8 == 0 ==> ((t matches Err(e) ==> r == Err::<(), Exception>(e) && ram1 == ram0) && (t matches Ok(pa) ==> (crate::memory::ram_range(pa, 8) ==> r
                == Ok::<(), Exception>(()) && h1.regs == spec_set_reg(
                h0.regs,
                crate::fields::spec_rd(inst),
                crate::memory::spec_read_u64(ram0, pa),
            ))))
        }))
        },
        Op::AmoaddW => {
            &&& (view_only_regs_changed(h0, h1))
            &&& (r matches Err(_) ==> h1.regs == h0.regs)
            &&& (h0.regs[crate::fields::spec_rs1(inst)] % 4 != 0 ==> r == Err::<(), Exception>(
            Exception::StoreAMOAddressMisaligned(h0.regs[crate::fields::spec_rs1(inst)]),
        ) && ram1 == ram0)
            &&& (({
            let addr = h0.regs[crate::fields::spec_rs1(inst)];
            let t = crate::mmu::spec_translate(
                ram0,
                h0.csr[crate::csr::SATP as int],
                h0.csr[crate::csr::MSTATUS as int],
                spec_mode_encoding(h0.mode),
                addr,
                crate::mmu::AccessType::ReadWrite,
            );
            addr % 4 == 0 ==> ((t matches Err(e) ==> r == Err::<(), Exception>(e) && ram1 == ram0) && (t matches Ok(pa) ==> (crate::memory::ram_range(pa, 4) ==> r
                == Ok::<(), Exception>(()) && h1.regs == spec_set_reg(
                h0.regs,
                crate::fields::spec_rd(inst),
                (crate::memory::spec_read_u32(ram0, pa) as i32 as i64 as u64),
            ))))
        }))
        },
        Op::AmoaddD => {
            &&& (view_only_regs_changed(h0, h1))
            &&& (r matches Err(_) ==> h1.regs == h0.regs)
            &&& (h0.regs[crate::fields::spec_rs1(inst)] % 8 != 0 ==> r == Err::<(), Exception>(
            Exception::StoreAMOAddressMisaligned(h0.regs[crate::fields::spec_rs1(inst)]),
        ) && ram1 == ram0)
            &&& (({
            let addr = h0.regs[crate::fields::spec_rs1(inst)];
            let t = crate::mmu::spec_translate(
                ram0,
                h0.csr[crate::csr::SATP as int],
                h0.csr[crate::csr::MSTATUS as int],
                spec_mode_encoding(h0.mode),
                addr,
                crate::mmu::AccessType::ReadWrite,
            );
            addr % 8 == 0 ==> ((t matches Err(e) ==> r == Err::<(), Exception>(e) && ram1 == ram0) && (t matches Ok(pa) ==> (crate::memory::ram_range(pa, 8) ==> r
                == Ok::<(), Exception>(()) && h1.regs == spec_set_reg(
                h0.regs,
                crate::fields::spec_rd(inst),
                crate::memory::spec_read_u64(ram0, pa),
            ))))
        }))
        },
        Op::AmoxorW => {
            &&& (view_only_regs_changed(h0, h1))
            &&& (r matches Err(_) ==> h1.regs == h0.regs)
            &&& (h0.regs[crate::fields::spec_rs1(inst)] % 4 != 0 ==> r == Err::<(), Exception>(
            Exception::StoreAMOAddressMisaligned(h0.regs[crate::fields::spec_rs1(inst)]),
        ) && ram1 == ram0)
            &&& (({
            let addr = h0.regs[crate::fields::spec_rs1(inst)];
            let t = crate::mmu::spec_translate(
                ram0,
                h0.csr[crate::csr::SATP as int],
                h0.csr[crate::csr::MSTATUS as int],
                spec_mode_encoding(h0.mode),
                addr,
                crate::mmu::AccessType::ReadWrite,
            );
            addr % 4 == 0 ==> ((t matches Err(e) ==> r == Err::<(), Exception>(e) && ram1 == ram0) && (t matches Ok(pa) ==> (crate::memory::ram_range(pa, 4) ==> r
                == Ok::<(), Exception>(()) && h1.regs == spec_set_reg(
                h0.regs,
                crate::fields::spec_rd(inst),
                (crate::memory::spec_read_u32(ram0, pa) as i32 as i64 as u64),
            ))))
        }))
        },
        Op::AmoxorD => {
            &&& (view_only_regs_changed(h0, h1))
            &&& (r matches Err(_) ==> h1.regs == h0.regs)
            &&& (h0.regs[crate::fields::spec_rs1(inst)] % 8 != 0 ==> r == Err::<(), Exception>(
            Exception::StoreAMOAddressMisaligned(h0.regs[crate::fields::spec_rs1(inst)]),
        ) && ram1 == ram0)
            &&& (({
            let addr = h0.regs[crate::fields::spec_rs1(inst)];
            let t = crate::mmu::spec_translate(
                ram0,
                h0.csr[crate::csr::SATP as int],
                h0.csr[crate::csr::MSTATUS as int],
                spec_mode_encoding(h0.mode),
                addr,
                crate::mmu::AccessType::ReadWrite,
            );
            addr % 8 == 0 ==> ((t matches Err(e) ==> r == Err::<(), Exception>(e) && ram1 == ram0) && (t matches Ok(pa) ==> (crate::memory::ram_range(pa, 8) ==> r
                == Ok::<(), Exception>(()) && h1.regs == spec_set_reg(
                h0.regs,
                crate::fields::spec_rd(inst),
                crate::memory::spec_read_u64(ram0, pa),
            ))))
        }))
        },
        Op::AmoandW => {
            &&& (view_only_regs_changed(h0, h1))
            &&& (r matches Err(_) ==> h1.regs == h0.regs)
            &&& (h0.regs[crate::fields::spec_rs1(inst)] % 4 != 0 ==> r == Err::<(), Exception>(
            Exception::StoreAMOAddressMisaligned(h0.regs[crate::fields::spec_rs1(inst)]),
        ) && ram1 == ram0)
            &&& (({
            let addr = h0.regs[crate::fields::spec_rs1(inst)];
            let t = crate::mmu::spec_translate(
                ram0,
                h0.csr[crate::csr::SATP as int],
                h0.csr[crate::csr::MSTATUS as int],
                spec_mode_encoding(h0.mode),
                addr,
                crate::mmu::AccessType::ReadWrite,
            );
            addr % 4 == 0 ==> ((t matches Err(e) ==> r == Err::<(), Exception>(e) && ram1 == ram0) && (t matches Ok(pa) ==> (crate::memory::ram_range(pa, 4) ==> r
                == Ok::<(), Exception>(()) && h1.regs == spec_set_reg(
                h0.regs,
                crate::fields::spec_rd(inst),
                (crate::memory::spec_read_u32(ram0, pa) as i32 as i64 as u64),
            ))))
        }))
        },
        Op::AmoandD => {
            &&& (view_only_regs_changed(h0, h1))
            &&& (r matches Err(_) ==> h1.regs == h0.regs)
            &&& (h0.regs[crate::fields::spec_rs1(inst)] % 8 != 0 ==> r == Err::<(), Exception>(
            Exception::StoreAMOAddressMisaligned(h0.regs[crate::fields::spec_rs1(inst)]),
        ) && ram1 == ram0)
            &&& (({
            let addr = h0.regs[crate::fields::spec_rs1(inst)];
            let t = crate::mmu::spec_translate(
                ram0,
                h0.csr[crate::csr::SATP as int],
                h0.csr[crate::csr::MSTATUS as int],
                spec_mode_encoding(h0.mode),
                addr,
                crate::mmu::AccessType::ReadWrite,
            );
            addr % 8 == 0 ==> ((t matches Err(e) ==> r == Err::<(), Exception>(e) && ram1 == ram0) && (t matches Ok(pa) ==> (crate::memory::ram_range(pa, 8) ==> r
                == Ok::<(), Exception>(()) && h1.regs == spec_set_reg(
                h0.regs,
                crate::fields::spec_rd(inst),
                crate::memory::spec_read_u64(ram0, pa),
            ))))
        }))
        },
        Op::AmoorW => {
            &&& (view_only_regs_changed(h0, h1))
            &&& (r matches Err(_) ==> h1.regs == h0.regs)
            &&& (h0.regs[crate::fields::spec_rs1(inst)] % 4 != 0 ==> r == Err::<(), Exception>(
            Exception::StoreAMOAddressMisaligned(h0.regs[crate::fields::spec_rs1(inst)]),
        ) && ram1 == ram0)
            &&& (({
            let addr = h0.regs[crate::fields::spec_rs1(inst)];
            let t = crate::mmu::spec_translate(
                ram0,
                h0.csr[crate::csr::SATP as int],
                h0.csr[crate::csr::MSTATUS as int],
                spec_mode_encoding(h0.mode),
                addr,
                crate::mmu::AccessType::ReadWrite,
            );
            addr % 4 == 0 ==> ((t matches Err(e) ==> r == Err::<(), Exception>(e) && ram1 == ram0) && (t matches Ok(pa) ==> (crate::memory::ram_range(pa, 4) ==> r
                == Ok::<(), Exception>(()) && h1.regs == spec_set_reg(
                h0.regs,
                crate::fields::spec_rd(inst),
                (crate::memory::spec_read_u32(ram0, pa) as i32 as i64 as u64),
            ))))
        }))
        },
        Op::AmoorD => {
            &&& (view_only_regs_changed(h0, h1))
            &&& (r matches Err(_) ==> h1.regs == h0.regs)
            &&& (h0.regs[crate::fields::spec_rs1(inst)] % 8 != 0 ==> r == Err::<(), Exception>(
            Exception::StoreAMOAddressMisaligned(h0.regs[crate::fields::spec_rs1(inst)]),
        ) && ram1 == ram0)
            &&& (({
            let addr = h0.regs[crate::fields::spec_rs1(inst)];
            let t = crate::mmu::spec_translate(
                ram0,
                h0.csr[crate::csr::SATP as int],
                h0.csr[crate::csr::MSTATUS as int],
                spec_mode_encoding(h0.mode),
                addr,
                crate::mmu::AccessType::ReadWrite,
            );
            addr % 8 == 0 ==> ((t matches Err(e) ==> r == Err::<(), Exception>(e) && ram1 == ram0) && (t matches Ok(pa) ==> (crate::memory::ram_range(pa, 8) ==> r
                == Ok::<(), Exception>(()) && h1.regs == spec_set_reg(
                h0.regs,
                crate::fields::spec_rd(inst),
                crate::memory::spec_read_u64(ram0, pa),
            ))))
        }))
        },
        Op::AmominW => {
            &&& (view_only_regs_changed(h0, h1))
            &&& (r matches Err(_) ==> h1.regs == h0.regs)
            &&& (h0.regs[crate::fields::spec_rs1(inst)] % 4 != 0 ==> r == Err::<(), Exception>(
            Exception::StoreAMOAddressMisaligned(h0.regs[crate::fields::spec_rs1(inst)]),
        ) && ram1 == ram0)
            &&& (({
            let addr = h0.regs[crate::fields::spec_rs1(inst)];
            let t = crate::mmu::spec_translate(
                ram0,
                h0.csr[crate::csr::SATP as int],
                h0.csr[crate::csr::MSTATUS as int],
                spec_mode_encoding(h0.mode),
                addr,
                crate::mmu::AccessType::ReadWrite,
            );
            addr % 4 == 0 ==> ((t matches Err(e) ==> r == Err::<(), Exception>(e) && ram1 == ram0) && (t matches Ok(pa) ==> (crate::memory::ram_range(pa, 4) ==> r
                == Ok::<(), Exception>(()) && h1.regs == spec_set_reg(
                h0.regs,
                crate::fields::spec_rd(inst),
                (crate::memory::spec_read_u32(ram0, pa) as i32 as i64 as u64),
            ))))
        }))
        },
        Op::AmominD => {
            &&& (view_only_regs_changed(h0, h1))
            &&& (r matches Err(_) ==> h1.regs == h0.regs)
            &&& (h0.regs[crate::fields::spec_rs1(inst)] % 8 != 0 ==> r == Err::<(), Exception>(
            Exception::StoreAMOAddressMisaligned(h0.regs[crate::fields::spec_rs1(inst)]),
        ) && ram1 == ram0)
            &&& (({
            let addr = h0.regs[crate::fields::spec_rs1(inst)];
            let t = crate::mmu::spec_translate(
                ram0,
                h0.csr[crate::csr::SATP as int],
                h0.csr[crate::csr::MSTATUS as int],
                spec_mode_encoding(h0.mode),
                addr,
                crate::mmu::AccessType::ReadWrite,
            );
            addr % 8 == 0 ==> ((t matches Err(e) ==> r == Err::<(), Exception>(e) && ram1 == ram0) && (t matches Ok(pa) ==> (crate::memory::ram_range(pa, 8) ==> r
                == Ok::<(), Exception>(()) && h1.regs == spec_set_reg(
                h0.regs,
                crate::fields::spec_rd(inst),
                ((crate::memory::spec_read_u64(ram0, pa) as i64) as u64),
            ))))
        }))
        },
        Op::AmomaxW => {
            &&& (view_only_regs_changed(h0, h1))
            &&& (r matches Err(_) ==> h1.regs == h0.regs)
            &&& (h0.regs[crate::fields::spec_rs1(inst)] % 4 != 0 ==> r == Err::<(), Exception>(
            Exception::StoreAMOAddressMisaligned(h0.regs[crate::fields::spec_rs1(inst)]),
        ) && ram1 == ram0)
            &&& (({
            let addr = h0.regs[crate::fields::spec_rs1(inst)];
            let t = crate::mmu::spec_translate(
                ram0,
                h0.csr[crate::csr::SATP as int],
                h0.csr[crate::csr::MSTATUS as int],
                spec_mode_encoding(h0.mode),
                addr,
                crate::mmu::AccessType::ReadWrite,
            );
            addr % 4 == 0 ==> ((t matches Err(e) ==> r == Err::<(), Exception>(e) && ram1 == ram0) && (t matches Ok(pa) ==> (crate::memory::ram_range(pa, 4) ==> r
                == Ok::<(), Exception>(()) && h1.regs == spec_set_reg(
                h0.regs,
                crate::fields::spec_rd(inst),
                (crate::memory::spec_read_u32(ram0, pa) as i32 as i64 as u64),
            ))))
        }))
        },
        Op::AmomaxD => {
            &&& (view_only_regs_changed(h0, h1))
            &&& (r matches Err(_) ==> h1.regs == h0.regs)
            &&& (h0.regs[crate::fields::spec_rs1(inst)] % 8 != 0 ==> r == Err::<(), Exception>(
            Exception::StoreAMOAddressMisaligned(h0.regs[crate::fields::spec_rs1(inst)]),
        ) && ram1 == ram0)
            &&& (({
            let addr = h0.regs[crate::fields::spec_rs1(inst)];
            let t = crate::mmu::spec_translate(
                ram0,
                h0.csr[crate::csr::SATP as int],
                h0.csr[crate::csr::MSTATUS as int],
                spec_mode_encoding(h0.mode),
                addr,
                crate::mmu::AccessType::ReadWrite,
            );
            addr % 8 == 0 ==> ((t matches Err(e) ==> r == Err::<(), Exception>(e) && ram1 == ram0) && (t matches Ok(pa) ==> (crate::memory::ram_range(pa, 8) ==> r
                == Ok::<(), Exception>(()) && h1.regs == spec_set_reg(
                h0.regs,
                crate::fields::spec_rd(inst),
                ((crate::memory::spec_read_u64(ram0, pa) as i64) as u64),
            ))))
        }))
        },
        Op::AmominuW => {
            &&& (view_only_regs_changed(h0, h1))
            &&& (r matches Err(_) ==> h1.regs == h0.regs)
            &&& (h0.regs[crate::fields::spec_rs1(inst)] % 4 != 0 ==> r == Err::<(), Exception>(
            Exception::StoreAMOAddressMisaligned(h0.regs[crate::fields::spec_rs1(inst)]),
        ) && ram1 == ram0)
            &&& (({
            let addr = h0.regs[crate::fields::spec_rs1(inst)];
            let t = crate::mmu::spec_translate(
                ram0,
                h0.csr[crate::csr::SATP as int],
                h0.csr[crate::csr::MSTATUS as int],
                spec_mode_encoding(h0.mode),
                addr,
                crate::mmu::AccessType::ReadWrite,
            );
            addr % 4 == 0 ==> ((t matches Err(e) ==> r == Err::<(), Exception>(e) && ram1 == ram0) && (t matches Ok(pa) ==> (crate::memory::ram_range(pa, 4) ==> r
                == Ok::<(), Exception>(()) && h1.regs == spec_set_reg(
                h0.regs,
                crate::fields::spec_rd(inst),
                (crate::memory::spec_read_u32(ram0, pa) as i32 as i64 as u64),
            ))))
        }))
        },
        Op::AmominuD => {
            &&& (view_only_regs_changed(h0, h1))
            &&& (r matches Err(_) ==> h1.regs == h0.regs)
            &&& (h0.regs[crate::fields::spec_rs1(inst)] % 8 != 0 ==> r == Err::<(), Exception>(
            Exception::StoreAMOAddressMisaligned(h0.regs[crate::fields::spec_rs1(inst)]),
        ) && ram1 == ram0)
            &&& (({
            let addr = h0.regs[crate::fields::spec_rs1(inst)];
            let t = crate::mmu::spec_translate(
                ram0,
                h0.csr[crate::csr::SATP as int],
                h0.csr[crate::csr::MSTATUS as int],
                spec_mode_encoding(h0.mode),
                addr,
                crate::mmu::AccessType::ReadWrite,
            );
            addr % 8 == 0 ==> ((t matches Err(e) ==> r == Err::<(), Exception>(e) && ram1 == ram0) && (t matches Ok(pa) ==> (crate::memory::ram_range(pa, 8) ==> r
                == Ok::<(), Exception>(()) && h1.regs == spec_set_reg(
                h0.regs,
                crate::fields::spec_rd(inst),
                crate::memory::spec_read_u64(ram0, pa),
            ))))
        }))
        },
        Op::AmomaxuW => {
            &&& (view_only_regs_changed(h0, h1))
            &&& (r matches Err(_) ==> h1.regs == h0.regs)
            &&& (h0.regs[crate::fields::spec_rs1(inst)] % 4 != 0 ==> r == Err::<(), Exception>(
            Exception::StoreAMOAddressMisaligned(h0.regs[crate::fields::spec_rs1(inst)]),
        ) && ram1 == ram0)
            &&& (({
            let addr = h0.regs[crate::fields::spec_rs1(inst)];
            let t = crate::mmu::spec_translate(
                ram0,
                h0.csr[crate::csr::SATP as int],
                h0.csr[crate::csr::MSTATUS as int],
                spec_mode_encoding(h0.mode),
                addr,
                crate::mmu::AccessType::ReadWrite,
            );
            addr % 4 == 0 ==> ((t matches Err(e) ==> r == Err::<(), Exception>(e) && ram1 == ram0) && (t matches Ok(pa) ==> (crate::memory::ram_range(pa, 4) ==> r
                == Ok::<(), Exception>(()) && h1.regs == spec_set_reg(
                h0.regs,
                crate::fields::spec_rd(inst),
                (crate::memory::spec_read_u32(ram0, pa) as i32 as i64 as u64),
            ))))
        }))
        },
        Op::AmomaxuD => {
            &&& (view_only_regs_changed(h0, h1))
            &&& (r matches Err(_) ==> h1.regs == h0.regs)
            &&& (h0.regs[crate::fields::spec_rs1(inst)] % 8 != 0 ==> r == Err::<(), Exception>(
            Exception::StoreAMOAddressMisaligned(h0.regs[crate::fields::spec_rs1(inst)]),
        ) && ram1 == ram0)
            &&& (({
            let addr = h0.regs[crate::fields::spec_rs1(inst)];
            let t = crate::mmu::spec_translate(
                ram0,
                h0.csr[crate::csr::SATP as int],
                h0.csr[crate::csr::MSTATUS as int],
                spec_mode_encoding(h0.mode),
                addr,
                crate::mmu::AccessType::ReadWrite,
            );
            addr % 8 == 0 ==> ((t matches Err(e) ==> r == Err::<(), Exception>(e) && ram1 == ram0) && (t matches Ok(pa) ==> (crate::memory::ram_range(pa, 8) ==> r
                == Ok::<(), Exception>(()) && h1.regs == spec_set_reg(
                h0.regs,
                crate::fields::spec_rd(inst),
                crate::memory::spec_read_u64(ram0, pa),
            ))))
        }))
        },
        Op::Flw => {
            &&& (ram1 == ram0)
            &&& (rsv1 == rsv0)
            &&& (view_only_fp_changed(h0, h1))
            &&& ((h0.csr[crate::csr::MSTATUS as int] >> 13) & 0x3 == 0 ==> r == Err::<
            (),
            Exception,
        >(Exception::IllegalInstruction) && h1 == h0)
            &&& (({
            let fs_on = (h0.csr[crate::csr::MSTATUS as int] >> 13) & 0x3 != 0;
            let addr = vstd::wrapping::u64_specs::wrapping_add(
                h0.regs[crate::fields::spec_rs1(inst)],
                crate::fields::spec_imm_i(inst),
            );
            let t = crate::mmu::spec_translate(
                ram0,
                h0.csr[crate::csr::SATP as int],
                h0.csr[crate::csr::MSTATUS as int],
                spec_mode_encoding(h0.mode),
                addr,
                crate::mmu::AccessType::Read,
            );
            fs_on && addr % 4 == 0 ==> ((t matches Err(e) ==> r == Err::<(), Exception>(e)) && (
            t matches Ok(pa) ==> (crate::memory::ram_range(pa, 4) ==> r == Ok::<(), Exception>(()) && h1.fregs == h0.fregs.update(
                crate::fields::spec_rd(inst),
                (crate::memory::spec_read_u32(ram0, pa) as u64)
                    | 0xFFFF_FFFF_0000_0000u64,
            ))))
        }))
        },
        Op::Fsw => {
            &&& (view_only_fp_changed(h0, h1))
            &&& (h1.fregs == h0.fregs)
            &&& ((h0.csr[crate::csr::MSTATUS as int] >> 13) & 0x3 == 0 ==> r == Err::<
            (),
            Exception,
        >(Exception::IllegalInstruction) && h1 == h0 && ram1 == ram0)
            &&& (({
            let fs_on = (h0.csr[crate::csr::MSTATUS as int] >> 13) & 0x3 != 0;
            let addr = vstd::wrapping::u64_specs::wrapping_add(
                h0.regs[crate::fields::spec_rs1(inst)],
                crate::fields::spec_imm_s(inst),
            );
            let t = crate::mmu::spec_translate(
                ram0,
                h0.csr[crate::csr::SATP as int],
                h0.csr[crate::csr::MSTATUS as int],
                spec_mode_encoding(h0.mode),
                addr,
                crate::mmu::AccessType::Write,
            );
            fs_on && addr % 4 == 0 ==> ((t matches Err(e) ==> r == Err::<(), Exception>(e) && ram1 == ram0) && (t matches Ok(pa) ==> (crate::memory::ram_range(pa, 4) ==> r == Ok::<
                (),
                Exception,
            >(()) && ram1 == crate::memory::spec_write_u32(
                ram0,
                pa,
                (h0.fregs[crate::fields::spec_rs2(inst)] as u32),
            ))))
        }))
        },
        Op::FmaddS => {
            &&& (view_only_fp_changed(h0, h1) || view_only_regs_changed(h0, h1))
            &&& ((h0.csr[crate::csr::MSTATUS as int] >> 13) & 0x3 == 0 ==> r == Err::<
            (),
            Exception,
        >(Exception::IllegalInstruction) && h1 == h0)
            &&& (({
            let frm = ((h0.csr[crate::csr::FCSR as int] >> 5) & 0x7) as u8;
            let fs_on = (h0.csr[crate::csr::MSTATUS as int] >> 13) & 0x3 != 0;
            let a = if false {
                crate::fputil::spec_unbox(h0.fregs[crate::fields::spec_rs1(inst)]) ^ 0x8000_0000u32
            } else {
                crate::fputil::spec_unbox(h0.fregs[crate::fields::spec_rs1(inst)])
            };
            let b = crate::fputil::spec_unbox(h0.fregs[crate::fields::spec_rs2(inst)]);
            let c = if false {
                crate::fputil::spec_unbox(h0.fregs[crate::fields::spec_rs3(inst)]) ^ 0x8000_0000u32
            } else {
                crate::fputil::spec_unbox(h0.fregs[crate::fields::spec_rs3(inst)])
            };
            &&& (fs_on ==> (crate::fputil::spec_round_mode(crate::fields::spec_rm(inst), frm) matches Err(e) ==> r == Err::<
                (),
                Exception,
            >(e)))
            &&& (fs_on ==> (crate::fputil::spec_round_mode(crate::fields::spec_rm(inst), frm) matches Ok(m) ==> r == Ok::<
                (),
                Exception,
            >(()) && h1.fregs == h0.fregs.update(
                crate::fields::spec_rd(inst),
                (crate::softfloat::spec_f32_fma(a, b, c, m).0 as u64) | 0xFFFF_FFFF_0000_0000u64,
            ) && h1.csr == crate::inst_f::spec_acc_fflags(
                crate::inst_f::spec_fs_dirty(h0.csr),
                crate::fputil::spec_fflags_of_status(crate::softfloat::spec_f32_fma(a, b, c, m).1),
            ) && h1.regs == h0.regs))
        }))
        },
        Op::FmsubS => {
            &&& (view_only_fp_changed(h0, h1) || view_only_regs_changed(h0, h1))
            &&& ((h0.csr[crate::csr::MSTATUS as int] >> 13) & 0x3 == 0 ==> r == Err::<
            (),
            Exception,
        >(Exception::IllegalInstruction) && h1 == h0)
            &&& (({
            let frm = ((h0.csr[crate::csr::FCSR as int] >> 5) & 0x7) as u8;
            let fs_on = (h0.csr[crate::csr::MSTATUS as int] >> 13) & 0x3 != 0;
            let a = if false {
                crate::fputil::spec_unbox(h0.fregs[crate::fields::spec_rs1(inst)]) ^ 0x8000_0000u32
            } else {
                crate::fputil::spec_unbox(h0.fregs[crate::fields::spec_rs1(inst)])
            };
            let b = crate::fputil::spec_unbox(h0.fregs[crate::fields::spec_rs2(inst)]);
            let c = if true {
                crate::fputil::spec_unbox(h0.fregs[crate::fields::spec_rs3(inst)]) ^ 0x8000_0000u32
            } else {
                crate::fputil::spec_unbox(h0.fregs[crate::fields::spec_rs3(inst)])
            };
            &&& (fs_on ==> (crate::fputil::spec_round_mode(crate::fields::spec_rm(inst), frm) matches Err(e) ==> r == Err::<
                (),
                Exception,
            >(e)))
            &&& (fs_on ==> (crate::fputil::spec_round_mode(crate::fields::spec_rm(inst), frm) matches Ok(m) ==> r == Ok::<
                (),
                Exception,
            >(()) && h1.fregs == h0.fregs.update(
                crate::fields::spec_rd(inst),
                (crate::softfloat::spec_f32_fma(a, b, c, m).0 as u64) | 0xFFFF_FFFF_0000_0000u64,
            ) && h1.csr == crate::inst_f::spec_acc_fflags(
                crate::inst_f::spec_fs_dirty(h0.csr),
                crate::fputil::spec_fflags_of_status(crate::softfloat::spec_f32_fma(a, b, c, m).1),
            ) && h1.regs == h0.regs))
        }))
        },
        Op::FnmsubS => {
            &&& (view_only_fp_changed(h0, h1) || view_only_regs_changed(h0, h1))
            &&& ((h0.csr[crate::csr::MSTATUS as int] >> 13) & 0x3 == 0 ==> r == Err::<
            (),
            Exception,
        >(Exception::IllegalInstruction) && h1 == h0)
            &&& (({
            let frm = ((h0.csr[crate::csr::FCSR as int] >> 5) & 0x7) as u8;
            let fs_on = (h0.csr[crate::csr::MSTATUS as int] >> 13) & 0x3 != 0;
            let a = if true {
                crate::fputil::spec_unbox(h0.fregs[crate::fields::spec_rs1(inst)]) ^ 0x8000_0000u32
            } else {
                crate::fputil::spec_unbox(h0.fregs[crate::fields::spec_rs1(inst)])
            };
            let b = crate::fputil::spec_unbox(h0.fregs[crate::fields::spec_rs2(inst)]);
            let c = if false {
                crate::fputil::spec_unbox(h0.fregs[crate::fields::spec_rs3(inst)]) ^ 0x8000_0000u32
            } else {
                crate::fputil::spec_unbox(h0.fregs[crate::fields::spec_rs3(inst)])
            };
            &&& (fs_on ==> (crate::fputil::spec_round_mode(crate::fields::spec_rm(inst), frm) matches Err(e) ==> r == Err::<
                (),
                Exception,
            >(e)))
            &&& (fs_on ==> (crate::fputil::spec_round_mode(crate::fields::spec_rm(inst), frm) matches Ok(m) ==> r == Ok::<
                (),
                Exception,
            >(()) && h1.fregs == h0.fregs.update(
                crate::fields::spec_rd(inst),
                (crate::softfloat::spec_f32_fma(a, b, c, m).0 as u64) | 0xFFFF_FFFF_0000_0000u64,
            ) && h1.csr == crate::inst_f::spec_acc_fflags(
                crate::inst_f::spec_fs_dirty(h0.csr),
                crate::fputil::spec_fflags_of_status(crate::softfloat::spec_f32_fma(a, b, c, m).1),
            ) && h1.regs == h0.regs))
        }))
        },
        Op::FnmaddS => {
            &&& (view_only_fp_changed(h0, h1) || view_only_regs_changed(h0, h1))
            &&& ((h0.csr[crate::csr::MSTATUS as int] >> 13) & 0x3 == 0 ==> r == Err::<
            (),
            Exception,
        >(Exception::IllegalInstruction) && h1 == h0)
            &&& (({
            let frm = ((h0.csr[crate::csr::FCSR as int] >> 5) & 0x7) as u8;
            let fs_on = (h0.csr[crate::csr::MSTATUS as int] >> 13) & 0x3 != 0;
            let a = if true {
                crate::fputil::spec_unbox(h0.fregs[crate::fields::spec_rs1(inst)]) ^ 0x8000_0000u32
            } else {
                crate::fputil::spec_unbox(h0.fregs[crate::fields::spec_rs1(inst)])
            };
            let b = crate::fputil::spec_unbox(h0.fregs[crate::fields::spec_rs2(inst)]);
            let c = if true {
                crate::fputil::spec_unbox(h0.fregs[crate::fields::spec_rs3(inst)]) ^ 0x8000_0000u32
            } else {
                crate::fputil::spec_unbox(h0.fregs[crate::fields::spec_rs3(inst)])
            };
            &&& (fs_on ==> (crate::fputil::spec_round_mode(crate::fields::spec_rm(inst), frm) matches Err(e) ==> r == Err::<
                (),
                Exception,
            >(e)))
            &&& (fs_on ==> (crate::fputil::spec_round_mode(crate::fields::spec_rm(inst), frm) matches Ok(m) ==> r == Ok::<
                (),
                Exception,
            >(()) && h1.fregs == h0.fregs.update(
                crate::fields::spec_rd(inst),
                (crate::softfloat::spec_f32_fma(a, b, c, m).0 as u64) | 0xFFFF_FFFF_0000_0000u64,
            ) && h1.csr == crate::inst_f::spec_acc_fflags(
                crate::inst_f::spec_fs_dirty(h0.csr),
                crate::fputil::spec_fflags_of_status(crate::softfloat::spec_f32_fma(a, b, c, m).1),
            ) && h1.regs == h0.regs))
        }))
        },
        Op::FaddS => {
            &&& (view_only_fp_changed(h0, h1) || view_only_regs_changed(h0, h1))
            &&& ((h0.csr[crate::csr::MSTATUS as int] >> 13) & 0x3 == 0 ==> r == Err::<
            (),
            Exception,
        >(Exception::IllegalInstruction) && h1 == h0)
            &&& (({
            let frm = ((h0.csr[crate::csr::FCSR as int] >> 5) & 0x7) as u8;
            let fs_on = (h0.csr[crate::csr::MSTATUS as int] >> 13) & 0x3 != 0;
            let a = crate::fputil::spec_unbox(h0.fregs[crate::fields::spec_rs1(inst)]);
            let b = crate::fputil::spec_unbox(h0.fregs[crate::fields::spec_rs2(inst)]);
            &&& (fs_on ==> (crate::fputil::spec_round_mode(crate::fields::spec_rm(inst), frm) matches Err(e) ==> r == Err::<
                (),
                Exception,
            >(e)))
            &&& (fs_on ==> (crate::fputil::spec_round_mode(crate::fields::spec_rm(inst), frm) matches Ok(m) ==> r == Ok::<
                (),
                Exception,
            >(()) && h1.fregs == h0.fregs.update(
                crate::fields::spec_rd(inst),
                (crate::softfloat::spec_f32_add(a, b, m).0 as u64) | 0xFFFF_FFFF_0000_0000u64,
            ) && h1.csr == crate::inst_f::spec_acc_fflags(
                crate::inst_f::spec_fs_dirty(h0.csr),
                crate::fputil::spec_fflags_of_status(crate::softfloat::spec_f32_add(a, b, m).1),
            ) && h1.regs == h0.regs))
        }))
        },
        Op::FsubS => {
            &&& (view_only_fp_changed(h0, h1) || view_only_regs_changed(h0, h1))
            &&& ((h0.csr[crate::csr::MSTATUS as int] >> 13) & 0x3 == 0 ==> r == Err::<
            (),
            Exception,
        >(Exception::IllegalInstruction) && h1 == h0)
            &&& (({
            let frm = ((h0.csr[crate::csr::FCSR as int] >> 5) & 0x7) as u8;
            let fs_on = (h0.csr[crate::csr::MSTATUS as int] >> 13) & 0x3 != 0;
            let a = crate::fputil::spec_unbox(h0.fregs[crate::fields::spec_rs1(inst)]);
            let b = crate::fputil::spec_unbox(h0.fregs[crate::fields::spec_rs2(inst)]);
            &&& (fs_on ==> (crate::fputil::spec_round_mode(crate::fields::spec_rm(inst), frm) matches Err(e) ==> r == Err::<
                (),
                Exception,
            >(e)))
            &&& (fs_on ==> (crate::fputil::spec_round_mode(crate::fields::spec_rm(inst), frm) matches Ok(m) ==> r == Ok::<
                (),
                Exception,
            >(()) && h1.fregs == h0.fregs.update(
                crate::fields::spec_rd(inst),
                (crate::softfloat::spec_f32_sub(a, b, m).0 as u64) | 0xFFFF_FFFF_0000_0000u64,
            ) && h1.csr == crate::inst_f::spec_acc_fflags(
                crate::inst_f::spec_fs_dirty(h0.csr),
                crate::fputil::spec_fflags_of_status(crate::softfloat::spec_f32_sub(a, b, m).1),
            ) && h1.regs == h0.regs))
        }))
        },
        Op::FmulS => {
            &&& (view_only_fp_changed(h0, h1) || view_only_regs_changed(h0, h1))
            &&& ((h0.csr[crate::csr::MSTATUS as int] >> 13) & 0x3 == 0 ==> r == Err::<
            (),
            Exception,
        >(Exception::IllegalInstruction) && h1 == h0)
            &&& (({
            let frm = ((h0.csr[crate::csr::FCSR as int] >> 5) & 0x7) as u8;
            let fs_on = (h0.csr[crate::csr::MSTATUS as int] >> 13) & 0x3 != 0;
            let a = crate::fputil::spec_unbox(h0.fregs[crate::fields::spec_rs1(inst)]);
            let b = crate::fputil::spec_unbox(h0.fregs[crate::fields::spec_rs2(inst)]);
            &&& (fs_on ==> (crate::fputil::spec_round_mode(crate::fields::spec_rm(inst), frm) matches Err(e) ==> r == Err::<
                (),
                Exception,
            >(e)))
            &&& (fs_on ==> (crate::fputil::spec_round_mode(crate::fields::spec_rm(inst), frm) matches Ok(m) ==> r == Ok::<
                (),
                Exception,
            >(()) && h1.fregs == h0.fregs.update(
                crate::fields::spec_rd(inst),
                (crate::softfloat::spec_f32_mul(a, b, m).0 as u64) | 0xFFFF_FFFF_0000_0000u64,
            ) && h1.csr == crate::inst_f::spec_acc_fflags(
                crate::inst_f::spec_fs_dirty(h0.csr),
                crate::fputil::spec_fflags_of_status(crate::softfloat::spec_f32_mul(a, b, m).1),
            ) && h1.regs == h0.regs))
        }))
        },
        Op::FdivS => {
            &&& (view_only_fp_changed(h0, h1) || view_only_regs_changed(h0, h1))
            &&& ((h0.csr[crate::csr::MSTATUS as int] >> 13) & 0x3 == 0 ==> r == Err::<
            (),
            Exception,
        >(Exception::IllegalInstruction) && h1 == h0)
            &&& (({
            let frm = ((h0.csr[crate::csr::FCSR as int] >> 5) & 0x7) as u8;
            let fs_on = (h0.csr[crate::csr::MSTATUS as int] >> 13) & 0x3 != 0;
            let a = crate::fputil::spec_unbox(h0.fregs[crate::fields::spec_rs1(inst)]);
            let b = crate::fputil::spec_unbox(h0.fregs[crate::fields::spec_rs2(inst)]);
            &&& (fs_on ==> (crate::fputil::spec_round_mode(crate::fields::spec_rm(inst), frm) matches Err(e) ==> r == Err::<
                (),
                Exception,
            >(e)))
            &&& (fs_on ==> (crate::fputil::spec_round_mode(crate::fields::spec_rm(inst), frm) matches Ok(m) ==> r == Ok::<
                (),
                Exception,
            >(()) && h1.fregs == h0.fregs.update(
                crate::fields::spec_rd(inst),
                (crate::softfloat::spec_f32_div(a, b, m).0 as u64) | 0xFFFF_FFFF_0000_0000u64,
            ) && h1.csr == crate::inst_f::spec_acc_fflags(
                crate::inst_f::spec_fs_dirty(h0.csr),
                crate::fputil::spec_fflags_of_status(crate::softfloat::spec_f32_div(a, b, m).1),
            ) && h1.regs == h0.regs))
        }))
        },
        Op::FsqrtS => {
            &&& (view_only_fp_changed(h0, h1))
            &&& ((h0.csr[crate::csr::MSTATUS as int] >> 13) & 0x3 == 0 ==> r == Err::<
            (),
            Exception,
        >(Exception::IllegalInstruction) && h1 == h0)
            &&& (({
            let frm = ((h0.csr[crate::csr::FCSR as int] >> 5) & 0x7) as u8;
            let fs_on = (h0.csr[crate::csr::MSTATUS as int] >> 13) & 0x3 != 0;
            let a = crate::fputil::spec_unbox(h0.fregs[crate::fields::spec_rs1(inst)]);
            &&& (fs_on ==> (crate::fputil::spec_round_mode(crate::fields::spec_rm(inst), frm) matches Err(e) ==> r == Err::<
                (),
                Exception,
            >(e)))
            &&& (fs_on ==> (crate::fputil::spec_round_mode(crate::fields::spec_rm(inst), frm) matches Ok(m) ==> r == Ok::<
                (),
                Exception,
            >(()) && h1.regs == h0.regs && (crate::fputil::spec_f32_is_nan(a)
                || (a >> 31 == 1 && a & 0x7FFF_FFFF != 0) ==> h1.fregs == h0.fregs.update(
                crate::fields::spec_rd(inst),
                (crate::fputil::F32_QNAN as u64) | 0xFFFF_FFFF_0000_0000u64,
            )) && (!crate::fputil::spec_f32_is_nan(a) && a >> 31 == 0 && a & 0x7FFF_FFFF != 0 && a
                != 0x7F80_0000 ==> (exists|bits: u32, fl: u8|
                #[trigger] crate::inst_f::spec_f32_sqrt_norm(a, m, bits, fl) && h1.fregs == h0.fregs.update(crate::fields::spec_rd(inst), (bits as u64) | 0xFFFF_FFFF_0000_0000u64) && h1.csr == crate::inst_f::spec_acc_fflags(crate::inst_f::spec_fs_dirty(h0.csr), fl)))))
        }))
        },
        Op::FsgnjS => {
            &&& (view_only_fp_changed(h0, h1) || view_only_regs_changed(h0, h1))
            &&& ((h0.csr[crate::csr::MSTATUS as int] >> 13) & 0x3 == 0 ==> r == Err::<
            (),
            Exception,
        >(Exception::IllegalInstruction) && h1 == h0)
            &&& (({
            let fs_on = (h0.csr[crate::csr::MSTATUS as int] >> 13) & 0x3 != 0;
            let a = crate::fputil::spec_unbox(h0.fregs[crate::fields::spec_rs1(inst)]);
            let b = crate::fputil::spec_unbox(h0.fregs[crate::fields::spec_rs2(inst)]);
            let v = if 0 == 0 {
                (a & 0x7FFF_FFFFu32) | (b & 0x8000_0000u32)
            } else if 0 == 1 {
                (a & 0x7FFF_FFFFu32) | ((b ^ 0x8000_0000u32) & 0x8000_0000u32)
            } else {
                a ^ (b & 0x8000_0000u32)
            };
            fs_on ==> r == Ok::<(), Exception>(()) && h1.fregs == h0.fregs.update(crate::fields::spec_rd(inst), (v as u64) | 0xFFFF_FFFF_0000_0000u64) && h1.csr == crate::inst_f::spec_fs_dirty(h0.csr) && h1.regs == h0.regs
        }))
        },
        Op::FsgnjnS => {
            &&& (view_only_fp_changed(h0, h1) || view_only_regs_changed(h0, h1))
            &&& ((h0.csr[crate::csr::MSTATUS as int] >> 13) & 0x3 == 0 ==> r == Err::<
            (),
            Exception,
        >(Exception::IllegalInstruction) && h1 == h0)
            &&& (({
            let fs_on = (h0.csr[crate::csr::MSTATUS as int] >> 13) & 0x3 != 0;
            let a = crate::fputil::spec_unbox(h0.fregs[crate::fields::spec_rs1(inst)]);
            let b = crate::fputil::spec_unbox(h0.fregs[crate::fields::spec_rs2(inst)]);
            let v = if 1 == 0 {
                (a & 0x7FFF_FFFFu32) | (b & 0x8000_0000u32)
            } else if 1 == 1 {
                (a & 0x7FFF_FFFFu32) | ((b ^ 0x8000_0000u32) & 0x8000_0000u32)
            } else {
                a ^ (b & 0x8000_0000u32)
            };
            fs_on ==> r == Ok::<(), Exception>(()) && h1.fregs == h0.fregs.update(crate::fields::spec_rd(inst), (v as u64) | 0xFFFF_FFFF_0000_0000u64) && h1.csr == crate::inst_f::spec_fs_dirty(h0.csr) && h1.regs == h0.regs
        }))
        },
        Op::FsgnjxS => {
            &&& (view_only_fp_changed(h0, h1) || view_only_regs_changed(h0, h1))
            &&& ((h0.csr[crate::csr::MSTATUS as int] >> 13) & 0x3 == 0 ==> r == Err::<
            (),
            Exception,
        >(Exception::IllegalInstruction) && h1 == h0)
            &&& (({
            let fs_on = (h0.csr[crate::csr::MSTATUS as int] >> 13) & 0x3 != 0;
            let a = crate::fputil::spec_unbox(h0.fregs[crate::fields::spec_rs1(inst)]);
            let b = crate::fputil::spec_unbox(h0.fregs[crate::fields::spec_rs2(inst)]);
            let v = if 2 == 0 {
                (a & 0x7FFF_FFFFu32) | (b & 0x8000_0000u32)
            } else if 2 == 1 {
                (a & 0x7FFF_FFFFu32) | ((b ^ 0x8000_0000u32) & 0x8000_0000u32)
            } else {
                a ^ (b & 0x8000_0000u32)
            };
            fs_on ==> r == Ok::<(), Exception>(()) && h1.fregs == h0.fregs.update(crate::fields::spec_rd(inst), (v as u64) | 0xFFFF_FFFF_0000_0000u64) && h1.csr == crate::inst_f::spec_fs_dirty(h0.csr) && h1.regs == h0.regs
        }))
        },
        Op::FminS => {
            &&& (view_only_fp_changed(h0, h1) || view_only_regs_changed(h0, h1))
            &&& ((h0.csr[crate::csr::MSTATUS as int] >> 13) & 0x3 == 0 ==> r == Err::<
            (),
            Exception,
        >(Exception::IllegalInstruction) && h1 == h0)
            &&& (({
            let fs_on = (h0.csr[crate::csr::MSTATUS as int] >> 13) & 0x3 != 0;
            let a = crate::fputil::spec_unbox(h0.fregs[crate::fields::spec_rs1(inst)]);
            let b = crate::fputil::spec_unbox(h0.fregs[crate::fields::spec_rs2(inst)]);
            fs_on ==> r == Ok::<(), Exception>(()) && h1.fregs == h0.fregs.update(
                crate::fields::spec_rd(inst),
                (crate::fputil::spec_f32_minmax(a, b, false) as u64) | 0xFFFF_FFFF_0000_0000u64,
            ) && h1.regs == h0.regs
        }))
        },
        Op::FmaxS => {
            &&& (view_only_fp_changed(h0, h1) || view_only_regs_changed(h0, h1))
            &&& ((h0.csr[crate::csr::MSTATUS as int] >> 13) & 0x3 == 0 ==> r == Err::<
            (),
            Exception,
        >(Exception::IllegalInstruction) && h1 == h0)
            &&& (({
            let fs_on = (h0.csr[crate::csr::MSTATUS as int] >> 13) & 0x3 != 0;
            let a = crate::fputil::spec_unbox(h0.fregs[crate::fields::spec_rs1(inst)]);
            let b = crate::fputil::spec_unbox(h0.fregs[crate::fields::spec_rs2(inst)]);
            fs_on ==> r == Ok::<(), Exception>(()) && h1.fregs == h0.fregs.update(
                crate::fields::spec_rd(inst),
                (crate::fputil::spec_f32_minmax(a, b, true) as u64) | 0xFFFF_FFFF_0000_0000u64,
            ) && h1.regs == h0.regs
        }))
        },
        Op::FcvtWS => {
            &&& (h1.pc == h0.pc && h1.mode == h0.mode && h1.wfi
            == h0.wfi && true)
            &&& (h1.fregs == h0.fregs)
            &&& ((h0.csr[crate::csr::MSTATUS as int] >> 13) & 0x3 == 0 ==> r == Err::<
            (),
            Exception,
        >(Exception::IllegalInstruction) && h1 == h0)
            &&& (({
            let frm = ((h0.csr[crate::csr::FCSR as int] >> 5) & 0x7) as u8;
            let fs_on = (h0.csr[crate::csr::MSTATUS as int] >> 13) & 0x3 != 0;
            let a = crate::fputil::spec_unbox(h0.fregs[crate::fields::spec_rs1(inst)]);
            &&& (fs_on ==> (crate::fputil::spec_round_mode(crate::fields::spec_rm(inst), frm) matches Err(e) ==> r == Err::<
                (),
                Exception,
            >(e)))
            &&& (fs_on ==> (crate::fputil::spec_round_mode(crate::fields::spec_rm(inst), frm) matches Ok(m) ==> r == Ok::<
                (),
                Exception,
            >(()) && h1.regs == spec_set_reg(
                h0.regs,
                crate::fields::spec_rd(inst),
                crate::inst_f::spec_fcvt_int_from_f32(a, m, true, 32).0,
            ) && h1.csr == crate::inst_f::spec_acc_fflags(
                crate::inst_f::spec_fs_dirty(h0.csr),
                crate::inst_f::spec_fcvt_int_from_f32(a, m, true, 32).1,
            )))
        }))
        },
        Op::FcvtWuS => {
            &&& (h1.pc == h0.pc && h1.mode == h0.mode && h1.wfi
            == h0.wfi && true)
            &&& (h1.fregs == h0.fregs)
            &&& ((h0.csr[crate::csr::MSTATUS as int] >> 13) & 0x3 == 0 ==> r == Err::<
            (),
            Exception,
        >(Exception::IllegalInstruction) && h1 == h0)
            &&& (({
            let frm = ((h0.csr[crate::csr::FCSR as int] >> 5) & 0x7) as u8;
            let fs_on = (h0.csr[crate::csr::MSTATUS as int] >> 13) & 0x3 != 0;
            let a = crate::fputil::spec_unbox(h0.fregs[crate::fields::spec_rs1(inst)]);
            &&& (fs_on ==> (crate::fputil::spec_round_mode(crate::fields::spec_rm(inst), frm) matches Err(e) ==> r == Err::<
                (),
                Exception,
            >(e)))
            &&& (fs_on ==> (crate::fputil::spec_round_mode(crate::fields::spec_rm(inst), frm) matches Ok(m) ==> r == Ok::<
                (),
                Exception,
            >(()) && h1.regs == spec_set_reg(
                h0.regs,
                crate::fields::spec_rd(inst),
                crate::inst_f::spec_fcvt_int_from_f32(a, m, false, 32).0,
            ) && h1.csr == crate::inst_f::spec_acc_fflags(
                crate::inst_f::spec_fs_dirty(h0.csr),
                crate::inst_f::spec_fcvt_int_from_f32(a, m, false, 32).1,
            )))
        }))
        },
        Op::FcvtLS => {
            &&& (h1.pc == h0.pc && h1.mode == h0.mode && h1.wfi
            == h0.wfi && true)
            &&& (h1.fregs == h0.fregs)
            &&& ((h0.csr[crate::csr::MSTATUS as int] >> 13) & 0x3 == 0 ==> r == Err::<
            (),
            Exception,
        >(Exception::IllegalInstruction) && h1 == h0)
            &&& (({
            let frm = ((h0.csr[crate::csr::FCSR as int] >> 5) & 0x7) as u8;
            let fs_on = (h0.csr[crate::csr::MSTATUS as int] >> 13) & 0x3 != 0;
            let a = crate::fputil::spec_unbox(h0.fregs[crate::fields::spec_rs1(inst)]);
            &&& (fs_on ==> (crate::fputil::spec_round_mode(crate::fields::spec_rm(inst), frm) matches Err(e) ==> r == Err::<
                (),
                Exception,
            >(e)))
            &&& (fs_on ==> (crate::fputil::spec_round_mode(crate::fields::spec_rm(inst), frm) matches Ok(m) ==> r == Ok::<
                (),
                Exception,
            >(()) && h1.regs == spec_set_reg(
                h0.regs,
                crate::fields::spec_rd(inst),
                crate::inst_f::spec_fcvt_int_from_f32(a, m, true, 64).0,
            ) && h1.csr == crate::inst_f::spec_acc_fflags(
                crate::inst_f::spec_fs_dirty(h0.csr),
                crate::inst_f::spec_fcvt_int_from_f32(a, m, true, 64).1,
            )))
        }))
        },
        Op::FcvtLuS => {
            &&& (h1.pc == h0.pc && h1.mode == h0.mode && h1.wfi
            == h0.wfi && true)
            &&& (h1.fregs == h0.fregs)
            &&& ((h0.csr[crate::csr::MSTATUS as int] >> 13) & 0x3 == 0 ==> r == Err::<
            (),
            Exception,
        >(Exception::IllegalInstruction) && h1 == h0)
            &&& (({
            let frm = ((h0.csr[crate::csr::FCSR as int] >> 5) & 0x7) as u8;
            let fs_on = (h0.csr[crate::csr::MSTATUS as int] >> 13) & 0x3 != 0;
            let a = crate::fputil::spec_unbox(h0.fregs[crate::fields::spec_rs1(inst)]);
            &&& (fs_on ==> (crate::fputil::spec_round_mode(crate::fields::spec_rm(inst), frm) matches Err(e) ==> r == Err::<
                (),
                Exception,
            >(e)))
            &&& (fs_on ==> (crate::fputil::spec_round_mode(crate::fields::spec_rm(inst), frm) matches Ok(m) ==> r == Ok::<
                (),
                Exception,
            >(()) && h1.regs == spec_set_reg(
                h0.regs,
                crate::fields::spec_rd(inst),
                crate::inst_f::spec_fcvt_int_from_f32(a, m, false, 64).0,
            ) && h1.csr == crate::inst_f::spec_acc_fflags(
                crate::inst_f::spec_fs_dirty(h0.csr),
                crate::inst_f::spec_fcvt_int_from_f32(a, m, false, 64).1,
            )))
        }))
        },
        Op::FmvXW => {
            &&& (view_only_fp_changed(h0, h1) || view_only_regs_changed(h0, h1))
            &&& ((h0.csr[crate::csr::MSTATUS as int] >> 13) & 0x3 == 0 ==> r == Err::<
            (),
            Exception,
        >(Exception::IllegalInstruction) && h1 == h0)
            &&& (({
            let fs_on = (h0.csr[crate::csr::MSTATUS as int] >> 13) & 0x3 != 0;
            fs_on ==> r == Ok::<(), Exception>(()) && h1.regs == spec_set_reg(
                h0.regs,
                crate::fields::spec_rd(inst),
                (h0.fregs[crate::fields::spec_rs1(inst)] as u32 as i32 as i64 as u64),
            ) && h1.fregs == h0.fregs && h1.csr == h0.csr
        }))
        },
        Op::FeqS => {
            &&& (h1.pc == h0.pc && h1.mode == h0.mode && h1.wfi
            == h0.wfi && true && h1.fregs == h0.fregs)
            &&& ((h0.csr[crate::csr::MSTATUS as int] >> 13) & 0x3 == 0 ==> r == Err::<
            (),
            Exception,
        >(Exception::IllegalInstruction) && h1 == h0)
            &&& (({
            let fs_on = (h0.csr[crate::csr::MSTATUS as int] >> 13) & 0x3 != 0;
            let a = crate::fputil::spec_unbox(h0.fregs[crate::fields::spec_rs1(inst)]);
            let b = crate::fputil::spec_unbox(h0.fregs[crate::fields::spec_rs2(inst)]);
            let v: u64 = if (2 == 2 && crate::fputil::spec_f32_eq(a, b)) || (2 == 1
                && crate::fputil::spec_f32_lt(a, b)) || (2 == 0 && crate::fputil::spec_f32_le(
                a,
                b,
            )) {
                1
            } else {
                0
            };
            fs_on ==> r == Ok::<(), Exception>(()) && h1.regs == spec_set_reg(
                h0.regs,
                crate::fields::spec_rd(inst),
                v,
            ) && h1.fregs == h0.fregs
        }))
        },
        Op::FltS => {
            &&& (h1.pc == h0.pc && h1.mode == h0.mode && h1.wfi
            == h0.wfi && true && h1.fregs == h0.fregs)
            &&& ((h0.csr[crate::csr::MSTATUS as int] >> 13) & 0x3 == 0 ==> r == Err::<
            (),
            Exception,
        >(Exception::IllegalInstruction) && h1 == h0)
            &&& (({
            let fs_on = (h0.csr[crate::csr::MSTATUS as int] >> 13) & 0x3 != 0;
            let a = crate::fputil::spec_unbox(h0.fregs[crate::fields::spec_rs1(inst)]);
            let b = crate::fputil::spec_unbox(h0.fregs[crate::fields::spec_rs2(inst)]);
            let v: u64 = if (1 == 2 && crate::fputil::spec_f32_eq(a, b)) || (1 == 1
                && crate::fputil::spec_f32_lt(a, b)) || (1 == 0 && crate::fputil::spec_f32_le(
                a,
                b,
            )) {
                1
            } else {
                0
            };
            fs_on ==> r == Ok::<(), Exception>(()) && h1.regs == spec_set_reg(
                h0.regs,
                crate::fields::spec_rd(inst),
                v,
            ) && h1.fregs == h0.fregs
        }))
        },
        Op::FleS => {
            &&& (h1.pc == h0.pc && h1.mode == h0.mode && h1.wfi
            == h0.wfi && true && h1.fregs == h0.fregs)
            &&& ((h0.csr[crate::csr::MSTATUS as int] >> 13) & 0x3 == 0 ==> r == Err::<
            (),
            Exception,
        >(Exception::IllegalInstruction) && h1 == h0)
            &&& (({
            let fs_on = (h0.csr[crate::csr::MSTATUS as int] >> 13) & 0x3 != 0;
            let a = crate::fputil::spec_unbox(h0.fregs[crate::fields::spec_rs1(inst)]);
            let b = crate::fputil::spec_unbox(h0.fregs[crate::fields::spec_rs2(inst)]);
            let v: u64 = if (0 == 2 && crate::fputil::spec_f32_eq(a, b)) || (0 == 1
                && crate::fputil::spec_f32_lt(a, b)) || (0 == 0 && crate::fputil::spec_f32_le(
                a,
                b,
            )) {
                1
            } else {
                0
            };
            fs_on ==> r == Ok::<(), Exception>(()) && h1.regs == spec_set_reg(
                h0.regs,
                crate::fields::spec_rd(inst),
                v,
            ) && h1.fregs == h0.fregs
        }))
        },
        Op::FclassS => {
            &&& (view_only_fp_changed(h0, h1) || view_only_regs_changed(h0, h1))
            &&& ((h0.csr[crate::csr::MSTATUS as int] >> 13) & 0x3 == 0 ==> r == Err::<
            (),
            Exception,
        >(Exception::IllegalInstruction) && h1 == h0)
            &&& (({
            let fs_on = (h0.csr[crate::csr::MSTATUS as int] >> 13) & 0x3 != 0;
            let a = crate::fputil::spec_unbox(h0.fregs[crate::fields::spec_rs1(inst)]);
            fs_on ==> r == Ok::<(), Exception>(()) && h1.regs == spec_set_reg(
                h0.regs,
                crate::fields::spec_rd(inst),
                1u64 << crate::fputil::spec_f32_class_index(a),
            ) && h1.fregs == h0.fregs && h1.csr == h0.csr
        }))
        },
        Op::FcvtSW => {
            &&& (view_only_fp_changed(h0, h1))
            &&& ((h0.csr[crate::csr::MSTATUS as int] >> 13) & 0x3 == 0 ==> r == Err::<
            (),
            Exception,
        >(Exception::IllegalInstruction) && h1 == h0)
            &&& (({
            let frm = ((h0.csr[crate::csr::FCSR as int] >> 5) & 0x7) as u8;
            let fs_on = (h0.csr[crate::csr::MSTATUS as int] >> 13) & 0x3 != 0;
            let x = h0.regs[crate::fields::spec_rs1(inst)];
            let res = if true && 32 == 32 {
                crate::softfloat::spec_f32_from_i(x as u32 as i32 as i64, crate::inst_f::m_of(crate::fields::spec_rm(inst), frm))
            } else if true {
                crate::softfloat::spec_f32_from_i(x as i64, crate::inst_f::m_of(crate::fields::spec_rm(inst), frm))
            } else if 32 == 32 {
                crate::softfloat::spec_f32_from_u((x as u32) as u64, crate::inst_f::m_of(crate::fields::spec_rm(inst), frm))
            } else {
                crate::softfloat::spec_f32_from_u(x, crate::inst_f::m_of(crate::fields::spec_rm(inst), frm))
            };
            &&& (fs_on ==> (crate::fputil::spec_round_mode(crate::fields::spec_rm(inst), frm) matches Err(e) ==> r == Err::<
                (),
                Exception,
            >(e)))
            &&& (fs_on ==> (crate::fputil::spec_round_mode(crate::fields::spec_rm(inst), frm) matches Ok(m) ==> r == Ok::<
                (),
                Exception,
            >(()) && h1.fregs == h0.fregs.update(
                crate::fields::spec_rd(inst),
                (res.0 as u64) | 0xFFFF_FFFF_0000_0000u64,
            ) && h1.csr == crate::inst_f::spec_acc_fflags(
                crate::inst_f::spec_fs_dirty(h0.csr),
                crate::fputil::spec_fflags_of_status(res.1),
            ) && h1.regs == h0.regs))
        }))
        },
        Op::FcvtSWu => {
            &&& (view_only_fp_changed(h0, h1))
            &&& ((h0.csr[crate::csr::MSTATUS as int] >> 13) & 0x3 == 0 ==> r == Err::<
            (),
            Exception,
        >(Exception::IllegalInstruction) && h1 == h0)
            &&& (({
            let frm = ((h0.csr[crate::csr::FCSR as int] >> 5) & 0x7) as u8;
            let fs_on = (h0.csr[crate::csr::MSTATUS as int] >> 13) & 0x3 != 0;
            let x = h0.regs[crate::fields::spec_rs1(inst)];
            let res = if false && 32 == 32 {
                crate::softfloat::spec_f32_from_i(x as u32 as i32 as i64, crate::inst_f::m_of(crate::fields::spec_rm(inst), frm))
            } else if false {
                crate::softfloat::spec_f32_from_i(x as i64, crate::inst_f::m_of(crate::fields::spec_rm(inst), frm))
            } else if 32 == 32 {
                crate::softfloat::spec_f32_from_u((x as u32) as u64, crate::inst_f::m_of(crate::fields::spec_rm(inst), frm))
            } else {
                crate::softfloat::spec_f32_from_u(x, crate::inst_f::m_of(crate::fields::spec_rm(inst), frm))
            };
            &&& (fs_on ==> (crate::fputil::spec_round_mode(crate::fields::spec_rm(inst), frm) matches Err(e) ==> r == Err::<
                (),
                Exception,
            >(e)))
            &&& (fs_on ==> (crate::fputil::spec_round_mode(crate::fields::spec_rm(inst), frm) matches Ok(m) ==> r == Ok::<
                (),
                Exception,
            >(()) && h1.fregs == h0.fregs.update(
                crate::fields::spec_rd(inst),
                (res.0 as u64) | 0xFFFF_FFFF_0000_0000u64,
            ) && h1.csr == crate::inst_f::spec_acc_fflags(
                crate::inst_f::spec_fs_dirty(h0.csr),
                crate::fputil::spec_fflags_of_status(res.1),
            ) && h1.regs == h0.regs))
        }))
        },
        Op::FcvtSL => {
            &&& (view_only_fp_changed(h0, h1))
            &&& ((h0.csr[crate::csr::MSTATUS as int] >> 13) & 0x3 == 0 ==> r == Err::<
            (),
            Exception,
        >(Exception::IllegalInstruction) && h1 == h0)
            &&& (({
            let frm = ((h0.csr[crate::csr::FCSR as int] >> 5) & 0x7) as u8;
            let fs_on = (h0.csr[crate::csr::MSTATUS as int] >> 13) & 0x3 != 0;
            let x = h0.regs[crate::fields::spec_rs1(inst)];
            let res = if true && 64 == 32 {
                crate::softfloat::spec_f32_from_i(x as u32 as i32 as i64, crate::inst_f::m_of(crate::fields::spec_rm(inst), frm))
            } else if true {
                crate::softfloat::spec_f32_from_i(x as i64, crate::inst_f::m_of(crate::fields::spec_rm(inst), frm))
            } else if 64 == 32 {
                crate::softfloat::spec_f32_from_u((x as u32) as u64, crate::inst_f::m_of(crate::fields::spec_rm(inst), frm))
            } else {
                crate::softfloat::spec_f32_from_u(x, crate::inst_f::m_of(crate::fields::spec_rm(inst), frm))
            };
            &&& (fs_on ==> (crate::fputil::spec_round_mode(crate::fields::spec_rm(inst), frm) matches Err(e) ==> r == Err::<
                (),
                Exception,
            >(e)))
            &&& (fs_on ==> (crate::fputil::spec_round_mode(crate::fields::spec_rm(inst), frm) matches Ok(m) ==> r == Ok::<
                (),
                Exception,
            >(()) && h1.fregs == h0.fregs.update(
                crate::fields::spec_rd(inst),
                (res.0 as u64) | 0xFFFF_FFFF_0000_0000u64,
            ) && h1.csr == crate::inst_f::spec_acc_fflags(
                crate::inst_f::spec_fs_dirty(h0.csr),
                crate::fputil::spec_fflags_of_status(res.1),
            ) && h1.regs == h0.regs))
        }))
        },
        Op::FcvtSLu => {
            &&& (view_only_fp_changed(h0, h1))
            &&& ((h0.csr[crate::csr::MSTATUS as int] >> 13) & 0x3 == 0 ==> r == Err::<
            (),
            Exception,
        >(Exception::IllegalInstruction) && h1 == h0)
            &&& (({
            let frm = ((h0.csr[crate::csr::FCSR as int] >> 5) & 0x7) as u8;
            let fs_on = (h0.csr[crate::csr::MSTATUS as int] >> 13) & 0x3 != 0;
            let x = h0.regs[crate::fields::spec_rs1(inst)];
            let res = if false && 64 == 32 {
                crate::softfloat::spec_f32_from_i(x as u32 as i32 as i64, crate::inst_f::m_of(crate::fields::spec_rm(inst), frm))
            } else if false {
                crate::softfloat::spec_f32_from_i(x as i64, crate::inst_f::m_of(crate::fields::spec_rm(inst), frm))
            } else if 64 == 32 {
                crate::softfloat::spec_f32_from_u((x as u32) as u64, crate::inst_f::m_of(crate::fields::spec_rm(inst), frm))
            } else {
                crate::softfloat::spec_f32_from_u(x, crate::inst_f::m_of(crate::fields::spec_rm(inst), frm))
            };
            &&& (fs_on ==> (crate::fputil::spec_round_mode(crate::fields::spec_rm(inst), frm) matches Err(e) ==> r == Err::<
                (),
                Exception,
            >(e)))
            &&& (fs_on ==> (crate::fputil::spec_round_mode(crate::fields::spec_rm(inst), frm) matches Ok(m) ==> r == Ok::<
                (),
                Exception,
            >(()) && h1.fregs == h0.fregs.update(
                crate::fields::spec_rd(inst),
                (res.0 as u64) | 0xFFFF_FFFF_0000_0000u64,
            ) && h1.csr == crate::inst_f::spec_acc_fflags(
                crate::inst_f::spec_fs_dirty(h0.csr),
                crate::fputil::spec_fflags_of_status(res.1),
            ) && h1.regs == h0.regs))
        }))
        },
        Op::FmvWX => {
            &&& (view_only_fp_changed(h0, h1) || view_only_regs_changed(h0, h1))
            &&& ((h0.csr[crate::csr::MSTATUS as int] >> 13) & 0x3 == 0 ==> r == Err::<
            (),
            Exception,
        >(Exception::IllegalInstruction) && h1 == h0)
            &&& (({
            let fs_on = (h0.csr[crate::csr::MSTATUS as int] >> 13) & 0x3 != 0;
            fs_on ==> r == Ok::<(), Exception>(()) && h1.fregs == h0.fregs.update(
                crate::fields::spec_rd(inst),
                ((h0.regs[crate::fields::spec_rs1(inst)] as u32) as u64) | 0xFFFF_FFFF_0000_0000u64,
            ) && h1.csr == crate::inst_f::spec_fs_dirty(h0.csr) && h1.regs == h0.regs
        }))
        },
        Op::Fld => {
            &&& (ram1 == ram0)
            &&& (rsv1 == rsv0)
            &&& (view_only_fp_changed(h0, h1))
            &&& ((h0.csr[crate::csr::MSTATUS as int] >> 13) & 0x3 == 0 ==> r == Err::<
            (),
            Exception,
        >(Exception::IllegalInstruction) && h1 == h0)
            &&& (({
            let fs_on = (h0.csr[crate::csr::MSTATUS as int] >> 13) & 0x3 != 0;
            let addr = vstd::wrapping::u64_specs::wrapping_add(
                h0.regs[crate::fields::spec_rs1(inst)],
                crate::fields::spec_imm_i(inst),
            );
            let t = crate::mmu::spec_translate(
                ram0,
                h0.csr[crate::csr::SATP as int],
                h0.csr[crate::csr::MSTATUS as int],
                spec_mode_encoding(h0.mode),
                addr,
                crate::mmu::AccessType::Read,
            );
            fs_on && addr % 8 == 0 ==> ((t matches Err(e) ==> r == Err::<(), Exception>(e)) && (
            t matches Ok(pa) ==> (crate::memory::ram_range(pa, 8) ==> r == Ok::<(), Exception>(()) && h1.fregs == h0.fregs.update(
                crate::fields::spec_rd(inst),
                crate::memory::spec_read_u64(ram0, pa),
            ))))
        }))
        },
        Op::Fsd => {
            &&& (view_only_fp_changed(h0, h1))
            &&& (h1.fregs == h0.fregs)
            &&& ((h0.csr[crate::csr::MSTATUS as int] >> 13) & 0x3 == 0 ==> r == Err::<
            (),
            Exception,
        >(Exception::IllegalInstruction) && h1 == h0 && ram1 == ram0)
            &&& (({
            let fs_on = (h0.csr[crate::csr::MSTATUS as int] >> 13) & 0x3 != 0;
            let addr = vstd::wrapping::u64_specs::wrapping_add(
                h0.regs[crate::fields::spec_rs1(inst)],
                crate::fields::spec_imm_s(inst),
            );
            let t = crate::mmu::spec_translate(
                ram0,
                h0.csr[crate::csr::SATP as int],
                h0.csr[crate::csr::MSTATUS as int],
                spec_mode_encoding(h0.mode),
                addr,
                crate::mmu::AccessType::Write,
            );
            fs_on && addr % 8 == 0 ==> ((t matches Err(e) ==> r == Err::<(), Exception>(e) && ram1 == ram0) && (t matches Ok(pa) ==> (crate::memory::ram_range(pa, 8) ==> r == Ok::<
                (),
                Exception,
            >(()) && ram1 == crate::memory::spec_write_u64(
                ram0,
                pa,
                h0.fregs[crate::fields::spec_rs2(inst)],
            ))))
        }))
        },
        Op::FmaddD => {
            &&& (view_only_fp_changed(h0, h1) || view_only_regs_changed(h0, h1))
            &&& ((h0.csr[crate::csr::MSTATUS as int] >> 13) & 0x3 == 0 ==> r == Err::<
            (),
            Exception,
        >(Exception::IllegalInstruction) && h1 == h0)
            &&& (({
            let frm = ((h0.csr[crate::csr::FCSR as int] >> 5) & 0x7) as u8;
            let fs_on = (h0.csr[crate::csr::MSTATUS as int] >> 13) & 0x3 != 0;
            let a = if false {
                h0.fregs[crate::fields::spec_rs1(inst)] ^ 0x8000_0000_0000_0000u64
            } else {
                h0.fregs[crate::fields::spec_rs1(inst)]
            };
            let b = h0.fregs[crate::fields::spec_rs2(inst)];
            let c = if false {
                h0.fregs[crate::fields::spec_rs3(inst)] ^ 0x8000_0000_0000_0000u64
            } else {
                h0.fregs[crate::fields::spec_rs3(inst)]
            };
            &&& (fs_on ==> (crate::fputil::spec_round_mode(crate::fields::spec_rm(inst), frm) matches Err(e) ==> r == Err::<
                (),
                Exception,
            >(e)))
            &&& (fs_on ==> (crate::fputil::spec_round_mode(crate::fields::spec_rm(inst), frm) matches Ok(m) ==> r == Ok::<
                (),
                Exception,
            >(()) && h1.fregs == h0.fregs.update(
                crate::fields::spec_rd(inst),
                crate::softfloat::spec_f64_fma(a, b, c, m).0,
            ) && h1.csr == crate::inst_f::spec_acc_fflags(
                crate::inst_f::spec_fs_dirty(h0.csr),
                crate::fputil::spec_fflags_of_status(crate::softfloat::spec_f64_fma(a, b, c, m).1),
            ) && h1.regs == h0.regs))
        }))
        },
        Op::FmsubD => {
            &&& (view_only_fp_changed(h0, h1) || view_only_regs_changed(h0, h1))
            &&& ((h0.csr[crate::csr::MSTATUS as int] >> 13) & 0x3 == 0 ==> r == Err::<
            (),
            Exception,
        >(Exception::IllegalInstruction) && h1 == h0)
            &&& (({
            let frm = ((h0.csr[crate::csr::FCSR as int] >> 5) & 0x7) as u8;
            let fs_on = (h0.csr[crate::csr::MSTATUS as int] >> 13) & 0x3 != 0;
            let a = if false {
                h0.fregs[crate::fields::spec_rs1(inst)] ^ 0x8000_0000_0000_0000u64
            } else {
                h0.fregs[crate::fields::spec_rs1(inst)]
            };
            let b = h0.fregs[crate::fields::spec_rs2(inst)];
            let c = if true {
                h0.fregs[crate::fields::spec_rs3(inst)] ^ 0x8000_0000_0000_0000u64
            } else {
                h0.fregs[crate::fields::spec_rs3(inst)]
            };
            &&& (fs_on ==> (crate::fputil::spec_round_mode(crate::fields::spec_rm(inst), frm) matches Err(e) ==> r == Err::<
                (),
                Exception,
            >(e)))
            &&& (fs_on ==> (crate::fputil::spec_round_mode(crate::fields::spec_rm(inst), frm) matches Ok(m) ==> r == Ok::<
                (),
                Exception,
            >(()) && h1.fregs == h0.fregs.update(
                crate::fields::spec_rd(inst),
                crate::softfloat::spec_f64_fma(a, b, c, m).0,
            ) && h1.csr == crate::inst_f::spec_acc_fflags(
                crate::inst_f::spec_fs_dirty(h0.csr),
                crate::fputil::spec_fflags_of_status(crate::softfloat::spec_f64_fma(a, b, c, m).1),
            ) && h1.regs == h0.regs))
        }))
        },
        Op::FnmsubD => {
            &&& (view_only_fp_changed(h0, h1) || view_only_regs_changed(h0, h1))
            &&& ((h0.csr[crate::csr::MSTATUS as int] >> 13) & 0x3 == 0 ==> r == Err::<
            (),
            Exception,
        >(Exception::IllegalInstruction) && h1 == h0)
            &&& (({
            let frm = ((h0.csr[crate::csr::FCSR as int] >> 5) & 0x7) as u8;
            let fs_on = (h0.csr[crate::csr::MSTATUS as int] >> 13) & 0x3 != 0;
            let a = if true {
                h0.fregs[crate::fields::spec_rs1(inst)] ^ 0x8000_0000_0000_0000u64
            } else {
                h0.fregs[crate::fields::spec_rs1(inst)]
            };
            let b = h0.fregs[crate::fields::spec_rs2(inst)];
            let c = if false {
                h0.fregs[crate::fields::spec_rs3(inst)] ^ 0x8000_0000_0000_0000u64
            } else {
                h0.fregs[crate::fields::spec_rs3(inst)]
            };
            &&& (fs_on ==> (crate::fputil::spec_round_mode(crate::fields::spec_rm(inst), frm) matches Err(e) ==> r == Err::<
                (),
                Exception,
            >(e)))
            &&& (fs_on ==> (crate::fputil::spec_round_mode(crate::fields::spec_rm(inst), frm) matches Ok(m) ==> r == Ok::<
                (),
                Exception,
            >(()) && h1.fregs == h0.fregs.update(
                crate::fields::spec_rd(inst),
                crate::softfloat::spec_f64_fma(a, b, c, m).0,
            ) && h1.csr == crate::inst_f::spec_acc_fflags(
                crate::inst_f::spec_fs_dirty(h0.csr),
                crate::fputil::spec_fflags_of_status(crate::softfloat::spec_f64_fma(a, b, c, m).1),
            ) && h1.regs == h0.regs))
        }))
        },
        Op::FnmaddD => {
            &&& (view_only_fp_changed(h0, h1) || view_only_regs_changed(h0, h1))
            &&& ((h0.csr[crate::csr::MSTATUS as int] >> 13) & 0x3 == 0 ==> r == Err::<
            (),
            Exception,
        >(Exception::IllegalInstruction) && h1 == h0)
            &&& (({
            let frm = ((h0.csr[crate::csr::FCSR as int] >> 5) & 0x7) as u8;
            let fs_on = (h0.csr[crate::csr::MSTATUS as int] >> 13) & 0x3 != 0;
            let a = if true {
                h0.fregs[crate::fields::spec_rs1(inst)] ^ 0x8000_0000_0000_0000u64
            } else {
                h0.fregs[crate::fields::spec_rs1(inst)]
            };
            let b = h0.fregs[crate::fields::spec_rs2(inst)];
            let c = if true {
                h0.fregs[crate::fields::spec_rs3(inst)] ^ 0x8000_0000_0000_0000u64
            } else {
                h0.fregs[crate::fields::spec_rs3(inst)]
            };
            &&& (fs_on ==> (crate::fputil::spec_round_mode(crate::fields::spec_rm(inst), frm) matches Err(e) ==> r == Err::<
                (),
                Exception,
            >(e)))
            &&& (fs_on ==> (crate::fputil::spec_round_mode(crate::fields::spec_rm(inst), frm) matches Ok(m) ==> r == Ok::<
                (),
                Exception,
            >(()) && h1.fregs == h0.fregs.update(
                crate::fields::spec_rd(inst),
                crate::softfloat::spec_f64_fma(a, b, c, m).0,
            ) && h1.csr == crate::inst_f::spec_acc_fflags(
                crate::inst_f::spec_fs_dirty(h0.csr),
                crate::fputil::spec_fflags_of_status(crate::softfloat::spec_f64_fma(a, b, c, m).1),
            ) && h1.regs == h0.regs))
        }))
        },
        Op::FaddD => {
            &&& (view_only_fp_changed(h0, h1) || view_only_regs_changed(h0, h1))
            &&& ((h0.csr[crate::csr::MSTATUS as int] >> 13) & 0x3 == 0 ==> r == Err::<
            (),
            Exception,
        >(Exception::IllegalInstruction) && h1 == h0)
            &&& (({
            let frm = ((h0.csr[crate::csr::FCSR as int] >> 5) & 0x7) as u8;
            let fs_on = (h0.csr[crate::csr::MSTATUS as int] >> 13) & 0x3 != 0;
            let a = h0.fregs[crate::fields::spec_rs1(inst)];
            let b = h0.fregs[crate::fields::spec_rs2(inst)];
            &&& (fs_on ==> (crate::fputil::spec_round_mode(crate::fields::spec_rm(inst), frm) matches Err(e) ==> r == Err::<
                (),
                Exception,
            >(e)))
            &&& (fs_on ==> (crate::fputil::spec_round_mode(crate::fields::spec_rm(inst), frm) matches Ok(m) ==> r == Ok::<
                (),
                Exception,
            >(()) && h1.fregs == h0.fregs.update(
                crate::fields::spec_rd(inst),
                crate::softfloat::spec_f64_add(a, b, m).0,
            ) && h1.csr == crate::inst_f::spec_acc_fflags(
                crate::inst_f::spec_fs_dirty(h0.csr),
                crate::fputil::spec_fflags_of_status(crate::softfloat::spec_f64_add(a, b, m).1),
            ) && h1.regs == h0.regs))
        }))
        },
        Op::FsubD => {
            &&& (view_only_fp_changed(h0, h1) || view_only_regs_changed(h0, h1))
            &&& ((h0.csr[crate::csr::MSTATUS as int] >> 13) & 0x3 == 0 ==> r == Err::<
            (),
            Exception,
        >(Exception::IllegalInstruction) && h1 == h0)
            &&& (({
            let frm = ((h0.csr[crate::csr::FCSR as int] >> 5) & 0x7) as u8;
            let fs_on = (h0.csr[crate::csr::MSTATUS as int] >> 13) & 0x3 != 0;
            let a = h0.fregs[crate::fields::spec_rs1(inst)];
            let b = h0.fregs[crate::fields::spec_rs2(inst)];
            &&& (fs_on ==> (crate::fputil::spec_round_mode(crate::fields::spec_rm(inst), frm) matches Err(e) ==> r == Err::<
                (),
                Exception,
            >(e)))
            &&& (fs_on ==> (crate::fputil::spec_round_mode(crate::fields::spec_rm(inst), frm) matches Ok(m) ==> r == Ok::<
                (),
                Exception,
            >(()) && h1.fregs == h0.fregs.update(
                crate::fields::spec_rd(inst),
                crate::softfloat::spec_f64_sub(a, b, m).0,
            ) && h1.csr == crate::inst_f::spec_acc_fflags(
                crate::inst_f::spec_fs_dirty(h0.csr),
                crate::fputil::spec_fflags_of_status(crate::softfloat::spec_f64_sub(a, b, m).1),
            ) && h1.regs == h0.regs))
        }))
        },
        Op::FmulD => {
            &&& (view_only_fp_changed(h0, h1) || view_only_regs_changed(h0, h1))
            &&& ((h0.csr[crate::csr::MSTATUS as int] >> 13) & 0x3 == 0 ==> r == Err::<
            (),
            Exception,
        >(Exception::IllegalInstruction) && h1 == h0)
            &&& (({
            let frm = ((h0.csr[crate::csr::FCSR as int] >> 5) & 0x7) as u8;
            let fs_on = (h0.csr[crate::csr::MSTATUS as int] >> 13) & 0x3 != 0;
            let a = h0.fregs[crate::fields::spec_rs1(inst)];
            let b = h0.fregs[crate::fields::spec_rs2(inst)];
            &&& (fs_on ==> (crate::fputil::spec_round_mode(crate::fields::spec_rm(inst), frm) matches Err(e) ==> r == Err::<
                (),
                Exception,
            >(e)))
            &&& (fs_on ==> (crate::fputil::spec_round_mode(crate::fields::spec_rm(inst), frm) matches Ok(m) ==> r == Ok::<
                (),
                Exception,
            >(()) && h1.fregs == h0.fregs.update(
                crate::fields::spec_rd(inst),
                crate::softfloat::spec_f64_mul(a, b, m).0,
            ) && h1.csr == crate::inst_f::spec_acc_fflags(
                crate::inst_f::spec_fs_dirty(h0.csr),
                crate::fputil::spec_fflags_of_status(crate::softfloat::spec_f64_mul(a, b, m).1),
            ) && h1.regs == h0.regs))
        }))
        },
        Op::FdivD => {
            &&& (view_only_fp_changed(h0, h1) || view_only_regs_changed(h0, h1))
            &&& ((h0.csr[crate::csr::MSTATUS as int] >> 13) & 0x3 == 0 ==> r == Err::<
            (),
            Exception,
        >(Exception::IllegalInstruction) && h1 == h0)
            &&& (({
            let frm = ((h0.csr[crate::csr::FCSR as int] >> 5) & 0x7) as u8;
            let fs_on = (h0.csr[crate::csr::MSTATUS as int] >> 13) & 0x3 != 0;
            let a = h0.fregs[crate::fields::spec_rs1(inst)];
            let b = h0.fregs[crate::fields::spec_rs2(inst)];
            &&& (fs_on ==> (crate::fputil::spec_round_mode(crate::fields::spec_rm(inst), frm) matches Err(e) ==> r == Err::<
                (),
                Exception,
            >(e)))
            &&& (fs_on ==> (crate::fputil::spec_round_mode(crate::fields::spec_rm(inst), frm) matches Ok(m) ==> r == Ok::<
                (),
                Exception,
            >(()) && h1.fregs == h0.fregs.update(
                crate::fields::spec_rd(inst),
                crate::softfloat::spec_f64_div(a, b, m).0,
            ) && h1.csr == crate::inst_f::spec_acc_fflags(
                crate::inst_f::spec_fs_dirty(h0.csr),
                crate::fputil::spec_fflags_of_status(crate::softfloat::spec_f64_div(a, b, m).1),
            ) && h1.regs == h0.regs))
        }))
        },
        Op::FsqrtD => {
            &&& (view_only_fp_changed(h0, h1))
            &&& ((h0.csr[crate::csr::MSTATUS as int] >> 13) & 0x3 == 0 ==> r == Err::<
            (),
            Exception,
        >(Exception::IllegalInstruction) && h1 == h0)
            &&& (({
            let frm = ((h0.csr[crate::csr::FCSR as int] >> 5) & 0x7) as u8;
            let fs_on = (h0.csr[crate::csr::MSTATUS as int] >> 13) & 0x3 != 0;
            &&& (fs_on ==> (crate::fputil::spec_round_mode(crate::fields::spec_rm(inst), frm) matches Err(e) ==> r == Err::<
                (),
                Exception,
            >(e)))
            &&& (fs_on ==> (crate::fputil::spec_round_mode(crate::fields::spec_rm(inst), frm) matches Ok(m) ==> r == Ok::<
                (),
                Exception,
            >(()) && h1.regs == h0.regs && (crate::fputil::spec_f64_is_nan(
                h0.fregs[crate::fields::spec_rs1(inst)],
            ) || (h0.fregs[crate::fields::spec_rs1(inst)] >> 63 == 1 && h0.fregs[crate::fields::spec_rs1(inst)] & 0x7FFF_FFFF_FFFF_FFFF != 0) ==> h1.fregs == h0.fregs.update(crate::fields::spec_rd(inst), crate::fputil::F64_QNAN)) && ({
                let a = h0.fregs[crate::fields::spec_rs1(inst)];
                !crate::fputil::spec_f64_is_nan(a) && a >> 63 == 0 && a & 0x7FFF_FFFF_FFFF_FFFF
                    != 0 && a != 0x7FF0_0000_0000_0000 ==> (exists|bits: u64, fl: u8|
                    #[trigger] crate::inst_f::spec_f64_sqrt_norm(a, m, bits, fl) && h1.fregs == h0.fregs.update(crate::fields::spec_rd(inst), bits) && h1.csr == crate::inst_f::spec_acc_fflags(crate::inst_f::spec_fs_dirty(h0.csr), fl))
            })))
        }))
        },
        Op::FsgnjD => {
            &&& (view_only_fp_changed(h0, h1) || view_only_regs_changed(h0, h1))
            &&& ((h0.csr[crate::csr::MSTATUS as int] >> 13) & 0x3 == 0 ==> r == Err::<
            (),
            Exception,
        >(Exception::IllegalInstruction) && h1 == h0)
            &&& (({
            let fs_on = (h0.csr[crate::csr::MSTATUS as int] >> 13) & 0x3 != 0;
            let a = h0.fregs[crate::fields::spec_rs1(inst)];
            let b = h0.fregs[crate::fields::spec_rs2(inst)];
            let v = if 0 == 0 {
                (a & 0x7FFF_FFFF_FFFF_FFFFu64) | (b & 0x8000_0000_0000_0000u64)
            } else if 0 == 1 {
                (a & 0x7FFF_FFFF_FFFF_FFFFu64) | ((b ^ 0x8000_0000_0000_0000u64)
                    & 0x8000_0000_0000_0000u64)
            } else {
                a ^ (b & 0x8000_0000_0000_0000u64)
            };
            fs_on ==> r == Ok::<(), Exception>(()) && h1.fregs == h0.fregs.update(crate::fields::spec_rd(inst), v) && h1.csr == crate::inst_f::spec_fs_dirty(
                h0.csr,
            ) && h1.regs == h0.regs
        }))
        },
        Op::FsgnjnD => {
            &&& (view_only_fp_changed(h0, h1) || view_only_regs_changed(h0, h1))
            &&& ((h0.csr[crate::csr::MSTATUS as int] >> 13) & 0x3 == 0 ==> r == Err::<
            (),
            Exception,
        >(Exception::IllegalInstruction) && h1 == h0)
            &&& (({
            let fs_on = (h0.csr[crate::csr::MSTATUS as int] >> 13) & 0x3 != 0;
            let a = h0.fregs[crate::fields::spec_rs1(inst)];
            let b = h0.fregs[crate::fields::spec_rs2(inst)];
            let v = if 1 == 0 {
                (a & 0x7FFF_FFFF_FFFF_FFFFu64) | (b & 0x8000_0000_0000_0000u64)
            } else if 1 == 1 {
                (a & 0x7FFF_FFFF_FFFF_FFFFu64) | ((b ^ 0x8000_0000_0000_0000u64)
                    & 0x8000_0000_0000_0000u64)
            } else {
                a ^ (b & 0x8000_0000_0000_0000u64)
            };
            fs_on ==> r == Ok::<(), Exception>(()) && h1.fregs == h0.fregs.update(crate::fields::spec_rd(inst), v) && h1.csr == crate::inst_f::spec_fs_dirty(
                h0.csr,
            ) && h1.regs == h0.regs
        }))
        },
        Op::FsgnjxD => {
            &&& (view_only_fp_changed(h0, h1) || view_only_regs_changed(h0, h1))
            &&& ((h0.csr[crate::csr::MSTATUS as int] >> 13) & 0x3 == 0 ==> r == Err::<
            (),
            Exception,
        >(Exception::IllegalInstruction) && h1 == h0)
            &&& (({
            let fs_on = (h0.csr[crate::csr::MSTATUS as int] >> 13) & 0x3 != 0;
            let a = h0.fregs[crate::fields::spec_rs1(inst)];
            let b = h0.fregs[crate::fields::spec_rs2(inst)];
            let v = if 2 == 0 {
                (a & 0x7FFF_FFFF_FFFF_FFFFu64) | (b & 0x8000_0000_0000_0000u64)
            } else if 2 == 1 {
                (a & 0x7FFF_FFFF_FFFF_FFFFu64) | ((b ^ 0x8000_0000_0000_0000u64)
                    & 0x8000_0000_0000_0000u64)
            } else {
                a ^ (b & 0x8000_0000_0000_0000u64)
            };
            fs_on ==> r == Ok::<(), Exception>(()) && h1.fregs == h0.fregs.update(crate::fields::spec_rd(inst), v) && h1.csr == crate::inst_f::spec_fs_dirty(
                h0.csr,
            ) && h1.regs == h0.regs
        }))
        },
        Op::FminD => {
            &&& (view_only_fp_changed(h0, h1) || view_only_regs_changed(h0, h1))
            &&& ((h0.csr[crate::csr::MSTATUS as int] >> 13) & 0x3 == 0 ==> r == Err::<
            (),
            Exception,
        >(Exception::IllegalInstruction) && h1 == h0)
            &&& (({
            let fs_on = (h0.csr[crate::csr::MSTATUS as int] >> 13) & 0x3 != 0;
            let a = h0.fregs[crate::fields::spec_rs1(inst)];
            let b = h0.fregs[crate::fields::spec_rs2(inst)];
            fs_on ==> r == Ok::<(), Exception>(()) && h1.fregs == h0.fregs.update(
                crate::fields::spec_rd(inst),
                crate::fputil::spec_f64_minmax(a, b, false),
            ) && h1.regs == h0.regs
        }))
        },
        Op::FmaxD => {
            &&& (view_only_fp_changed(h0, h1) || view_only_regs_changed(h0, h1))
            &&& ((h0.csr[crate::csr::MSTATUS as int] >> 13) & 0x3 == 0 ==> r == Err::<
            (),
            Exception,
        >(Exception::IllegalInstruction) && h1 == h0)
            &&& (({
            let fs_on = (h0.csr[crate::csr::MSTATUS as int] >> 13) & 0x3 != 0;
            let a = h0.fregs[crate::fields::spec_rs1(inst)];
            let b = h0.fregs[crate::fields::spec_rs2(inst)];
            fs_on ==> r == Ok::<(), Exception>(()) && h1.fregs == h0.fregs.update(
                crate::fields::spec_rd(inst),
                crate::fputil::spec_f64_minmax(a, b, true),
            ) && h1.regs == h0.regs
        }))
        },
        Op::FcvtSD => {
            &&& (view_only_fp_changed(h0, h1))
            &&& ((h0.csr[crate::csr::MSTATUS as int] >> 13) & 0x3 == 0 ==> r == Err::<
            (),
            Exception,
        >(Exception::IllegalInstruction) && h1 == h0)
            &&& (({
            let frm = ((h0.csr[crate::csr::FCSR as int] >> 5) & 0x7) as u8;
            let fs_on = (h0.csr[crate::csr::MSTATUS as int] >> 13) & 0x3 != 0;
            let a = h0.fregs[crate::fields::spec_rs1(inst)];
            &&& (fs_on ==> (crate::fputil::spec_round_mode(crate::fields::spec_rm(inst), frm) matches Err(e) ==> r == Err::<
                (),
                Exception,
            >(e)))
            &&& (fs_on ==> (crate::fputil::spec_round_mode(crate::fields::spec_rm(inst), frm) matches Ok(m) ==> r == Ok::<
                (),
                Exception,
            >(()) && h1.fregs == h0.fregs.update(
                crate::fields::spec_rd(inst),
                (crate::softfloat::spec_f64_to_f32(a, m).0 as u64) | 0xFFFF_FFFF_0000_0000u64,
            ) && h1.regs == h0.regs))
        }))
        },
        Op::FcvtDS => {
            &&& (view_only_fp_changed(h0, h1))
            &&& ((h0.csr[crate::csr::MSTATUS as int] >> 13) & 0x3 == 0 ==> r == Err::<
            (),
            Exception,
        >(Exception::IllegalInstruction) && h1 == h0)
            &&& (({
            let fs_on = (h0.csr[crate::csr::MSTATUS as int] >> 13) & 0x3 != 0;
            let a = crate::fputil::spec_unbox(h0.fregs[crate::fields::spec_rs1(inst)]);
            fs_on ==> r == Ok::<(), Exception>(()) && h1.fregs == h0.fregs.update(crate::fields::spec_rd(inst), crate::softfloat::spec_f32_to_f64(a).0) && h1.regs == h0.regs
        }))
        },
        Op::FeqD => {
            &&& (h1.pc == h0.pc && h1.mode == h0.mode && h1.wfi
            == h0.wfi && true && h1.fregs == h0.fregs)
            &&& ((h0.csr[crate::csr::MSTATUS as int] >> 13) & 0x3 == 0 ==> r == Err::<
            (),
            Exception,
        >(Exception::IllegalInstruction) && h1 == h0)
            &&& (({
            let fs_on = (h0.csr[crate::csr::MSTATUS as int] >> 13) & 0x3 != 0;
            let a = h0.fregs[crate::fields::spec_rs1(inst)];
            let b = h0.fregs[crate::fields::spec_rs2(inst)];
            let v: u64 = if (2 == 2 && crate::fputil::spec_f64_eq(a, b)) || (2 == 1
                && crate::fputil::spec_f64_lt(a, b)) || (2 == 0 && crate::fputil::spec_f64_le(
                a,
                b,
            )) {
                1
            } else {
                0
            };
            fs_on ==> r == Ok::<(), Exception>(()) && h1.regs == spec_set_reg(
                h0.regs,
                crate::fields::spec_rd(inst),
                v,
            )
        }))
        },
        Op::FltD => {
            &&& (h1.pc == h0.pc && h1.mode == h0.mode && h1.wfi
            == h0.wfi && true && h1.fregs == h0.fregs)
            &&& ((h0.csr[crate::csr::MSTATUS as int] >> 13) & 0x3 == 0 ==> r == Err::<
            (),
            Exception,
        >(Exception::IllegalInstruction) && h1 == h0)
            &&& (({
            let fs_on = (h0.csr[crate::csr::MSTATUS as int] >> 13) & 0x3 != 0;
            let a = h0.fregs[crate::fields::spec_rs1(inst)];
            let b = h0.fregs[crate::fields::spec_rs2(inst)];
            let v: u64 = if (1 == 2 && crate::fputil::spec_f64_eq(a, b)) || (1 == 1
                && crate::fputil::spec_f64_lt(a, b)) || (1 == 0 && crate::fputil::spec_f64_le(
                a,
                b,
            )) {
                1
            } else {
                0
            };
            fs_on ==> r == Ok::<(), Exception>(()) && h1.regs == spec_set_reg(
                h0.regs,
                crate::fields::spec_rd(inst),
                v,
            )
        }))
        },
        Op::FleD => {
            &&& (h1.pc == h0.pc && h1.mode == h0.mode && h1.wfi
            == h0.wfi && true && h1.fregs == h0.fregs)
            &&& ((h0.csr[crate::csr::MSTATUS as int] >> 13) & 0x3 == 0 ==> r == Err::<
            (),
            Exception,
        >(Exception::IllegalInstruction) && h1 == h0)
            &&& (({
            let fs_on = (h0.csr[crate::csr::MSTATUS as int] >> 13) & 0x3 != 0;
            let a = h0.fregs[crate::fields::spec_rs1(inst)];
            let b = h0.fregs[crate::fields::spec_rs2(inst)];
            let v: u64 = if (0 == 2 && crate::fputil::spec_f64_eq(a, b)) || (0 == 1
                && crate::fputil::spec_f64_lt(a, b)) || (0 == 0 && crate::fputil::spec_f64_le(
                a,
                b,
            )) {
                1
            } else {
                0
            };
            fs_on ==> r == Ok::<(), Exception>(()) && h1.regs == spec_set_reg(
                h0.regs,
                crate::fields::spec_rd(inst),
                v,
            )
        }))
        },
        Op::FclassD => {
            &&& (view_only_regs_changed(h0, h1))
            &&& ((h0.csr[crate::csr::MSTATUS as int] >> 13) & 0x3 == 0 ==> r == Err::<
            (),
            Exception,
        >(Exception::IllegalInstruction) && h1 == h0)
            &&& (({
            let fs_on = (h0.csr[crate::csr::MSTATUS as int] >> 13) & 0x3 != 0;
            let a = h0.fregs[crate::fields::spec_rs1(inst)];
            fs_on ==> r == Ok::<(), Exception>(()) && h1.regs == spec_set_reg(
                h0.regs,
                crate::fields::spec_rd(inst),
                1u64 << crate::fputil::spec_f64_class_index(a),
            ) && h1.csr == h0.csr
        }))
        },
        Op::FcvtWD => {
            &&& (h1.pc == h0.pc && h1.mode == h0.mode && h1.wfi
            == h0.wfi && true)
            &&& (h1.fregs == h0.fregs)
            &&& ((h0.csr[crate::csr::MSTATUS as int] >> 13) & 0x3 == 0 ==> r == Err::<
            (),
            Exception,
        >(Exception::IllegalInstruction) && h1 == h0)
            &&& (({
            let frm = ((h0.csr[crate::csr::FCSR as int] >> 5) & 0x7) as u8;
            let fs_on = (h0.csr[crate::csr::MSTATUS as int] >> 13) & 0x3 != 0;
            let a = h0.fregs[crate::fields::spec_rs1(inst)];
            &&& (fs_on ==> (crate::fputil::spec_round_mode(crate::fields::spec_rm(inst), frm) matches Err(e) ==> r == Err::<
                (),
                Exception,
            >(e)))
            &&& (fs_on ==> (crate::fputil::spec_round_mode(crate::fields::spec_rm(inst), frm) matches Ok(m) ==> r == Ok::<
                (),
                Exception,
            >(()) && h1.regs == spec_set_reg(
                h0.regs,
                crate::fields::spec_rd(inst),
                crate::inst_d::spec_fcvt_int_from_f64(a, m, true, 32).0,
            ) && h1.csr == crate::inst_f::spec_acc_fflags(
                crate::inst_f::spec_fs_dirty(h0.csr),
                crate::inst_d::spec_fcvt_int_from_f64(a, m, true, 32).1,
            )))
        }))
        },
        Op::FcvtWuD => {
            &&& (h1.pc == h0.pc && h1.mode == h0.mode && h1.wfi
            == h0.wfi && true)
            &&& (h1.fregs == h0.fregs)
            &&& ((h0.csr[crate::csr::MSTATUS as int] >> 13) & 0x3 == 0 ==> r == Err::<
            (),
            Exception,
        >(Exception::IllegalInstruction) && h1 == h0)
            &&& (({
            let frm = ((h0.csr[crate::csr::FCSR as int] >> 5) & 0x7) as u8;
            let fs_on = (h0.csr[crate::csr::MSTATUS as int] >> 13) & 0x3 != 0;
            let a = h0.fregs[crate::fields::spec_rs1(inst)];
            &&& (fs_on ==> (crate::fputil::spec_round_mode(crate::fields::spec_rm(inst), frm) matches Err(e) ==> r == Err::<
                (),
                Exception,
            >(e)))
            &&& (fs_on ==> (crate::fputil::spec_round_mode(crate::fields::spec_rm(inst), frm) matches Ok(m) ==> r == Ok::<
                (),
                Exception,
            >(()) && h1.regs == spec_set_reg(
                h0.regs,
                crate::fields::spec_rd(inst),
                crate::inst_d::spec_fcvt_int_from_f64(a, m, false, 32).0,
            ) && h1.csr == crate::inst_f::spec_acc_fflags(
                crate::inst_f::spec_fs_dirty(h0.csr),
                crate::inst_d::spec_fcvt_int_from_f64(a, m, false, 32).1,
            )))
        }))
        },
        Op::FcvtLD => {
            &&& (h1.pc == h0.pc && h1.mode == h0.mode && h1.wfi
            == h0.wfi && true)
            &&& (h1.fregs == h0.fregs)
            &&& ((h0.csr[crate::csr::MSTATUS as int] >> 13) & 0x3 == 0 ==> r == Err::<
            (),
            Exception,
        >(Exception::IllegalInstruction) && h1 == h0)
            &&& (({
            let frm = ((h0.csr[crate::csr::FCSR as int] >> 5) & 0x7) as u8;
            let fs_on = (h0.csr[crate::csr::MSTATUS as int] >> 13) & 0x3 != 0;
            let a = h0.fregs[crate::fields::spec_rs1(inst)];
            &&& (fs_on ==> (crate::fputil::spec_round_mode(crate::fields::spec_rm(inst), frm) matches Err(e) ==> r == Err::<
                (),
                Exception,
            >(e)))
            &&& (fs_on ==> (crate::fputil::spec_round_mode(crate::fields::spec_rm(inst), frm) matches Ok(m) ==> r == Ok::<
                (),
                Exception,
            >(()) && h1.regs == spec_set_reg(
                h0.regs,
                crate::fields::spec_rd(inst),
                crate::inst_d::spec_fcvt_int_from_f64(a, m, true, 64).0,
            ) && h1.csr == crate::inst_f::spec_acc_fflags(
                crate::inst_f::spec_fs_dirty(h0.csr),
                crate::inst_d::spec_fcvt_int_from_f64(a, m, true, 64).1,
            )))
        }))
        },
        Op::FcvtLuD => {
            &&& (h1.pc == h0.pc && h1.mode == h0.mode && h1.wfi
            == h0.wfi && true)
            &&& (h1.fregs == h0.fregs)
            &&& ((h0.csr[crate::csr::MSTATUS as int] >> 13) & 0x3 == 0 ==> r == Err::<
            (),
            Exception,
        >(Exception::IllegalInstruction) && h1 == h0)
            &&& (({
            let frm = ((h0.csr[crate::csr::FCSR as int] >> 5) & 0x7) as u8;
            let fs_on = (h0.csr[crate::csr::MSTATUS as int] >> 13) & 0x3 != 0;
            let a = h0.fregs[crate::fields::spec_rs1(inst)];
            &&& (fs_on ==> (crate::fputil::spec_round_mode(crate::fields::spec_rm(inst), frm) matches Err(e) ==> r == Err::<
                (),
                Exception,
            >(e)))
            &&& (fs_on ==> (crate::fputil::spec_round_mode(crate::fields::spec_rm(inst), frm) matches Ok(m) ==> r == Ok::<
                (),
                Exception,
            >(()) && h1.regs == spec_set_reg(
                h0.regs,
                crate::fields::spec_rd(inst),
                crate::inst_d::spec_fcvt_int_from_f64(a, m, false, 64).0,
            ) && h1.csr == crate::inst_f::spec_acc_fflags(
                crate::inst_f::spec_fs_dirty(h0.csr),
                crate::inst_d::spec_fcvt_int_from_f64(a, m, false, 64).1,
            )))
        }))
        },
        Op::FcvtDW => {
            &&& (view_only_fp_changed(h0, h1))
            &&& ((h0.csr[crate::csr::MSTATUS as int] >> 13) & 0x3 == 0 ==> r == Err::<
            (),
            Exception,
        >(Exception::IllegalInstruction) && h1 == h0)
            &&& (({
            let frm = ((h0.csr[crate::csr::FCSR as int] >> 5) & 0x7) as u8;
            let fs_on = (h0.csr[crate::csr::MSTATUS as int] >> 13) & 0x3 != 0;
            let x = h0.regs[crate::fields::spec_rs1(inst)];
            let res = if true && 32 == 32 {
                crate::softfloat::spec_f64_from_i(x as u32 as i32 as i64, crate::inst_f::m_of(crate::fields::spec_rm(inst), frm))
            } else if true {
                crate::softfloat::spec_f64_from_i(x as i64, crate::inst_f::m_of(crate::fields::spec_rm(inst), frm))
            } else if 32 == 32 {
                crate::softfloat::spec_f64_from_u((x as u32) as u64, crate::inst_f::m_of(crate::fields::spec_rm(inst), frm))
            } else {
                crate::softfloat::spec_f64_from_u(x, crate::inst_f::m_of(crate::fields::spec_rm(inst), frm))
            };
            &&& (fs_on ==> (crate::fputil::spec_round_mode(crate::fields::spec_rm(inst), frm) matches Err(e) ==> r == Err::<
                (),
                Exception,
            >(e)))
            &&& (fs_on ==> (crate::fputil::spec_round_mode(crate::fields::spec_rm(inst), frm) matches Ok(m) ==> r == Ok::<
                (),
                Exception,
            >(()) && h1.fregs == h0.fregs.update(crate::fields::spec_rd(inst), res.0) && h1.csr == crate::inst_f::spec_acc_fflags(
                crate::inst_f::spec_fs_dirty(h0.csr),
                crate::fputil::spec_fflags_of_status(res.1),
            ) && h1.regs == h0.regs))
        }))
        },
        Op::FcvtDWu => {
            &&& (view_only_fp_changed(h0, h1))
            &&& ((h0.csr[crate::csr::MSTATUS as int] >> 13) & 0x3 == 0 ==> r == Err::<
            (),
            Exception,
        >(Exception::IllegalInstruction) && h1 == h0)
            &&& (({
            let frm = ((h0.csr[crate::csr::FCSR as int] >> 5) & 0x7) as u8;
            let fs_on = (h0.csr[crate::csr::MSTATUS as int] >> 13) & 0x3 != 0;
            let x = h0.regs[crate::fields::spec_rs1(inst)];
            let res = if false && 32 == 32 {
                crate::softfloat::spec_f64_from_i(x as u32 as i32 as i64, crate::inst_f::m_of(crate::fields::spec_rm(inst), frm))
            } else if false {
                crate::softfloat::spec_f64_from_i(x as i64, crate::inst_f::m_of(crate::fields::spec_rm(inst), frm))
            } else if 32 == 32 {
                crate::softfloat::spec_f64_from_u((x as u32) as u64, crate::inst_f::m_of(crate::fields::spec_rm(inst), frm))
            } else {
                crate::softfloat::spec_f64_from_u(x, crate::inst_f::m_of(crate::fields::spec_rm(inst), frm))
            };
            &&& (fs_on ==> (crate::fputil::spec_round_mode(crate::fields::spec_rm(inst), frm) matches Err(e) ==> r == Err::<
                (),
                Exception,
            >(e)))
            &&& (fs_on ==> (crate::fputil::spec_round_mode(crate::fields::spec_rm(inst), frm) matches Ok(m) ==> r == Ok::<
                (),
                Exception,
            >(()) && h1.fregs == h0.fregs.update(crate::fields::spec_rd(inst), res.0) && h1.csr == crate::inst_f::spec_acc_fflags(
                crate::inst_f::spec_fs_dirty(h0.csr),
                crate::fputil::spec_fflags_of_status(res.1),
            ) && h1.regs == h0.regs))
        }))
        },
        Op::FcvtDL => {
            &&& (view_only_fp_changed(h0, h1))
            &&& ((h0.csr[crate::csr::MSTATUS as int] >> 13) & 0x3 == 0 ==> r == Err::<
            (),
            Exception,
        >(Exception::IllegalInstruction) && h1 == h0)
            &&& (({
            let frm = ((h0.csr[crate::csr::FCSR as int] >> 5) & 0x7) as u8;
            let fs_on = (h0.csr[crate::csr::MSTATUS as int] >> 13) & 0x3 != 0;
            let x = h0.regs[crate::fields::spec_rs1(inst)];
            let res = if true && 64 == 32 {
                crate::softfloat::spec_f64_from_i(x as u32 as i32 as i64, crate::inst_f::m_of(crate::fields::spec_rm(inst), frm))
            } else if true {
                crate::softfloat::spec_f64_from_i(x as i64, crate::inst_f::m_of(crate::fields::spec_rm(inst), frm))
            } else if 64 == 32 {
                crate::softfloat::spec_f64_from_u((x as u32) as u64, crate::inst_f::m_of(crate::fields::spec_rm(inst), frm))
            } else {
                crate::softfloat::spec_f64_from_u(x, crate::inst_f::m_of(crate::fields::spec_rm(inst), frm))
            };
            &&& (fs_on ==> (crate::fputil::spec_round_mode(crate::fields::spec_rm(inst), frm) matches Err(e) ==> r == Err::<
                (),
                Exception,
            >(e)))
            &&& (fs_on ==> (crate::fputil::spec_round_mode(crate::fields::spec_rm(inst), frm) matches Ok(m) ==> r == Ok::<
                (),
                Exception,
            >(()) && h1.fregs == h0.fregs.update(crate::fields::spec_rd(inst), res.0) && h1.csr == crate::inst_f::spec_acc_fflags(
                crate::inst_f::spec_fs_dirty(h0.csr),
                crate::fputil::spec_fflags_of_status(res.1),
            ) && h1.regs == h0.regs))
        }))
        },
        Op::FcvtDLu => {
            &&& (view_only_fp_changed(h0, h1))
            &&& ((h0.csr[crate::csr::MSTATUS as int] >> 13) & 0x3 == 0 ==> r == Err::<
            (),
            Exception,
        >(Exception::IllegalInstruction) && h1 == h0)
            &&& (({
            let frm = ((h0.csr[crate::csr::FCSR as int] >> 5) & 0x7) as u8;
            let fs_on = (h0.csr[crate::csr::MSTATUS as int] >> 13) & 0x3 != 0;
            let x = h0.regs[crate::fields::spec_rs1(inst)];
            let res = if false && 64 == 32 {
                crate::softfloat::spec_f64_from_i(x as u32 as i32 as i64, crate::inst_f::m_of(crate::fields::spec_rm(inst), frm))
            } else if false {
                crate::softfloat::spec_f64_from_i(x as i64, crate::inst_f::m_of(crate::fields::spec_rm(inst), frm))
            } else if 64 == 32 {
                crate::softfloat::spec_f64_from_u((x as u32) as u64, crate::inst_f::m_of(crate::fields::spec_rm(inst), frm))
            } else {
                crate::softfloat::spec_f64_from_u(x, crate::inst_f::m_of(crate::fields::spec_rm(inst), frm))
            };
            &&& (fs_on ==> (crate::fputil::spec_round_mode(crate::fields::spec_rm(inst), frm) matches Err(e) ==> r == Err::<
                (),
                Exception,
            >(e)))
            &&& (fs_on ==> (crate::fputil::spec_round_mode(crate::fields::spec_rm(inst), frm) matches Ok(m) ==> r == Ok::<
                (),
                Exception,
            >(()) && h1.fregs == h0.fregs.update(crate::fields::spec_rd(inst), res.0) && h1.csr == crate::inst_f::spec_acc_fflags(
                crate::inst_f::spec_fs_dirty(h0.csr),
                crate::fputil::spec_fflags_of_status(res.1),
            ) && h1.regs == h0.regs))
        }))
        },
        Op::FmvXD => {
            &&& (view_only_regs_changed(h0, h1))
            &&& ((h0.csr[crate::csr::MSTATUS as int] >> 13) & 0x3 == 0 ==> r == Err::<
            (),
            Exception,
        >(Exception::IllegalInstruction) && h1 == h0)
            &&& (({
            let fs_on = (h0.csr[crate::csr::MSTATUS as int] >> 13) & 0x3 != 0;
            fs_on ==> r == Ok::<(), Exception>(()) && h1.regs == spec_set_reg(
                h0.regs,
                crate::fields::spec_rd(inst),
                h0.fregs[crate::fields::spec_rs1(inst)],
            ) && h1.csr == h0.csr
        }))
        },
        Op::FmvDX => {
            &&& (view_only_fp_changed(h0, h1))
            &&& ((h0.csr[crate::csr::MSTATUS as int] >> 13) & 0x3 == 0 ==> r == Err::<
            (),
            Exception,
        >(Exception::IllegalInstruction) && h1 == h0)
            &&& (({
            let fs_on = (h0.csr[crate::csr::MSTATUS as int] >> 13) & 0x3 != 0;
            fs_on ==> r == Ok::<(), Exception>(()) && h1.fregs == h0.fregs.update(crate::fields::spec_rd(inst), h0.regs[crate::fields::spec_rs1(inst)]) && h1.csr
                == crate::inst_f::spec_fs_dirty(h0.csr) && h1.regs == h0.regs
        }))
        },
        Op::Sret => {
            &&& (h1.regs == h0.regs && h1.fregs == h0.fregs && true && h1.wfi == h0.wfi)
            &&& (h0.mode == Mode::User ==> r == Err::<(), Exception>(Exception::IllegalInstruction)
            && h1 == h0)
            &&& (h0.mode == Mode::Supervisor && (h0.csr[crate::csr::MSTATUS as int] >> 22) & 1
            == 1 ==> r == Err::<(), Exception>(Exception::IllegalInstruction) && h1 == h0)
            &&& ((h0.mode == Mode::Machine || (h0.mode == Mode::Supervisor && (h0.csr[crate::csr::MSTATUS as int] >> 22) & 1 != 1)) ==> r == Ok::<(), Exception>(())
            && h1.csr == crate::csr::spec_sret(h0.csr).2 && spec_mode_encoding(
            h1.mode,
        ) == crate::csr::spec_sret(h0.csr).1 && h1.pc
            == vstd::wrapping::u64_specs::wrapping_sub(crate::csr::spec_sret(h0.csr).0, len))
        },
        Op::Mret => {
            &&& (h1.regs == h0.regs && h1.fregs == h0.fregs && true && h1.wfi == h0.wfi)
            &&& (h0.mode != Mode::Machine ==> r == Err::<(), Exception>(
            Exception::IllegalInstruction,
        ) && h1 == h0)
            &&& (h0.mode == Mode::Machine ==> r == Ok::<(), Exception>(()) && h1.csr
            == crate::csr::spec_mret(h0.csr).2 && spec_mode_encoding(h1.mode) == crate::csr::spec_mret(
            h0.csr,
        ).1 && h1.pc == vstd::wrapping::u64_specs::wrapping_sub(
            crate::csr::spec_mret(h0.csr).0,
            len,
        ))
        },
        Op::Wfi => {
            &&& (r == Ok::<(), Exception>(()))
            &&& (h1.wfi)
            &&& (h1.regs == h0.regs && h1.fregs == h0.fregs && h1.csr == h0.csr && h1.pc == h0.pc && h1.mode == h0.mode && true)
        },
        Op::SfenceVma => {
            &&& (h1 == h0)
            &&& (r == Ok::<(), Exception>(()))
        },
    }
}


/// What a dispatched instruction leaves behind, tied to the length the
/// fetch consumed: on success the handler's effect with that length
/// reported, on error the handler's effect with that error.
pub open spec fn spec_dispatch_post(
    op: Op,
    w: u32,
    ilen: u64,
    r: Result<u64, Exception>,
    h0: HartView,
    ram0: Seq<u8>,
    rsv0: Seq<u64>,
    h1: HartView,
    ram1: Seq<u8>,
    rsv1: Seq<u64>,
) -> bool {
    &&& (r matches Ok(l) ==> l == ilen && spec_execute_post(
        op,
        w,
        ilen,
        h0,
        ram0,
        rsv0,
        Ok(()),
        h1,
        ram1,
        rsv1,
    ))
    &&& (r matches Err(e) ==> spec_execute_post(op, w, ilen, h0, ram0, rsv0, Err(e), h1, ram1, rsv1))
}

/// The length a fetched instruction occupies.
pub open spec fn fetched_len(f: crate::mmu::InstructionWithType) -> u64 {
    match f {
        crate::mmu::InstructionWithType::L32(_) => 4,
        crate::mmu::InstructionWithType::L16(_) => 2,
    }
}

/// The two ways the instruction-execution path of a step can end: the
/// dispatched handler succeeded and the pc advanced by the consumed
/// length, or the handler raised an exception and its trap was
/// delivered from the handler's final state.
pub open spec fn spec_step_exec_case(
    op: Op,
    w: u32,
    ilen: u64,
    h0: HartView,
    ram0: Seq<u8>,
    rsv0: Seq<u64>,
    hfin: HartView,
    ram1: Seq<u8>,
    rsv1: Seq<u64>,
) -> bool {
    ||| (exists|hmid: HartView|
        #[trigger] spec_execute_post(op, w, ilen, h0, ram0, rsv0, Ok(()), hmid, ram1, rsv1)
            && hfin == (HartView {
            pc: vstd::wrapping::u64_specs::wrapping_add(hmid.pc, ilen),
            ..hmid
        }))
    ||| (exists|hmid: HartView, e: Exception|
        #[trigger] spec_execute_post(op, w, ilen, h0, ram0, rsv0, Err(e), hmid, ram1, rsv1)
            && hfin.csr == spec_handle_trap(hmid.csr, hmid.mode, hmid.pc, Trap::Exception(e)).0
            && spec_mode_encoding(hfin.mode) == spec_handle_trap(
            hmid.csr,
            hmid.mode,
            hmid.pc,
            Trap::Exception(e),
        ).1 && hfin.pc == spec_handle_trap(hmid.csr, hmid.mode, hmid.pc, Trap::Exception(e)).2
            && hfin.regs == hmid.regs && hfin.fregs == hmid.fregs && hfin.wfi == hmid.wfi)
}

/// Dispatch one decoded instruction to its handler. The handlers never
/// advance the pc by the instruction length themselves; branches,
/// jumps and trap returns store their target less `len`, which `step`
/// adds back.
pub fn execute(op: Op, inst: u32, len: u64, mmu: &mut crate::mmu::MMU, hart: &mut Hart) -> (r:
    Result<(), Exception>)
    requires
        old(hart).wf(),
        old(mmu).wf(),
    ensures
        final (hart).wf(),
        final (mmu).wf(),
        final (hart).table == old(hart).table,
        spec_execute_post(
            op,
            inst,
            len,
            hart_view(*old(hart)),
            old(mmu).ram(),
            old(mmu).reservations(),
            r,
            hart_view(*final (hart)),
            final (mmu).ram(),
            final (mmu).reservations(),
        ),
{
    match op {
        Op::Lui => crate::inst_i::exec_lui(hart, inst),
        Op::Auipc => crate::inst_i::exec_auipc(hart, inst),
        Op::Addi => crate::inst_i::exec_addi(hart, inst),
        Op::Slti => crate::inst_i::exec_slti(hart, inst),
        Op::Sltiu => crate::inst_i::exec_sltiu(hart, inst),
        Op::Xori => crate::inst_i::exec_xori(hart, inst),
        Op::Ori => crate::inst_i::exec_ori(hart, inst),
        Op::Andi => crate::inst_i::exec_andi(hart, inst),
        Op::Slli => crate::inst_i::exec_slli(hart, inst),
        Op::Srli => crate::inst_i::exec_srli(hart, inst),
        Op::Srai => crate::inst_i::exec_srai(hart, inst),
        Op::Add => crate::inst_i::exec_add(hart, inst),
        Op::Sub => crate::inst_i::exec_sub(hart, inst),
        Op::Sll => crate::inst_i::exec_sll(hart, inst),
        Op::Slt => crate::inst_i::exec_slt(hart, inst),
        Op::Sltu => crate::inst_i::exec_sltu(hart, inst),
        Op::Xor => crate::inst_i::exec_xor(hart, inst),
        Op::Srl => crate::inst_i::exec_srl(hart, inst),
        Op::Sra => crate::inst_i::exec_sra(hart, inst),
        Op::Or => crate::inst_i::exec_or(hart, inst),
        Op::And => crate::inst_i::exec_and(hart, inst),
        Op::Addiw => crate::inst_i::exec_addiw(hart, inst),
        Op::Slliw => crate::inst_i::exec_slliw(hart, inst),
        Op::Srliw => crate::inst_i::exec_srliw(hart, inst),
        Op::Sraiw => crate::inst_i::exec_sraiw(hart, inst),
        Op::Addw => crate::inst_i::exec_addw(hart, inst),
        Op::Subw => crate::inst_i::exec_subw(hart, inst),
        Op::Sllw => crate::inst_i::exec_sllw(hart, inst),
        Op::Srlw => crate::inst_i::exec_srlw(hart, inst),
        Op::Sraw => crate::inst_i::exec_sraw(hart, inst),
        Op::Jal => crate::inst_i::exec_jal(hart, inst, len),
        Op::Jalr => crate::inst_i::exec_jalr(hart, inst, len),
        Op::Beq => crate::inst_i::exec_beq(hart, inst, len),
        Op::Bne => crate::inst_i::exec_bne(hart, inst, len),
        Op::Blt => crate::inst_i::exec_blt(hart, inst, len),
        Op::Bge => crate::inst_i::exec_bge(hart, inst, len),
        Op::Bltu => crate::inst_i::exec_bltu(hart, inst, len),
        Op::Bgeu => crate::inst_i::exec_bgeu(hart, inst, len),
        Op::Lb => crate::inst_i::exec_lb(hart, mmu, inst),
        Op::Lh => crate::inst_i::exec_lh(hart, mmu, inst),
        Op::Lw => crate::inst_i::exec_lw(hart, mmu, inst),
        Op::Ld => crate::inst_i::exec_ld(hart, mmu, inst),
        Op::Lbu => crate::inst_i::exec_lbu(hart, mmu, inst),
        Op::Lhu => crate::inst_i::exec_lhu(hart, mmu, inst),
        Op::Lwu => crate::inst_i::exec_lwu(hart, mmu, inst),
        Op::Sb => crate::inst_i::exec_sb(hart, mmu, inst),
        Op::Sh => crate::inst_i::exec_sh(hart, mmu, inst),
        Op::Sw => crate::inst_i::exec_sw(hart, mmu, inst),
        Op::Sd => crate::inst_i::exec_sd(hart, mmu, inst),
        Op::Fence => crate::inst_i::exec_fence(hart),
        Op::FenceI => crate::inst_i::exec_fence(hart),
        Op::Ecall => crate::inst_i::exec_ecall(hart),
        Op::Ebreak => crate::inst_i::exec_ebreak(hart),
        Op::Csrrw => crate::inst_zicsr::exec_csrrw(hart, inst),
        Op::Csrrs => crate::inst_zicsr::exec_csrrs_csrrc(hart, inst, false),
        Op::Csrrc => crate::inst_zicsr::exec_csrrs_csrrc(hart, inst, true),
        Op::Csrrwi => crate::inst_zicsr::exec_csrrwi(hart, inst),
        Op::Csrrsi => crate::inst_zicsr::exec_csrrsi_csrrci(hart, inst, false),
        Op::Csrrci => crate::inst_zicsr::exec_csrrsi_csrrci(hart, inst, true),
        Op::Mul => crate::inst_m::exec_mul(hart, inst),
        Op::Mulh => crate::inst_m::exec_mulh(hart, inst),
        Op::Mulhsu => crate::inst_m::exec_mulhsu(hart, inst),
        Op::Mulhu => crate::inst_m::exec_mulhu(hart, inst),
        Op::Div => crate::inst_m::exec_div(hart, inst),
        Op::Divu => crate::inst_m::exec_divu(hart, inst),
        Op::Rem => crate::inst_m::exec_rem(hart, inst),
        Op::Remu => crate::inst_m::exec_remu(hart, inst),
        Op::Mulw => crate::inst_m::exec_mulw(hart, inst),
        Op::Divw => crate::inst_m::exec_divw(hart, inst),
        Op::Divuw => crate::inst_m::exec_divuw(hart, inst),
        Op::Remw => crate::inst_m::exec_remw(hart, inst),
        Op::Remuw => crate::inst_m::exec_remuw(hart, inst),
        Op::LrW => crate::inst_a::exec_lr32(hart, mmu, inst),
        Op::LrD => crate::inst_a::exec_lr64(hart, mmu, inst),
        Op::ScW => crate::inst_a::exec_sc32(hart, mmu, inst),
        Op::ScD => crate::inst_a::exec_sc64(hart, mmu, inst),
        Op::AmoswapW => crate::inst_a::exec_amoswap32(hart, mmu, inst),
        Op::AmoswapD => crate::inst_a::exec_amoswap64(hart, mmu, inst),
        Op::AmoaddW => crate::inst_a::exec_amoadd32(hart, mmu, inst),
        Op::AmoaddD => crate::inst_a::exec_amoadd64(hart, mmu, inst),
        Op::AmoxorW => crate::inst_a::exec_amoxor32(hart, mmu, inst),
        Op::AmoxorD => crate::inst_a::exec_amoxor64(hart, mmu, inst),
        Op::AmoandW => crate::inst_a::exec_amoand32(hart, mmu, inst),
        Op::AmoandD => crate::inst_a::exec_amoand64(hart, mmu, inst),
        Op::AmoorW => crate::inst_a::exec_amoor32(hart, mmu, inst),
        Op::AmoorD => crate::inst_a::exec_amoor64(hart, mmu, inst),
        Op::AmominW => crate::inst_a::exec_amomin32(hart, mmu, inst),
        Op::AmominD => crate::inst_a::exec_amomin64(hart, mmu, inst),
        Op::AmomaxW => crate::inst_a::exec_amomax32(hart, mmu, inst),
        Op::AmomaxD => crate::inst_a::exec_amomax64(hart, mmu, inst),
        Op::AmominuW => crate::inst_a::exec_amominu32(hart, mmu, inst),
        Op::AmominuD => crate::inst_a::exec_amominu64(hart, mmu, inst),
        Op::AmomaxuW => crate::inst_a::exec_amomaxu32(hart, mmu, inst),
        Op::AmomaxuD => crate::inst_a::exec_amomaxu64(hart, mmu, inst),
        Op::Flw => crate::inst_f::exec_flw(hart, mmu, inst),
        Op::Fsw => crate::inst_f::exec_fsw(hart, mmu, inst),
        Op::FmaddS => crate::inst_f::exec_fma_s(hart, inst, false, false),
        Op::FmsubS => crate::inst_f::exec_fma_s(hart, inst, false, true),
        Op::FnmsubS => crate::inst_f::exec_fma_s(hart, inst, true, false),
        Op::FnmaddS => crate::inst_f::exec_fma_s(hart, inst, true, true),
        Op::FaddS => crate::inst_f::exec_fadd_s(hart, inst),
        Op::FsubS => crate::inst_f::exec_fsub_s(hart, inst),
        Op::FmulS => crate::inst_f::exec_fmul_s(hart, inst),
        Op::FdivS => crate::inst_f::exec_fdiv_s(hart, inst),
        Op::FsqrtS => crate::inst_f::exec_fsqrt_s(hart, inst),
        Op::FsgnjS => crate::inst_f::exec_fsgnj_s(hart, inst, 0),
        Op::FsgnjnS => crate::inst_f::exec_fsgnj_s(hart, inst, 1),
        Op::FsgnjxS => crate::inst_f::exec_fsgnj_s(hart, inst, 2),
        Op::FminS => crate::inst_f::exec_fminmax_s(hart, inst, false),
        Op::FmaxS => crate::inst_f::exec_fminmax_s(hart, inst, true),
        Op::FcvtWS => crate::inst_f::exec_fcvt_int_s(hart, inst, true, 32),
        Op::FcvtWuS => crate::inst_f::exec_fcvt_int_s(hart, inst, false, 32),
        Op::FcvtLS => crate::inst_f::exec_fcvt_int_s(hart, inst, true, 64),
        Op::FcvtLuS => crate::inst_f::exec_fcvt_int_s(hart, inst, false, 64),
        Op::FmvXW => crate::inst_f::exec_fmv_x_w(hart, inst),
        Op::FeqS => crate::inst_f::exec_fcmp_s(hart, inst, 2),
        Op::FltS => crate::inst_f::exec_fcmp_s(hart, inst, 1),
        Op::FleS => crate::inst_f::exec_fcmp_s(hart, inst, 0),
        Op::FclassS => crate::inst_f::exec_fclass_s(hart, inst),
        Op::FcvtSW => crate::inst_f::exec_fcvt_s_int(hart, inst, true, 32),
        Op::FcvtSWu => crate::inst_f::exec_fcvt_s_int(hart, inst, false, 32),
        Op::FcvtSL => crate::inst_f::exec_fcvt_s_int(hart, inst, true, 64),
        Op::FcvtSLu => crate::inst_f::exec_fcvt_s_int(hart, inst, false, 64),
        Op::FmvWX => crate::inst_f::exec_fmv_w_x(hart, inst),
        Op::Fld => crate::inst_d::exec_fld(hart, mmu, inst),
        Op::Fsd => crate::inst_d::exec_fsd(hart, mmu, inst),
        Op::FmaddD => crate::inst_d::exec_fma_d(hart, inst, false, false),
        Op::FmsubD => crate::inst_d::exec_fma_d(hart, inst, false, true),
        Op::FnmsubD => crate::inst_d::exec_fma_d(hart, inst, true, false),
        Op::FnmaddD => crate::inst_d::exec_fma_d(hart, inst, true, true),
        Op::FaddD => crate::inst_d::exec_fadd_d(hart, inst),
        Op::FsubD => crate::inst_d::exec_fsub_d(hart, inst),
        Op::FmulD => crate::inst_d::exec_fmul_d(hart, inst),
        Op::FdivD => crate::inst_d::exec_fdiv_d(hart, inst),
        Op::FsqrtD => crate::inst_d::exec_fsqrt_d(hart, inst),
        Op::FsgnjD => crate::inst_d::exec_fsgnj_d(hart, inst, 0),
        Op::FsgnjnD => crate::inst_d::exec_fsgnj_d(hart, inst, 1),
        Op::FsgnjxD => crate::inst_d::exec_fsgnj_d(hart, inst, 2),
        Op::FminD => crate::inst_d::exec_fminmax_d(hart, inst, false),
        Op::FmaxD => crate::inst_d::exec_fminmax_d(hart, inst, true),
        Op::FcvtSD => crate::inst_d::exec_fcvt_s_d(hart, inst),
        Op::FcvtDS => crate::inst_d::exec_fcvt_d_s(hart, inst),
        Op::FeqD => crate::inst_d::exec_fcmp_d(hart, inst, 2),
        Op::FltD => crate::inst_d::exec_fcmp_d(hart, inst, 1),
        Op::FleD => crate::inst_d::exec_fcmp_d(hart, inst, 0),
        Op::FclassD => crate::inst_d::exec_fclass_d(hart, inst),
        Op::FcvtWD => crate::inst_d::exec_fcvt_int_d(hart, inst, true, 32),
        Op::FcvtWuD => crate::inst_d::exec_fcvt_int_d(hart, inst, false, 32),
        Op::FcvtLD => crate::inst_d::exec_fcvt_int_d(hart, inst, true, 64),
        Op::FcvtLuD => crate::inst_d::exec_fcvt_int_d(hart, inst, false, 64),
        Op::FcvtDW => crate::inst_d::exec_fcvt_d_int(hart, inst, true, 32),
        Op::FcvtDWu => crate::inst_d::exec_fcvt_d_int(hart, inst, false, 32),
        Op::FcvtDL => crate::inst_d::exec_fcvt_d_int(hart, inst, true, 64),
        Op::FcvtDLu => crate::inst_d::exec_fcvt_d_int(hart, inst, false, 64),
        Op::FmvXD => crate::inst_d::exec_fmv_x_d(hart, inst),
        Op::FmvDX => crate::inst_d::exec_fmv_d_x(hart, inst),
        Op::Sret => crate::inst_sm::exec_sret(hart, len),
        Op::Mret => crate::inst_sm::exec_mret(hart, len),
        Op::Wfi => crate::inst_sm::exec_wfi(hart),
        Op::SfenceVma => crate::inst_sm::exec_sfence_vma(hart),
    }
}

impl Hart {
    /// Ask the CSR file for the highest-priority deliverable interrupt;
    /// any ready class at all resumes a waiting hart, whether or not
    /// the global enables allow its delivery.
    pub fn check_interrupt(&mut self) -> (r: Option<Interrupt>)
        requires
            old(self).wf(),
        ensures
            final (self).wf(),
            r == spec_pending_interrupt(
                old(self).csr@[crate::csr::MIE as int],
                old(self).csr@[crate::csr::MIP as int],
                old(self).csr@[crate::csr::MSTATUS as int],
                old(self).mode,
            ),
            final (self).wfi == (old(self).wfi && (old(self).csr@[crate::csr::MIE as int] & old(
                self,
            ).csr@[crate::csr::MIP as int] & 0x0AAA == 0)),
            final (self).regs == old(self).regs && final (self).fregs == old(self).fregs
                && final (self).csr == old(self).csr && final (self).pc == old(self).pc && final (
            self).mode == old(self).mode && final (self).table == old(self).table,
    {
        let mie = self.csr.read_raw(crate::csr::MIE);
        let mip = self.csr.read_raw(crate::csr::MIP);
        if mie & mip & 0x0AAA != 0 {
            self.wfi = false;
        }
        let menc = self.mode.as_u8();
        let m_ok = 3 > menc || self.csr.read_mstatus_mie();
        let s_ok = 1 > menc || (menc == 1 && self.csr.read_mstatus_sie());
        if (mie >> 11) & 1 == 1 && (mip >> 11) & 1 == 1 && m_ok {
            Some(Interrupt::MachineExternal)
        } else if (mie >> 3) & 1 == 1 && (mip >> 3) & 1 == 1 && m_ok {
            Some(Interrupt::MachineSoftware)
        } else if (mie >> 7) & 1 == 1 && (mip >> 7) & 1 == 1 && m_ok {
            Some(Interrupt::MachineTimer)
        } else if (mie >> 9) & 1 == 1 && (mip >> 9) & 1 == 1 && s_ok {
            Some(Interrupt::SupervisorExternal)
        } else if (mie >> 1) & 1 == 1 && (mip >> 1) & 1 == 1 && s_ok {
            Some(Interrupt::SupervisorSoftware)
        } else if (mie >> 5) & 1 == 1 && (mip >> 5) & 1 == 1 && s_ok {
            Some(Interrupt::SupervisorTimer)
        } else {
            None
        }
    }

    /// Deliver a trap: pick the target mode by delegation, stack the
    /// mode bits, write EPC/CAUSE/TVAL, and jump through the vector.
    pub fn handle_trap(&mut self, trap: Trap)
        requires
            old(self).wf(),
        ensures
            final (self).wf(),
            final (self).csr@ == spec_handle_trap(
                old(self).csr@,
                old(self).mode,
                old(self).pc,
                trap,
            ).0,
            spec_mode_encoding(final (self).mode) == spec_handle_trap(
                old(self).csr@,
                old(self).mode,
                old(self).pc,
                trap,
            ).1,
            final (self).pc == spec_handle_trap(old(self).csr@, old(self).mode, old(self).pc, trap).2,
            final (self).regs@ == old(self).regs@ && final (self).fregs@ == old(self).fregs@
                && final (self).wfi == old(self).wfi && final (self).table == old(self).table,
    {
        let code = trap.code();
        let is_int = match trap {
            Trap::Interrupt(_) => true,
            Trap::Exception(_) => false,
        };
        let deleg = if is_int {
            self.csr.read_mideleg()
        } else {
            self.csr.read_medeleg()
        };
        let target: u8 = if self.mode.as_u8() == 3 {
            3
        } else if (deleg >> code) & 1 == 1 {
            1
        } else {
            3
        };
        let cause = if is_int {
            code | 0x8000_0000_0000_0000
        } else {
            code
        };
        let tval = trap.value();
        let menc = self.mode.as_u8();
        if target == 3 {
            let vec = self.csr.read_mtvec();
            self.csr.trap_into_machine(menc);
            self.csr.write_trap_slot(crate::csr::MEPC, self.pc & !1u64);
            self.csr.write_trap_slot(crate::csr::MCAUSE, cause);
            self.csr.write_trap_slot(crate::csr::MTVAL, tval);
            self.mode = Mode::Machine;
            self.pc = if vec & 3 == 1 && is_int {
                (vec & !3u64).wrapping_add(4 * code)
            } else {
                vec & !3u64
            };
        } else {
            let vec = self.csr.read_stvec();
            self.csr.trap_into_supervisor(menc);
            self.csr.write_trap_slot(crate::csr::SEPC, self.pc & !1u64);
            self.csr.write_trap_slot(crate::csr::SCAUSE, cause);
            self.csr.write_trap_slot(crate::csr::STVAL, tval);
            self.mode = Mode::Supervisor;
            self.pc = if vec & 3 == 1 && is_int {
                (vec & !3u64).wrapping_add(4 * code)
            } else {
                vec & !3u64
            };
        }
    }

    /// Fetch, decode (decompressing first if needed), dispatch, and
    /// report the instruction length consumed; a failed decode is an
    /// illegal-instruction trap.
    fn instruct(&mut self, mmu: &mut crate::mmu::MMU) -> (r: Result<u64, Exception>)
        requires
            old(self).wf(),
            old(mmu).wf(),
        ensures
            final (self).wf(),
            final (mmu).wf(),
            final (self).table == old(self).table,
            r matches Ok(len) ==> len == 2 || len == 4,
            ({
                let fetched = crate::mmu::spec_fetch(
                    old(mmu).ram(),
                    old(self).csr@[crate::csr::SATP as int],
                    old(self).csr@[crate::csr::MSTATUS as int],
                    spec_mode_encoding(old(self).mode),
                    old(self).pc,
                );
                fetched matches Ok(f) ==> (decoded_word(f) matches Some(w) ==> (
                crate::decode::spec_parse_from(old(self).table@, 0, w) matches Some(op)
                    ==> spec_dispatch_post(
                    op,
                    w,
                    fetched_len(f),
                    r,
                    hart_view(*old(self)),
                    old(mmu).ram(),
                    old(mmu).reservations(),
                    hart_view(*final (self)),
                    final (mmu).ram(),
                    final (mmu).reservations(),
                )))
            }),
            ({
                let fetched = crate::mmu::spec_fetch(
                    old(mmu).ram(),
                    old(self).csr@[crate::csr::SATP as int],
                    old(self).csr@[crate::csr::MSTATUS as int],
                    spec_mode_encoding(old(self).mode),
                    old(self).pc,
                );
                &&& (fetched matches Err(e) ==> r == Err::<u64, Exception>(e) && *final (self)
                    == *old(self) && *final (mmu) == *old(mmu))
                &&& (fetched matches Ok(f) ==> ((f matches
                    crate::mmu::InstructionWithType::L16(h) && crate::cdecode::spec_decompress(h)
                    is None ==> r == Err::<u64, Exception>(Exception::IllegalInstruction) && *final (
                self) == *old(self) && *final (mmu) == *old(mmu)) && (decoded_word(f) matches Some(
                    w,
                ) ==> (crate::decode::spec_parse_from(old(self).table@, 0, w) is None ==> r
                    == Err::<u64, Exception>(Exception::IllegalInstruction) && *final (self)
                    == *old(self) && *final (mmu) == *old(mmu)))))
            }),
    {
        let fetched = match mmu.fetch(&self.csr, self.mode.as_u8(), self.pc) {
            Ok(f) => f,
            Err(e) => {
                return Err(e);
            },
        };
        let (inst, len): (u32, u64) = match fetched {
            crate::mmu::InstructionWithType::L32(w) => (w, 4),
            crate::mmu::InstructionWithType::L16(h) => {
                match crate::cdecode::decompress(h) {
                    Some(w) => (w, 2),
                    None => {
                        return Err(Exception::IllegalInstruction);
                    },
                }
            },
        };
        let op = {
            let table = &self.table;
            match crate::decode::parse(table, inst) {
                Some(op) => op,
                None => {
                    return Err(Exception::IllegalInstruction);
                },
            }
        };
        match execute(op, inst, len, mmu, self) {
            Ok(_) => Ok(len),
            Err(e) => Err(e),
        }
    }

    /// One architecturally observable action: deliver the highest
    /// pending interrupt, or do nothing while waiting, or execute one
    /// instruction, delivering its trap if it raises one.
    pub fn step(&mut self, mmu: &mut crate::mmu::MMU)
        requires
            old(self).wf(),
            old(mmu).wf(),
        ensures
            final (self).wf(),
            final (mmu).wf(),
            final (self).table == old(self).table,
            ({
                let pend = spec_pending_interrupt(
                    old(self).csr@[crate::csr::MIE as int],
                    old(self).csr@[crate::csr::MIP as int],
                    old(self).csr@[crate::csr::MSTATUS as int],
                    old(self).mode,
                );
                &&& (pend matches Some(i) ==> final (self).csr@ == spec_handle_trap(
                    old(self).csr@,
                    old(self).mode,
                    old(self).pc,
                    Trap::Interrupt(i),
                ).0 && spec_mode_encoding(final (self).mode) == spec_handle_trap(
                    old(self).csr@,
                    old(self).mode,
                    old(self).pc,
                    Trap::Interrupt(i),
                ).1 && final (self).pc == spec_handle_trap(
                    old(self).csr@,
                    old(self).mode,
                    old(self).pc,
                    Trap::Interrupt(i),
                ).2 && final (self).regs@ == old(self).regs@ && *final (mmu) == *old(mmu))
                &&& (pend is None && old(self).wfi && (old(self).csr@[crate::csr::MIE as int]
                    & old(self).csr@[crate::csr::MIP as int] & 0x0AAA == 0) ==> *final (self)
                    == *old(self) && *final (mmu) == *old(mmu))
                &&& (pend is None && !old(self).wfi ==> (crate::mmu::spec_fetch(
                    old(mmu).ram(),
                    old(self).csr@[crate::csr::SATP as int],
                    old(self).csr@[crate::csr::MSTATUS as int],
                    spec_mode_encoding(old(self).mode),
                    old(self).pc,
                ) matches Err(e) ==> final (self).csr@ == spec_handle_trap(
                    old(self).csr@,
                    old(self).mode,
                    old(self).pc,
                    Trap::Exception(e),
                ).0 && final (self).pc == spec_handle_trap(
                    old(self).csr@,
                    old(self).mode,
                    old(self).pc,
                    Trap::Exception(e),
                ).2 && *final (mmu) == *old(mmu)))
            }),
            ({
                let pend = spec_pending_interrupt(
                    old(self).csr@[crate::csr::MIE as int],
                    old(self).csr@[crate::csr::MIP as int],
                    old(self).csr@[crate::csr::MSTATUS as int],
                    old(self).mode,
                );
                let ready_empty = old(self).csr@[crate::csr::MIE as int] & old(
                    self,
                ).csr@[crate::csr::MIP as int] & 0x0AAA == 0;
                let h0 = HartView {
                    regs: old(self).regs@,
                    fregs: old(self).fregs@,
                    pc: old(self).pc,
                    csr: old(self).csr@,
                    mode: old(self).mode,
                    wfi: false,
                };
                let fetched = crate::mmu::spec_fetch(
                    old(mmu).ram(),
                    old(self).csr@[crate::csr::SATP as int],
                    old(self).csr@[crate::csr::MSTATUS as int],
                    spec_mode_encoding(old(self).mode),
                    old(self).pc,
                );
                pend is None && !(old(self).wfi && ready_empty) ==> (fetched matches Ok(f) ==> (
                decoded_word(f) matches Some(w) ==> (crate::decode::spec_parse_from(
                    old(self).table@,
                    0,
                    w,
                ) matches Some(op) ==> spec_step_exec_case(
                    op,
                    w,
                    fetched_len(f),
                    h0,
                    old(mmu).ram(),
                    old(mmu).reservations(),
                    hart_view(*final (self)),
                    final (mmu).ram(),
                    final (mmu).reservations(),
                ))))
            }),
    {
        let interrupt = self.check_interrupt();
        match interrupt {
            Some(i) => {
                self.handle_trap(Trap::Interrupt(i));
                return ;
            },
            None => {},
        }
        if self.wfi {
            return ;
        }
        match self.instruct(mmu) {
            Ok(len) => {
                let ghost hmid = hart_view(*self);
                self.pc = self.pc.wrapping_add(len);
                proof {
                    assert(hart_view(*self) == (HartView {
                        pc: vstd::wrapping::u64_specs::wrapping_add(hmid.pc, len),
                        ..hmid
                    }));
                }
            },
            Err(e) => {
                self.handle_trap(Trap::Exception(e));
            },
        }
    }
}

/// The operations whose handlers read the instruction length: jumps
/// (for the link address and the stored target), branches (for the
/// stored target) and trap returns (for the stored target).
pub open spec fn spec_len_sensitive(op: Op) -> bool {
    ||| op == Op::Jal
    ||| op == Op::Jalr
    ||| op == Op::Beq
    ||| op == Op::Bne
    ||| op == Op::Blt
    ||| op == Op::Bge
    ||| op == Op::Bltu
    ||| op == Op::Bgeu
    ||| op == Op::Sret
    ||| op == Op::Mret
}

/// Compressed decoding preserves behavior: a 16-bit encoding executes
/// as its 32-bit expansion with length 2 instead of 4, and for every
/// operation that is not a jump, branch or trap return the handler's
/// effect does not mention the length at all, so the two executions
/// agree state for state. For the length-sensitive operations the
/// stored target compensates for the length the step loop adds back
/// (see `lemma_branch_target_length_independent`), so a taken control
/// transfer lands on the same pc either way.
pub proof fn lemma_execute_length_independent(
    op: Op,
    inst: u32,
    len1: u64,
    len2: u64,
    h0: HartView,
    ram0: Seq<u8>,
    rsv0: Seq<u64>,
    r: Result<(), Exception>,
    h1: HartView,
    ram1: Seq<u8>,
    rsv1: Seq<u64>,
)
    requires
        !spec_len_sensitive(op),
    ensures
        spec_execute_post(op, inst, len1, h0, ram0, rsv0, r, h1, ram1, rsv1)
            == spec_execute_post(op, inst, len2, h0, ram0, rsv0, r, h1, ram1, rsv1),
{
}

/// Every value a single-precision write produces carries the box
/// pattern.
pub proof fn lemma_all_single_results_boxed()
    ensures
        forall|v: u32|
            crate::fputil::spec_nanboxed(
                #[trigger] ((v as u64) | 0xFFFF_FFFF_0000_0000u64),
            ),
{
    assert forall|v: u32|
        crate::fputil::spec_nanboxed(
            #[trigger] ((v as u64) | 0xFFFF_FFFF_0000_0000u64),
        ) by {
        crate::fputil::lemma_nanbox_roundtrip(v, 0);
    }
}

/// The operations that write a single-precision result into a float
/// register unconditionally on success. The single-precision load and
/// the square root are excluded only because their contracts pin the
/// written value conditionally (an access that lands in RAM; an
/// operand that is NaN, negative or positive finite) -- both box the
/// value the same way in every case.
pub open spec fn spec_writes_single(op: Op) -> bool {
    ||| op == Op::FaddS
    ||| op == Op::FsubS
    ||| op == Op::FmulS
    ||| op == Op::FdivS
    ||| op == Op::FmaddS
    ||| op == Op::FmsubS
    ||| op == Op::FnmsubS
    ||| op == Op::FnmaddS
    ||| op == Op::FsgnjS
    ||| op == Op::FsgnjnS
    ||| op == Op::FsgnjxS
    ||| op == Op::FminS
    ||| op == Op::FmaxS
    ||| op == Op::FcvtSW
    ||| op == Op::FcvtSWu
    ||| op == Op::FcvtSL
    ||| op == Op::FcvtSLu
    ||| op == Op::FmvWX
    ||| op == Op::FcvtSD
}

/// NaN boxing holds after every single-precision operation: whenever
/// one of them succeeds, the float register it wrote has its high 32
/// bits all ones.
#[verifier::rlimit(100)]
pub proof fn lemma_nanbox_invariant(
    op: Op,
    inst: u32,
    len: u64,
    h0: HartView,
    ram0: Seq<u8>,
    rsv0: Seq<u64>,
    h1: HartView,
    ram1: Seq<u8>,
    rsv1: Seq<u64>,
)
    requires
        spec_writes_single(op),
        spec_execute_post(op, inst, len, h0, ram0, rsv0, Ok(()), h1, ram1, rsv1),
        h0.fregs.len() == 32,
        0 <= crate::fields::spec_rd(inst) < 32,
    ensures
        crate::fputil::spec_nanboxed(h1.fregs[crate::fields::spec_rd(inst)]),
{
    lemma_all_single_results_boxed();
    match op {
        Op::FaddS => {},
        Op::FsubS => {},
        Op::FmulS => {},
        Op::FdivS => {},
        Op::FmaddS => {},
        Op::FmsubS => {},
        Op::FnmsubS => {},
        Op::FnmaddS => {},
        Op::FsgnjS => {},
        Op::FsgnjnS => {},
        Op::FsgnjxS => {},
        Op::FminS => {},
        Op::FmaxS => {},
        Op::FcvtSW => {},
        Op::FcvtSWu => {},
        Op::FcvtSL => {},
        Op::FcvtSLu => {},
        Op::FmvWX => {},
        Op::FcvtSD => {},
        _ => {},
    }
}

/// Delegation: a trap from user or supervisor mode with exception code
/// `code` targets supervisor mode exactly when bit `code` of the
/// delegation register is set, while a machine-mode trap always stays
/// in machine mode.
pub proof fn lemma_delegation(mode: Mode, deleg: u64, code: u64)
    ensures
        mode == Mode::Machine ==> spec_trap_target(mode, deleg, code) == 3,
        mode != Mode::Machine && (deleg >> code) & 1 == 1 ==> spec_trap_target(mode, deleg, code)
            == 1,
        mode != Mode::Machine && (deleg >> code) & 1 != 1 ==> spec_trap_target(mode, deleg, code)
            == 3,
{
}

/// The length-compensation convention behind compressed execution: a
/// taken branch or jump stores its target less the instruction length,
/// and the step loop adds the length back, so the pc a control transfer
/// lands on does not depend on whether the encoding was 2 or 4 bytes
/// wide. Handlers of other instructions never read the length at all,
/// so a compressed encoding and its 32-bit expansion drive the same
/// data path.
pub proof fn lemma_branch_target_length_independent(pc: u64, imm: u64, len: u64)
    ensures
        vstd::wrapping::u64_specs::wrapping_add(
            vstd::wrapping::u64_specs::wrapping_sub(
                vstd::wrapping::u64_specs::wrapping_add(pc, imm),
                len,
            ),
            len,
        ) == vstd::wrapping::u64_specs::wrapping_add(pc, imm),
{
}

} // verus!

