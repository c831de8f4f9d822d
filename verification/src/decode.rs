//! The decode table: every instruction as a (mask, match) record over
//! its declared fixed-bit segments, bucketed by primary opcode, with a
//! first-match lookup.

use vstd::prelude::*;

verus! {

/// Every instruction the decode table knows, across the base set and
/// the M, A, F, D, Zicsr, Zifencei and privileged extensions.
#[derive(Debug, Clone, Copy, PartialEq, Eq, Structural)]
pub enum Op {
    Lui,
    Auipc,
    Jal,
    Jalr,
    Beq,
    Bne,
    Blt,
    Bge,
    Bltu,
    Bgeu,
    Lb,
    Lh,
    Lw,
    Lbu,
    Lhu,
    Lwu,
    Ld,
    Sb,
    Sh,
    Sw,
    Sd,
    Addi,
    Slti,
    Sltiu,
    Xori,
    Ori,
    Andi,
    Slli,
    Srli,
    Srai,
    Add,
    Sub,
    Sll,
    Slt,
    Sltu,
    Xor,
    Srl,
    Sra,
    Or,
    And,
    Fence,
    Ecall,
    Ebreak,
    Addiw,
    Slliw,
    Srliw,
    Sraiw,
    Addw,
    Subw,
    Sllw,
    Srlw,
    Sraw,
    FenceI,
    Csrrw,
    Csrrs,
    Csrrc,
    Csrrwi,
    Csrrsi,
    Csrrci,
    Mul,
    Mulh,
    Mulhsu,
    Mulhu,
    Div,
    Divu,
    Rem,
    Remu,
    Mulw,
    Divw,
    Divuw,
    Remw,
    Remuw,
    LrW,
    ScW,
    AmoswapW,
    AmoaddW,
    AmoxorW,
    AmoandW,
    AmoorW,
    AmominW,
    AmomaxW,
    AmominuW,
    AmomaxuW,
    LrD,
    ScD,
    AmoswapD,
    AmoaddD,
    AmoxorD,
    AmoandD,
    AmoorD,
    AmominD,
    AmomaxD,
    AmominuD,
    AmomaxuD,
    Flw,
    Fsw,
    FmaddS,
    FmsubS,
    FnmsubS,
    FnmaddS,
    FaddS,
    FsubS,
    FmulS,
    FdivS,
    FsqrtS,
    FsgnjS,
    FsgnjnS,
    FsgnjxS,
    FminS,
    FmaxS,
    FcvtWS,
    FcvtWuS,
    FcvtLS,
    FcvtLuS,
    FmvXW,
    FeqS,
    FltS,
    FleS,
    FclassS,
    FcvtSW,
    FcvtSWu,
    FcvtSL,
    FcvtSLu,
    FmvWX,
    Fld,
    Fsd,
    FmaddD,
    FmsubD,
    FnmsubD,
    FnmaddD,
    FaddD,
    FsubD,
    FmulD,
    FdivD,
    FsqrtD,
    FsgnjD,
    FsgnjnD,
    FsgnjxD,
    FminD,
    FmaxD,
    FcvtSD,
    FcvtDS,
    FeqD,
    FltD,
    FleD,
    FclassD,
    FcvtWD,
    FcvtWuD,
    FcvtLD,
    FcvtLuD,
    FcvtDW,
    FcvtDWu,
    FcvtDL,
    FcvtDLu,
    FmvXD,
    FmvDX,
    Sret,
    Mret,
    Wfi,
    SfenceVma,
}

/// A run of fixed bits: instruction bits `start..=end` must equal
/// `comp` for the instruction to match.
#[derive(Debug, Clone, Copy, PartialEq, Eq, Structural)]
pub struct InstructionSegment {
    pub start: u32,
    pub end: u32,
    pub comp: u32,
}

/// One decode-table entry: an opcode bucket, the declared fixed-bit
/// segments, and the operation the encoding names.
#[derive(Debug)]
pub struct Instructor {
    pub name: &'static str,
    pub opcode: u32,
    pub segments: Vec<InstructionSegment>,
    pub op: Op,
}

/// A segment is meaningful when it lies inside the 32-bit word and is
/// narrower than the word; anything else contributes no fixed bits.
pub open spec fn spec_seg_ok(s: InstructionSegment) -> bool {
    s.start <= s.end && s.end <= 31 && s.end - s.start <= 30
}

/// The bits a single segment pins down.
pub open spec fn spec_seg_mask(s: InstructionSegment) -> u32 {
    if spec_seg_ok(s) {
        (0xFFFF_FFFFu32 >> ((31 - (s.end - s.start)) as u32)) << s.start
    } else {
        0
    }
}

/// The values those bits must take.
pub open spec fn spec_seg_comp(s: InstructionSegment) -> u32 {
    if spec_seg_ok(s) {
        s.comp << s.start
    } else {
        0
    }
}

/// The mask of the first `i` segments, OR-ed together.
pub open spec fn spec_mask_upto(segs: Seq<InstructionSegment>, i: int) -> u32
    decreases i,
{
    if i <= 0 {
        0
    } else {
        spec_mask_upto(segs, i - 1) | spec_seg_mask(segs[i - 1])
    }
}

/// The match value of the first `i` segments, OR-ed together.
pub open spec fn spec_comp_upto(segs: Seq<InstructionSegment>, i: int) -> u32
    decreases i,
{
    if i <= 0 {
        0
    } else {
        spec_comp_upto(segs, i - 1) | spec_seg_comp(segs[i - 1])
    }
}

/// Whether `inst` falls in this entry's opcode bucket and carries the
/// entry's fixed bits.
pub open spec fn spec_inst_matches(opcode: u32, segs: Seq<InstructionSegment>, inst: u32) -> bool {
    inst & 0x7F == opcode && inst & spec_mask_upto(segs, segs.len() as int) == spec_comp_upto(
        segs,
        segs.len() as int,
    )
}

/// The first entry of `table` at or after `i` that matches `inst`.
pub open spec fn spec_parse_from(table: Seq<Instructor>, i: int, inst: u32) -> Option<Op>
    decreases table.len() - i,
{
    if i < 0 || i >= table.len() {
        None
    } else if spec_inst_matches(table[i].opcode, table[i].segments@, inst) {
        Some(table[i].op)
    } else {
        spec_parse_from(table, i + 1, inst)
    }
}

impl Instructor {
    /// The bits this entry's segments pin down, beyond the opcode.
    pub fn mask(&self) -> (r: u32)
        ensures
            r == spec_mask_upto(self.segments@, self.segments@.len() as int),
    {
        let mut mask: u32 = 0;
        let mut i: usize = 0;
        let n = self.segments.len();
        while i < n
            invariant
                i <= n,
                n == self.segments@.len(),
                mask == spec_mask_upto(self.segments@, i as int),
            decreases n - i,
        {
            let s = self.segments[i];
            let m: u32 = if s.start <= s.end && s.end <= 31 && s.end - s.start <= 30 {
                (0xFFFF_FFFFu32 >> (31 - (s.end - s.start))) << s.start
            } else {
                0
            };
            mask = mask | m;
            i = i + 1;
        }
        mask
    }

    /// The value those bits must take.
    pub fn comp(&self) -> (r: u32)
        ensures
            r == spec_comp_upto(self.segments@, self.segments@.len() as int),
    {
        let mut comp: u32 = 0;
        let mut i: usize = 0;
        let n = self.segments.len();
        while i < n
            invariant
                i <= n,
                n == self.segments@.len(),
                comp == spec_comp_upto(self.segments@, i as int),
            decreases n - i,
        {
            let s = self.segments[i];
            let c: u32 = if s.start <= s.end && s.end <= 31 && s.end - s.start <= 30 {
                s.comp << s.start
            } else {
                0
            };
            comp = comp | c;
            i = i + 1;
        }
        comp
    }
}

/// Find the first table entry matching `inst`: its bucket is the
/// 7-bit primary opcode, and the first (mask, match) pair in insertion
/// order wins.
pub fn parse(table: &Vec<Instructor>, inst: u32) -> (r: Option<Op>)
    ensures
        r == spec_parse_from(table@, 0, inst),
{
    let mut i: usize = 0;
    let n = table.len();
    while i < n
        invariant
            i <= n,
            n == table@.len(),
            spec_parse_from(table@, 0, inst) == spec_parse_from(table@, i as int, inst),
        decreases n - i,
    {
        let e = &table[i];
        if inst & 0x7F == e.opcode {
            let mask = e.mask();
            let comp = e.comp();
            if inst & mask == comp {
                return Some(e.op);
            }
        }
        i = i + 1;
    }
    None
}

/// Fixed bits in the funct3 field.
pub fn funct3(f3: u8) -> (r: Vec<InstructionSegment>)
    ensures
        r@ =~= seq![InstructionSegment { start: 12, end: 14, comp: f3 as u32 }],
{
    vec![InstructionSegment { start: 12, end: 14, comp: f3 as u32 }]
}

/// Fixed bits in funct3 and funct7.
pub fn funct37(f3: u8, f7: u8) -> (r: Vec<InstructionSegment>)
    ensures
        r@ =~= seq![
            InstructionSegment { start: 12, end: 14, comp: f3 as u32 },
            InstructionSegment { start: 25, end: 31, comp: f7 as u32 },
        ],
{
    vec![
        InstructionSegment { start: 12, end: 14, comp: f3 as u32 },
        InstructionSegment { start: 25, end: 31, comp: f7 as u32 },
    ]
}

/// Fixed bits of an atomic instruction: funct3 and funct5.
pub fn funct_ra(f3: u8, f5: u8) -> (r: Vec<InstructionSegment>)
    ensures
        r@ =~= seq![
            InstructionSegment { start: 12, end: 14, comp: f3 as u32 },
            InstructionSegment { start: 27, end: 31, comp: f5 as u32 },
        ],
{
    vec![
        InstructionSegment { start: 12, end: 14, comp: f3 as u32 },
        InstructionSegment { start: 27, end: 31, comp: f5 as u32 },
    ]
}

/// As `funct_ra`, with the rs2 field also fixed to zero.
pub fn funct_ra_rs2(f3: u8, f5: u8) -> (r: Vec<InstructionSegment>)
    ensures
        r@ =~= seq![
            InstructionSegment { start: 12, end: 14, comp: f3 as u32 },
            InstructionSegment { start: 20, end: 24, comp: 0 },
            InstructionSegment { start: 27, end: 31, comp: f5 as u32 },
        ],
{
    vec![
        InstructionSegment { start: 12, end: 14, comp: f3 as u32 },
        InstructionSegment { start: 20, end: 24, comp: 0 },
        InstructionSegment { start: 27, end: 31, comp: f5 as u32 },
    ]
}

/// Fixed bits of a floating-point instruction: format and funct5.
pub fn funct_rfp(fmt: u8, f5: u8) -> (r: Vec<InstructionSegment>)
    ensures
        r@ =~= seq![
            InstructionSegment { start: 25, end: 26, comp: fmt as u32 },
            InstructionSegment { start: 27, end: 31, comp: f5 as u32 },
        ],
{
    vec![
        InstructionSegment { start: 25, end: 26, comp: fmt as u32 },
        InstructionSegment { start: 27, end: 31, comp: f5 as u32 },
    ]
}

/// As `funct_rfp`, with the rs2 field also fixed.
pub fn funct_rfp_rs2(rs2: u8, fmt: u8, f5: u8) -> (r: Vec<InstructionSegment>)
    ensures
        r@ =~= seq![
            InstructionSegment { start: 20, end: 24, comp: rs2 as u32 },
            InstructionSegment { start: 25, end: 26, comp: fmt as u32 },
            InstructionSegment { start: 27, end: 31, comp: f5 as u32 },
        ],
{
    vec![
        InstructionSegment { start: 20, end: 24, comp: rs2 as u32 },
        InstructionSegment { start: 25, end: 26, comp: fmt as u32 },
        InstructionSegment { start: 27, end: 31, comp: f5 as u32 },
    ]
}

/// The single fixed field of a fused multiply-add: the format.
pub fn funct_rfp_rs3(fmt: u8) -> (r: Vec<InstructionSegment>)
    ensures
        r@ =~= seq![InstructionSegment { start: 25, end: 26, comp: fmt as u32 }],
{
    vec![InstructionSegment { start: 25, end: 26, comp: fmt as u32 }]
}

/// Floating-point entries whose rounding-mode field is fixed.
pub fn funct_rfp_rm(rm: u8, fmt: u8, f5: u8) -> (r: Vec<InstructionSegment>)
    ensures
        r@ =~= seq![
            InstructionSegment { start: 12, end: 14, comp: rm as u32 },
            InstructionSegment { start: 25, end: 26, comp: fmt as u32 },
            InstructionSegment { start: 27, end: 31, comp: f5 as u32 },
        ],
{
    vec![
        InstructionSegment { start: 12, end: 14, comp: rm as u32 },
        InstructionSegment { start: 25, end: 26, comp: fmt as u32 },
        InstructionSegment { start: 27, end: 31, comp: f5 as u32 },
    ]
}

/// Floating-point entries with both rs2 and the rounding mode fixed.
pub fn funct_rfp_rs2_rm(rm: u8, rs2: u8, fmt: u8, f5: u8) -> (r: Vec<InstructionSegment>)
    ensures
        r@ =~= seq![
            InstructionSegment { start: 12, end: 14, comp: rm as u32 },
            InstructionSegment { start: 20, end: 24, comp: rs2 as u32 },
            InstructionSegment { start: 25, end: 26, comp: fmt as u32 },
            InstructionSegment { start: 27, end: 31, comp: f5 as u32 },
        ],
{
    vec![
        InstructionSegment { start: 12, end: 14, comp: rm as u32 },
        InstructionSegment { start: 20, end: 24, comp: rs2 as u32 },
        InstructionSegment { start: 25, end: 26, comp: fmt as u32 },
        InstructionSegment { start: 27, end: 31, comp: f5 as u32 },
    ]
}

/// The entries `i_entries` appends, pinned field by field from
/// position `base`.
pub open spec fn spec_i_entries_ok(t: Seq<Instructor>, base: int) -> bool {
    &&& t[base + 0].opcode == 0b0110111
    &&& t[base + 0].op == Op::Lui
    &&& t[base + 0].segments@ =~= Seq::<InstructionSegment>::empty()
    &&& t[base + 1].opcode == 0b0010111
    &&& t[base + 1].op == Op::Auipc
    &&& t[base + 1].segments@ =~= Seq::<InstructionSegment>::empty()
    &&& t[base + 2].opcode == 0b1101111
    &&& t[base + 2].op == Op::Jal
    &&& t[base + 2].segments@ =~= Seq::<InstructionSegment>::empty()
    &&& t[base + 3].opcode == 0b1100111
    &&& t[base + 3].op == Op::Jalr
    &&& t[base + 3].segments@ =~= seq![(InstructionSegment { start: 12, end: 14, comp: 0b000 })]
    &&& t[base + 4].opcode == 0b1100011
    &&& t[base + 4].op == Op::Beq
    &&& t[base + 4].segments@ =~= seq![(InstructionSegment { start: 12, end: 14, comp: 0b000 })]
    &&& t[base + 5].opcode == 0b1100011
    &&& t[base + 5].op == Op::Bne
    &&& t[base + 5].segments@ =~= seq![(InstructionSegment { start: 12, end: 14, comp: 0b001 })]
    &&& t[base + 6].opcode == 0b1100011
    &&& t[base + 6].op == Op::Blt
    &&& t[base + 6].segments@ =~= seq![(InstructionSegment { start: 12, end: 14, comp: 0b100 })]
    &&& t[base + 7].opcode == 0b1100011
    &&& t[base + 7].op == Op::Bge
    &&& t[base + 7].segments@ =~= seq![(InstructionSegment { start: 12, end: 14, comp: 0b101 })]
    &&& t[base + 8].opcode == 0b1100011
    &&& t[base + 8].op == Op::Bltu
    &&& t[base + 8].segments@ =~= seq![(InstructionSegment { start: 12, end: 14, comp: 0b110 })]
    &&& t[base + 9].opcode == 0b1100011
    &&& t[base + 9].op == Op::Bgeu
    &&& t[base + 9].segments@ =~= seq![(InstructionSegment { start: 12, end: 14, comp: 0b111 })]
    &&& t[base + 10].opcode == 0b0000011
    &&& t[base + 10].op == Op::Lb
    &&& t[base + 10].segments@ =~= seq![(InstructionSegment { start: 12, end: 14, comp: 0b000 })]
    &&& t[base + 11].opcode == 0b0000011
    &&& t[base + 11].op == Op::Lh
    &&& t[base + 11].segments@ =~= seq![(InstructionSegment { start: 12, end: 14, comp: 0b001 })]
    &&& t[base + 12].opcode == 0b0000011
    &&& t[base + 12].op == Op::Lw
    &&& t[base + 12].segments@ =~= seq![(InstructionSegment { start: 12, end: 14, comp: 0b010 })]
    &&& t[base + 13].opcode == 0b0000011
    &&& t[base + 13].op == Op::Lbu
    &&& t[base + 13].segments@ =~= seq![(InstructionSegment { start: 12, end: 14, comp: 0b100 })]
    &&& t[base + 14].opcode == 0b0000011
    &&& t[base + 14].op == Op::Lhu
    &&& t[base + 14].segments@ =~= seq![(InstructionSegment { start: 12, end: 14, comp: 0b101 })]
    &&& t[base + 15].opcode == 0b0000011
    &&& t[base + 15].op == Op::Lwu
    &&& t[base + 15].segments@ =~= seq![(InstructionSegment { start: 12, end: 14, comp: 0b110 })]
    &&& t[base + 16].opcode == 0b0000011
    &&& t[base + 16].op == Op::Ld
    &&& t[base + 16].segments@ =~= seq![(InstructionSegment { start: 12, end: 14, comp: 0b011 })]
    &&& t[base + 17].opcode == 0b0100011
    &&& t[base + 17].op == Op::Sb
    &&& t[base + 17].segments@ =~= seq![(InstructionSegment { start: 12, end: 14, comp: 0b000 })]
    &&& t[base + 18].opcode == 0b0100011
    &&& t[base + 18].op == Op::Sh
    &&& t[base + 18].segments@ =~= seq![(InstructionSegment { start: 12, end: 14, comp: 0b001 })]
    &&& t[base + 19].opcode == 0b0100011
    &&& t[base + 19].op == Op::Sw
    &&& t[base + 19].segments@ =~= seq![(InstructionSegment { start: 12, end: 14, comp: 0b010 })]
    &&& t[base + 20].opcode == 0b0100011
    &&& t[base + 20].op == Op::Sd
    &&& t[base + 20].segments@ =~= seq![(InstructionSegment { start: 12, end: 14, comp: 0b011 })]
    &&& t[base + 21].opcode == 0b0010011
    &&& t[base + 21].op == Op::Addi
    &&& t[base + 21].segments@ =~= seq![(InstructionSegment { start: 12, end: 14, comp: 0b000 })]
    &&& t[base + 22].opcode == 0b0010011
    &&& t[base + 22].op == Op::Slti
    &&& t[base + 22].segments@ =~= seq![(InstructionSegment { start: 12, end: 14, comp: 0b010 })]
    &&& t[base + 23].opcode == 0b0010011
    &&& t[base + 23].op == Op::Sltiu
    &&& t[base + 23].segments@ =~= seq![(InstructionSegment { start: 12, end: 14, comp: 0b011 })]
    &&& t[base + 24].opcode == 0b0010011
    &&& t[base + 24].op == Op::Xori
    &&& t[base + 24].segments@ =~= seq![(InstructionSegment { start: 12, end: 14, comp: 0b100 })]
    &&& t[base + 25].opcode == 0b0010011
    &&& t[base + 25].op == Op::Ori
    &&& t[base + 25].segments@ =~= seq![(InstructionSegment { start: 12, end: 14, comp: 0b110 })]
    &&& t[base + 26].opcode == 0b0010011
    &&& t[base + 26].op == Op::Andi
    &&& t[base + 26].segments@ =~= seq![(InstructionSegment { start: 12, end: 14, comp: 0b111 })]
    &&& t[base + 27].opcode == 0b0010011
    &&& t[base + 27].op == Op::Slli
    &&& t[base + 27].segments@ =~= seq![(InstructionSegment { start: 12, end: 14, comp: 0b001 }), (InstructionSegment { start: 26, end: 31, comp: 0b000000 })]
    &&& t[base + 28].opcode == 0b0010011
    &&& t[base + 28].op == Op::Srli
    &&& t[base + 28].segments@ =~= seq![(InstructionSegment { start: 12, end: 14, comp: 0b101 }), (InstructionSegment { start: 26, end: 31, comp: 0b000000 })]
    &&& t[base + 29].opcode == 0b0010011
    &&& t[base + 29].op == Op::Srai
    &&& t[base + 29].segments@ =~= seq![(InstructionSegment { start: 12, end: 14, comp: 0b101 }), (InstructionSegment { start: 26, end: 31, comp: 0b010000 })]
    &&& t[base + 30].opcode == 0b0110011
    &&& t[base + 30].op == Op::Add
    &&& t[base + 30].segments@ =~= seq![(InstructionSegment { start: 12, end: 14, comp: 0b000 }), (InstructionSegment { start: 25, end: 31, comp: 0b0000000 })]
    &&& t[base + 31].opcode == 0b0110011
    &&& t[base + 31].op == Op::Sub
    &&& t[base + 31].segments@ =~= seq![(InstructionSegment { start: 12, end: 14, comp: 0b000 }), (InstructionSegment { start: 25, end: 31, comp: 0b0100000 })]
    &&& t[base + 32].opcode == 0b0110011
    &&& t[base + 32].op == Op::Sll
    &&& t[base + 32].segments@ =~= seq![(InstructionSegment { start: 12, end: 14, comp: 0b001 }), (InstructionSegment { start: 25, end: 31, comp: 0b0000000 })]
    &&& t[base + 33].opcode == 0b0110011
    &&& t[base + 33].op == Op::Slt
    &&& t[base + 33].segments@ =~= seq![(InstructionSegment { start: 12, end: 14, comp: 0b010 }), (InstructionSegment { start: 25, end: 31, comp: 0b0000000 })]
    &&& t[base + 34].opcode == 0b0110011
    &&& t[base + 34].op == Op::Sltu
    &&& t[base + 34].segments@ =~= seq![(InstructionSegment { start: 12, end: 14, comp: 0b011 }), (InstructionSegment { start: 25, end: 31, comp: 0b0000000 })]
    &&& t[base + 35].opcode == 0b0110011
    &&& t[base + 35].op == Op::Xor
    &&& t[base + 35].segments@ =~= seq![(InstructionSegment { start: 12, end: 14, comp: 0b100 }), (InstructionSegment { start: 25, end: 31, comp: 0b0000000 })]
    &&& t[base + 36].opcode == 0b0110011
    &&& t[base + 36].op == Op::Srl
    &&& t[base + 36].segments@ =~= seq![(InstructionSegment { start: 12, end: 14, comp: 0b101 }), (InstructionSegment { start: 25, end: 31, comp: 0b0000000 })]
    &&& t[base + 37].opcode == 0b0110011
    &&& t[base + 37].op == Op::Sra
    &&& t[base + 37].segments@ =~= seq![(InstructionSegment { start: 12, end: 14, comp: 0b101 }), (InstructionSegment { start: 25, end: 31, comp: 0b0100000 })]
    &&& t[base + 38].opcode == 0b0110011
    &&& t[base + 38].op == Op::Or
    &&& t[base + 38].segments@ =~= seq![(InstructionSegment { start: 12, end: 14, comp: 0b110 }), (InstructionSegment { start: 25, end: 31, comp: 0b0000000 })]
    &&& t[base + 39].opcode == 0b0110011
    &&& t[base + 39].op == Op::And
    &&& t[base + 39].segments@ =~= seq![(InstructionSegment { start: 12, end: 14, comp: 0b111 }), (InstructionSegment { start: 25, end: 31, comp: 0b0000000 })]
    &&& t[base + 40].opcode == 0b0001111
    &&& t[base + 40].op == Op::Fence
    &&& t[base + 40].segments@ =~= seq![(InstructionSegment { start: 12, end: 14, comp: 0b000 })]
    &&& t[base + 41].opcode == 0b1110011
    &&& t[base + 41].op == Op::Ecall
    &&& t[base + 41].segments@ =~= seq![(InstructionSegment { start: 7, end: 31, comp: 0b0000000000000000000000000 })]
    &&& t[base + 42].opcode == 0b1110011
    &&& t[base + 42].op == Op::Ebreak
    &&& t[base + 42].segments@ =~= seq![(InstructionSegment { start: 7, end: 31, comp: 0b0000000000010000000000000 })]
    &&& t[base + 43].opcode == 0b0011011
    &&& t[base + 43].op == Op::Addiw
    &&& t[base + 43].segments@ =~= seq![(InstructionSegment { start: 12, end: 14, comp: 0b000 })]
    &&& t[base + 44].opcode == 0b0011011
    &&& t[base + 44].op == Op::Slliw
    &&& t[base + 44].segments@ =~= seq![(InstructionSegment { start: 12, end: 14, comp: 0b001 }), (InstructionSegment { start: 26, end: 31, comp: 0b000000 })]
    &&& t[base + 45].opcode == 0b0011011
    &&& t[base + 45].op == Op::Srliw
    &&& t[base + 45].segments@ =~= seq![(InstructionSegment { start: 12, end: 14, comp: 0b101 }), (InstructionSegment { start: 26, end: 31, comp: 0b000000 })]
    &&& t[base + 46].opcode == 0b0011011
    &&& t[base + 46].op == Op::Sraiw
    &&& t[base + 46].segments@ =~= seq![(InstructionSegment { start: 12, end: 14, comp: 0b101 }), (InstructionSegment { start: 26, end: 31, comp: 0b010000 })]
    &&& t[base + 47].opcode == 0b0111011
    &&& t[base + 47].op == Op::Addw
    &&& t[base + 47].segments@ =~= seq![(InstructionSegment { start: 12, end: 14, comp: 0b000 }), (InstructionSegment { start: 25, end: 31, comp: 0b0000000 })]
    &&& t[base + 48].opcode == 0b0111011
    &&& t[base + 48].op == Op::Subw
    &&& t[base + 48].segments@ =~= seq![(InstructionSegment { start: 12, end: 14, comp: 0b000 }), (InstructionSegment { start: 25, end: 31, comp: 0b0100000 })]
    &&& t[base + 49].opcode == 0b0111011
    &&& t[base + 49].op == Op::Sllw
    &&& t[base + 49].segments@ =~= seq![(InstructionSegment { start: 12, end: 14, comp: 0b001 }), (InstructionSegment { start: 25, end: 31, comp: 0b0000000 })]
    &&& t[base + 50].opcode == 0b0111011
    &&& t[base + 50].op == Op::Srlw
    &&& t[base + 50].segments@ =~= seq![(InstructionSegment { start: 12, end: 14, comp: 0b101 }), (InstructionSegment { start: 25, end: 31, comp: 0b0000000 })]
    &&& t[base + 51].opcode == 0b0111011
    &&& t[base + 51].op == Op::Sraw
    &&& t[base + 51].segments@ =~= seq![(InstructionSegment { start: 12, end: 14, comp: 0b101 }), (InstructionSegment { start: 25, end: 31, comp: 0b0100000 })]
}

/// The entries `zifenci_entries` appends, pinned field by field from
/// position `base`.
pub open spec fn spec_zifenci_entries_ok(t: Seq<Instructor>, base: int) -> bool {
    &&& t[base + 0].opcode == 0b0001111
    &&& t[base + 0].op == Op::FenceI
    &&& t[base + 0].segments@ =~= seq![(InstructionSegment { start: 12, end: 14, comp: 0b001 })]
}

/// The entries `zicsr_entries` appends, pinned field by field from
/// position `base`.
pub open spec fn spec_zicsr_entries_ok(t: Seq<Instructor>, base: int) -> bool {
    &&& t[base + 0].opcode == 0b1110011
    &&& t[base + 0].op == Op::Csrrw
    &&& t[base + 0].segments@ =~= seq![(InstructionSegment { start: 12, end: 14, comp: 0b001 })]
    &&& t[base + 1].opcode == 0b1110011
    &&& t[base + 1].op == Op::Csrrs
    &&& t[base + 1].segments@ =~= seq![(InstructionSegment { start: 12, end: 14, comp: 0b010 })]
    &&& t[base + 2].opcode == 0b1110011
    &&& t[base + 2].op == Op::Csrrc
    &&& t[base + 2].segments@ =~= seq![(InstructionSegment { start: 12, end: 14, comp: 0b011 })]
    &&& t[base + 3].opcode == 0b1110011
    &&& t[base + 3].op == Op::Csrrwi
    &&& t[base + 3].segments@ =~= seq![(InstructionSegment { start: 12, end: 14, comp: 0b101 })]
    &&& t[base + 4].opcode == 0b1110011
    &&& t[base + 4].op == Op::Csrrsi
    &&& t[base + 4].segments@ =~= seq![(InstructionSegment { start: 12, end: 14, comp: 0b110 })]
    &&& t[base + 5].opcode == 0b1110011
    &&& t[base + 5].op == Op::Csrrci
    &&& t[base + 5].segments@ =~= seq![(InstructionSegment { start: 12, end: 14, comp: 0b111 })]
}

/// The entries `m_entries` appends, pinned field by field from
/// position `base`.
pub open spec fn spec_m_entries_ok(t: Seq<Instructor>, base: int) -> bool {
    &&& t[base + 0].opcode == 0b0110011
    &&& t[base + 0].op == Op::Mul
    &&& t[base + 0].segments@ =~= seq![(InstructionSegment { start: 12, end: 14, comp: 0b000 }), (InstructionSegment { start: 25, end: 31, comp: 0b0000001 })]
    &&& t[base + 1].opcode == 0b0110011
    &&& t[base + 1].op == Op::Mulh
    &&& t[base + 1].segments@ =~= seq![(InstructionSegment { start: 12, end: 14, comp: 0b001 }), (InstructionSegment { start: 25, end: 31, comp: 0b0000001 })]
    &&& t[base + 2].opcode == 0b0110011
    &&& t[base + 2].op == Op::Mulhsu
    &&& t[base + 2].segments@ =~= seq![(InstructionSegment { start: 12, end: 14, comp: 0b010 }), (InstructionSegment { start: 25, end: 31, comp: 0b0000001 })]
    &&& t[base + 3].opcode == 0b0110011
    &&& t[base + 3].op == Op::Mulhu
    &&& t[base + 3].segments@ =~= seq![(InstructionSegment { start: 12, end: 14, comp: 0b011 }), (InstructionSegment { start: 25, end: 31, comp: 0b0000001 })]
    &&& t[base + 4].opcode == 0b0110011
    &&& t[base + 4].op == Op::Div
    &&& t[base + 4].segments@ =~= seq![(InstructionSegment { start: 12, end: 14, comp: 0b100 }), (InstructionSegment { start: 25, end: 31, comp: 0b0000001 })]
    &&& t[base + 5].opcode == 0b0110011
    &&& t[base + 5].op == Op::Divu
    &&& t[base + 5].segments@ =~= seq![(InstructionSegment { start: 12, end: 14, comp: 0b101 }), (InstructionSegment { start: 25, end: 31, comp: 0b0000001 })]
    &&& t[base + 6].opcode == 0b0110011
    &&& t[base + 6].op == Op::Rem
    &&& t[base + 6].segments@ =~= seq![(InstructionSegment { start: 12, end: 14, comp: 0b110 }), (InstructionSegment { start: 25, end: 31, comp: 0b0000001 })]
    &&& t[base + 7].opcode == 0b0110011
    &&& t[base + 7].op == Op::Remu
    &&& t[base + 7].segments@ =~= seq![(InstructionSegment { start: 12, end: 14, comp: 0b111 }), (InstructionSegment { start: 25, end: 31, comp: 0b0000001 })]
    &&& t[base + 8].opcode == 0b0111011
    &&& t[base + 8].op == Op::Mulw
    &&& t[base + 8].segments@ =~= seq![(InstructionSegment { start: 12, end: 14, comp: 0b000 }), (InstructionSegment { start: 25, end: 31, comp: 0b0000001 })]
    &&& t[base + 9].opcode == 0b0111011
    &&& t[base + 9].op == Op::Divw
    &&& t[base + 9].segments@ =~= seq![(InstructionSegment { start: 12, end: 14, comp: 0b100 }), (InstructionSegment { start: 25, end: 31, comp: 0b0000001 })]
    &&& t[base + 10].opcode == 0b0111011
    &&& t[base + 10].op == Op::Divuw
    &&& t[base + 10].segments@ =~= seq![(InstructionSegment { start: 12, end: 14, comp: 0b101 }), (InstructionSegment { start: 25, end: 31, comp: 0b0000001 })]
    &&& t[base + 11].opcode == 0b0111011
    &&& t[base + 11].op == Op::Remw
    &&& t[base + 11].segments@ =~= seq![(InstructionSegment { start: 12, end: 14, comp: 0b110 }), (InstructionSegment { start: 25, end: 31, comp: 0b0000001 })]
    &&& t[base + 12].opcode == 0b0111011
    &&& t[base + 12].op == Op::Remuw
    &&& t[base + 12].segments@ =~= seq![(InstructionSegment { start: 12, end: 14, comp: 0b111 }), (InstructionSegment { start: 25, end: 31, comp: 0b0000001 })]
}

/// The entries `a_entries` appends, pinned field by field from
/// position `base`.
pub open spec fn spec_a_entries_ok(t: Seq<Instructor>, base: int) -> bool {
    &&& t[base + 0].opcode == 0b0101111
    &&& t[base + 0].op == Op::LrW
    &&& t[base + 0].segments@ =~= seq![(InstructionSegment { start: 12, end: 14, comp: 0b010 }), (InstructionSegment { start: 20, end: 24, comp: 0 }), (InstructionSegment { start: 27, end: 31, comp: 0b00010 })]
    &&& t[base + 1].opcode == 0b0101111
    &&& t[base + 1].op == Op::ScW
    &&& t[base + 1].segments@ =~= seq![(InstructionSegment { start: 12, end: 14, comp: 0b010 }), (InstructionSegment { start: 27, end: 31, comp: 0b00011 })]
    &&& t[base + 2].opcode == 0b0101111
    &&& t[base + 2].op == Op::AmoswapW
    &&& t[base + 2].segments@ =~= seq![(InstructionSegment { start: 12, end: 14, comp: 0b010 }), (InstructionSegment { start: 27, end: 31, comp: 0b00001 })]
    &&& t[base + 3].opcode == 0b0101111
    &&& t[base + 3].op == Op::AmoaddW
    &&& t[base + 3].segments@ =~= seq![(InstructionSegment { start: 12, end: 14, comp: 0b010 }), (InstructionSegment { start: 27, end: 31, comp: 0b00000 })]
    &&& t[base + 4].opcode == 0b0101111
    &&& t[base + 4].op == Op::AmoxorW
    &&& t[base + 4].segments@ =~= seq![(InstructionSegment { start: 12, end: 14, comp: 0b010 }), (InstructionSegment { start: 27, end: 31, comp: 0b00100 })]
    &&& t[base + 5].opcode == 0b0101111
    &&& t[base + 5].op == Op::AmoandW
    &&& t[base + 5].segments@ =~= seq![(InstructionSegment { start: 12, end: 14, comp: 0b010 }), (InstructionSegment { start: 27, end: 31, comp: 0b01100 })]
    &&& t[base + 6].opcode == 0b0101111
    &&& t[base + 6].op == Op::AmoorW
    &&& t[base + 6].segments@ =~= seq![(InstructionSegment { start: 12, end: 14, comp: 0b010 }), (InstructionSegment { start: 27, end: 31, comp: 0b01000 })]
    &&& t[base + 7].opcode == 0b0101111
    &&& t[base + 7].op == Op::AmominW
    &&& t[base + 7].segments@ =~= seq![(InstructionSegment { start: 12, end: 14, comp: 0b010 }), (InstructionSegment { start: 27, end: 31, comp: 0b10000 })]
    &&& t[base + 8].opcode == 0b0101111
    &&& t[base + 8].op == Op::AmomaxW
    &&& t[base + 8].segments@ =~= seq![(InstructionSegment { start: 12, end: 14, comp: 0b010 }), (InstructionSegment { start: 27, end: 31, comp: 0b10100 })]
    &&& t[base + 9].opcode == 0b0101111
    &&& t[base + 9].op == Op::AmominuW
    &&& t[base + 9].segments@ =~= seq![(InstructionSegment { start: 12, end: 14, comp: 0b010 }), (InstructionSegment { start: 27, end: 31, comp: 0b11000 })]
    &&& t[base + 10].opcode == 0b0101111
    &&& t[base + 10].op == Op::AmomaxuW
    &&& t[base + 10].segments@ =~= seq![(InstructionSegment { start: 12, end: 14, comp: 0b010 }), (InstructionSegment { start: 27, end: 31, comp: 0b11100 })]
    &&& t[base + 11].opcode == 0b0101111
    &&& t[base + 11].op == Op::LrD
    &&& t[base + 11].segments@ =~= seq![(InstructionSegment { start: 12, end: 14, comp: 0b011 }), (InstructionSegment { start: 20, end: 24, comp: 0 }), (InstructionSegment { start: 27, end: 31, comp: 0b00010 })]
    &&& t[base + 12].opcode == 0b0101111
    &&& t[base + 12].op == Op::ScD
    &&& t[base + 12].segments@ =~= seq![(InstructionSegment { start: 12, end: 14, comp: 0b011 }), (InstructionSegment { start: 27, end: 31, comp: 0b00011 })]
    &&& t[base + 13].opcode == 0b0101111
    &&& t[base + 13].op == Op::AmoswapD
    &&& t[base + 13].segments@ =~= seq![(InstructionSegment { start: 12, end: 14, comp: 0b011 }), (InstructionSegment { start: 27, end: 31, comp: 0b00001 })]
    &&& t[base + 14].opcode == 0b0101111
    &&& t[base + 14].op == Op::AmoaddD
    &&& t[base + 14].segments@ =~= seq![(InstructionSegment { start: 12, end: 14, comp: 0b011 }), (InstructionSegment { start: 27, end: 31, comp: 0b00000 })]
    &&& t[base + 15].opcode == 0b0101111
    &&& t[base + 15].op == Op::AmoxorD
    &&& t[base + 15].segments@ =~= seq![(InstructionSegment { start: 12, end: 14, comp: 0b011 }), (InstructionSegment { start: 27, end: 31, comp: 0b00100 })]
    &&& t[base + 16].opcode == 0b0101111
    &&& t[base + 16].op == Op::AmoandD
    &&& t[base + 16].segments@ =~= seq![(InstructionSegment { start: 12, end: 14, comp: 0b011 }), (InstructionSegment { start: 27, end: 31, comp: 0b01100 })]
    &&& t[base + 17].opcode == 0b0101111
    &&& t[base + 17].op == Op::AmoorD
    &&& t[base + 17].segments@ =~= seq![(InstructionSegment { start: 12, end: 14, comp: 0b011 }), (InstructionSegment { start: 27, end: 31, comp: 0b01000 })]
    &&& t[base + 18].opcode == 0b0101111
    &&& t[base + 18].op == Op::AmominD
    &&& t[base + 18].segments@ =~= seq![(InstructionSegment { start: 12, end: 14, comp: 0b011 }), (InstructionSegment { start: 27, end: 31, comp: 0b10000 })]
    &&& t[base + 19].opcode == 0b0101111
    &&& t[base + 19].op == Op::AmomaxD
    &&& t[base + 19].segments@ =~= seq![(InstructionSegment { start: 12, end: 14, comp: 0b011 }), (InstructionSegment { start: 27, end: 31, comp: 0b10100 })]
    &&& t[base + 20].opcode == 0b0101111
    &&& t[base + 20].op == Op::AmominuD
    &&& t[base + 20].segments@ =~= seq![(InstructionSegment { start: 12, end: 14, comp: 0b011 }), (InstructionSegment { start: 27, end: 31, comp: 0b11000 })]
    &&& t[base + 21].opcode == 0b0101111
    &&& t[base + 21].op == Op::AmomaxuD
    &&& t[base + 21].segments@ =~= seq![(InstructionSegment { start: 12, end: 14, comp: 0b011 }), (InstructionSegment { start: 27, end: 31, comp: 0b11100 })]
}

/// The entries `f_entries` appends, pinned field by field from
/// position `base`.
pub open spec fn spec_f_entries_ok(t: Seq<Instructor>, base: int) -> bool {
    &&& t[base + 0].opcode == 0b0000111
    &&& t[base + 0].op == Op::Flw
    &&& t[base + 0].segments@ =~= seq![(InstructionSegment { start: 12, end: 14, comp: 0b010 })]
    &&& t[base + 1].opcode == 0b0100111
    &&& t[base + 1].op == Op::Fsw
    &&& t[base + 1].segments@ =~= seq![(InstructionSegment { start: 12, end: 14, comp: 0b010 })]
    &&& t[base + 2].opcode == 0b1000011
    &&& t[base + 2].op == Op::FmaddS
    &&& t[base + 2].segments@ =~= seq![(InstructionSegment { start: 25, end: 26, comp: 0b00 })]
    &&& t[base + 3].opcode == 0b1000111
    &&& t[base + 3].op == Op::FmsubS
    &&& t[base + 3].segments@ =~= seq![(InstructionSegment { start: 25, end: 26, comp: 0b00 })]
    &&& t[base + 4].opcode == 0b1001011
    &&& t[base + 4].op == Op::FnmsubS
    &&& t[base + 4].segments@ =~= seq![(InstructionSegment { start: 25, end: 26, comp: 0b00 })]
    &&& t[base + 5].opcode == 0b1001111
    &&& t[base + 5].op == Op::FnmaddS
    &&& t[base + 5].segments@ =~= seq![(InstructionSegment { start: 25, end: 26, comp: 0b00 })]
    &&& t[base + 6].opcode == 0b1010011
    &&& t[base + 6].op == Op::FaddS
    &&& t[base + 6].segments@ =~= seq![(InstructionSegment { start: 25, end: 26, comp: 0b00 }), (InstructionSegment { start: 27, end: 31, comp: 0b00000 })]
    &&& t[base + 7].opcode == 0b1010011
    &&& t[base + 7].op == Op::FsubS
    &&& t[base + 7].segments@ =~= seq![(InstructionSegment { start: 25, end: 26, comp: 0b00 }), (InstructionSegment { start: 27, end: 31, comp: 0b00001 })]
    &&& t[base + 8].opcode == 0b1010011
    &&& t[base + 8].op == Op::FmulS
    &&& t[base + 8].segments@ =~= seq![(InstructionSegment { start: 25, end: 26, comp: 0b00 }), (InstructionSegment { start: 27, end: 31, comp: 0b00010 })]
    &&& t[base + 9].opcode == 0b1010011
    &&& t[base + 9].op == Op::FdivS
    &&& t[base + 9].segments@ =~= seq![(InstructionSegment { start: 25, end: 26, comp: 0b00 }), (InstructionSegment { start: 27, end: 31, comp: 0b00011 })]
    &&& t[base + 10].opcode == 0b1010011
    &&& t[base + 10].op == Op::FsqrtS
    &&& t[base + 10].segments@ =~= seq![(InstructionSegment { start: 20, end: 24, comp: 0b00000 }), (InstructionSegment { start: 25, end: 26, comp: 0b00 }), (InstructionSegment { start: 27, end: 31, comp: 0b01011 })]
    &&& t[base + 11].opcode == 0b1010011
    &&& t[base + 11].op == Op::FsgnjS
    &&& t[base + 11].segments@ =~= seq![(InstructionSegment { start: 12, end: 14, comp: 0b000 }), (InstructionSegment { start: 25, end: 26, comp: 0b00 }), (InstructionSegment { start: 27, end: 31, comp: 0b00100 })]
    &&& t[base + 12].opcode == 0b1010011
    &&& t[base + 12].op == Op::FsgnjnS
    &&& t[base + 12].segments@ =~= seq![(InstructionSegment { start: 12, end: 14, comp: 0b001 }), (InstructionSegment { start: 25, end: 26, comp: 0b00 }), (InstructionSegment { start: 27, end: 31, comp: 0b00100 })]
    &&& t[base + 13].opcode == 0b1010011
    &&& t[base + 13].op == Op::FsgnjxS
    &&& t[base + 13].segments@ =~= seq![(InstructionSegment { start: 12, end: 14, comp: 0b010 }), (InstructionSegment { start: 25, end: 26, comp: 0b00 }), (InstructionSegment { start: 27, end: 31, comp: 0b00100 })]
    &&& t[base + 14].opcode == 0b1010011
    &&& t[base + 14].op == Op::FminS
    &&& t[base + 14].segments@ =~= seq![(InstructionSegment { start: 12, end: 14, comp: 0b000 }), (InstructionSegment { start: 25, end: 26, comp: 0b00 }), (InstructionSegment { start: 27, end: 31, comp: 0b00101 })]
    &&& t[base + 15].opcode == 0b1010011
    &&& t[base + 15].op == Op::FmaxS
    &&& t[base + 15].segments@ =~= seq![(InstructionSegment { start: 12, end: 14, comp: 0b001 }), (InstructionSegment { start: 25, end: 26, comp: 0b00 }), (InstructionSegment { start: 27, end: 31, comp: 0b00101 })]
    &&& t[base + 16].opcode == 0b1010011
    &&& t[base + 16].op == Op::FcvtWS
    &&& t[base + 16].segments@ =~= seq![(InstructionSegment { start: 20, end: 24, comp: 0b00000 }), (InstructionSegment { start: 25, end: 26, comp: 0b00 }), (InstructionSegment { start: 27, end: 31, comp: 0b11000 })]
    &&& t[base + 17].opcode == 0b1010011
    &&& t[base + 17].op == Op::FcvtWuS
    &&& t[base + 17].segments@ =~= seq![(InstructionSegment { start: 20, end: 24, comp: 0b00001 }), (InstructionSegment { start: 25, end: 26, comp: 0b00 }), (InstructionSegment { start: 27, end: 31, comp: 0b11000 })]
    &&& t[base + 18].opcode == 0b1010011
    &&& t[base + 18].op == Op::FcvtLS
    &&& t[base + 18].segments@ =~= seq![(InstructionSegment { start: 20, end: 24, comp: 0b00010 }), (InstructionSegment { start: 25, end: 26, comp: 0b00 }), (InstructionSegment { start: 27, end: 31, comp: 0b11000 })]
    &&& t[base + 19].opcode == 0b1010011
    &&& t[base + 19].op == Op::FcvtLuS
    &&& t[base + 19].segments@ =~= seq![(InstructionSegment { start: 20, end: 24, comp: 0b00011 }), (InstructionSegment { start: 25, end: 26, comp: 0b00 }), (InstructionSegment { start: 27, end: 31, comp: 0b11000 })]
    &&& t[base + 20].opcode == 0b1010011
    &&& t[base + 20].op == Op::FmvXW
    &&& t[base + 20].segments@ =~= seq![(InstructionSegment { start: 12, end: 14, comp: 0b000 }), (InstructionSegment { start: 20, end: 24, comp: 0b00000 }), (InstructionSegment { start: 25, end: 26, comp: 0b00 }), (InstructionSegment { start: 27, end: 31, comp: 0b11100 })]
    &&& t[base + 21].opcode == 0b1010011
    &&& t[base + 21].op == Op::FeqS
    &&& t[base + 21].segments@ =~= seq![(InstructionSegment { start: 12, end: 14, comp: 0b010 }), (InstructionSegment { start: 25, end: 26, comp: 0b00 }), (InstructionSegment { start: 27, end: 31, comp: 0b10100 })]
    &&& t[base + 22].opcode == 0b1010011
    &&& t[base + 22].op == Op::FltS
    &&& t[base + 22].segments@ =~= seq![(InstructionSegment { start: 12, end: 14, comp: 0b001 }), (InstructionSegment { start: 25, end: 26, comp: 0b00 }), (InstructionSegment { start: 27, end: 31, comp: 0b10100 })]
    &&& t[base + 23].opcode == 0b1010011
    &&& t[base + 23].op == Op::FleS
    &&& t[base + 23].segments@ =~= seq![(InstructionSegment { start: 12, end: 14, comp: 0b000 }), (InstructionSegment { start: 25, end: 26, comp: 0b00 }), (InstructionSegment { start: 27, end: 31, comp: 0b10100 })]
    &&& t[base + 24].opcode == 0b1010011
    &&& t[base + 24].op == Op::FclassS
    &&& t[base + 24].segments@ =~= seq![(InstructionSegment { start: 12, end: 14, comp: 0b001 }), (InstructionSegment { start: 20, end: 24, comp: 0b00000 }), (InstructionSegment { start: 25, end: 26, comp: 0b00 }), (InstructionSegment { start: 27, end: 31, comp: 0b11100 })]
    &&& t[base + 25].opcode == 0b1010011
    &&& t[base + 25].op == Op::FcvtSW
    &&& t[base + 25].segments@ =~= seq![(InstructionSegment { start: 20, end: 24, comp: 0b00000 }), (InstructionSegment { start: 25, end: 26, comp: 0b00 }), (InstructionSegment { start: 27, end: 31, comp: 0b11010 })]
    &&& t[base + 26].opcode == 0b1010011
    &&& t[base + 26].op == Op::FcvtSWu
    &&& t[base + 26].segments@ =~= seq![(InstructionSegment { start: 20, end: 24, comp: 0b00001 }), (InstructionSegment { start: 25, end: 26, comp: 0b00 }), (InstructionSegment { start: 27, end: 31, comp: 0b11010 })]
    &&& t[base + 27].opcode == 0b1010011
    &&& t[base + 27].op == Op::FcvtSL
    &&& t[base + 27].segments@ =~= seq![(InstructionSegment { start: 20, end: 24, comp: 0b00010 }), (InstructionSegment { start: 25, end: 26, comp: 0b00 }), (InstructionSegment { start: 27, end: 31, comp: 0b11010 })]
    &&& t[base + 28].opcode == 0b1010011
    &&& t[base + 28].op == Op::FcvtSLu
    &&& t[base + 28].segments@ =~= seq![(InstructionSegment { start: 20, end: 24, comp: 0b00011 }), (InstructionSegment { start: 25, end: 26, comp: 0b00 }), (InstructionSegment { start: 27, end: 31, comp: 0b11010 })]
    &&& t[base + 29].opcode == 0b1010011
    &&& t[base + 29].op == Op::FmvWX
    &&& t[base + 29].segments@ =~= seq![(InstructionSegment { start: 12, end: 14, comp: 0b000 }), (InstructionSegment { start: 20, end: 24, comp: 0b00000 }), (InstructionSegment { start: 25, end: 26, comp: 0b00 }), (InstructionSegment { start: 27, end: 31, comp: 0b11110 })]
}

/// The entries `d_entries` appends, pinned field by field from
/// position `base`.
pub open spec fn spec_d_entries_ok(t: Seq<Instructor>, base: int) -> bool {
    &&& t[base + 0].opcode == 0b0000111
    &&& t[base + 0].op == Op::Fld
    &&& t[base + 0].segments@ =~= seq![(InstructionSegment { start: 12, end: 14, comp: 0b011 })]
    &&& t[base + 1].opcode == 0b0100111
    &&& t[base + 1].op == Op::Fsd
    &&& t[base + 1].segments@ =~= seq![(InstructionSegment { start: 12, end: 14, comp: 0b011 })]
    &&& t[base + 2].opcode == 0b1000011
    &&& t[base + 2].op == Op::FmaddD
    &&& t[base + 2].segments@ =~= seq![(InstructionSegment { start: 25, end: 26, comp: 0b01 })]
    &&& t[base + 3].opcode == 0b1000111
    &&& t[base + 3].op == Op::FmsubD
    &&& t[base + 3].segments@ =~= seq![(InstructionSegment { start: 25, end: 26, comp: 0b01 })]
    &&& t[base + 4].opcode == 0b1001011
    &&& t[base + 4].op == Op::FnmsubD
    &&& t[base + 4].segments@ =~= seq![(InstructionSegment { start: 25, end: 26, comp: 0b01 })]
    &&& t[base + 5].opcode == 0b1001111
    &&& t[base + 5].op == Op::FnmaddD
    &&& t[base + 5].segments@ =~= seq![(InstructionSegment { start: 25, end: 26, comp: 0b01 })]
    &&& t[base + 6].opcode == 0b1010011
    &&& t[base + 6].op == Op::FaddD
    &&& t[base + 6].segments@ =~= seq![(InstructionSegment { start: 25, end: 26, comp: 0b01 }), (InstructionSegment { start: 27, end: 31, comp: 0b00000 })]
    &&& t[base + 7].opcode == 0b1010011
    &&& t[base + 7].op == Op::FsubD
    &&& t[base + 7].segments@ =~= seq![(InstructionSegment { start: 25, end: 26, comp: 0b01 }), (InstructionSegment { start: 27, end: 31, comp: 0b00001 })]
    &&& t[base + 8].opcode == 0b1010011
    &&& t[base + 8].op == Op::FmulD
    &&& t[base + 8].segments@ =~= seq![(InstructionSegment { start: 25, end: 26, comp: 0b01 }), (InstructionSegment { start: 27, end: 31, comp: 0b00010 })]
    &&& t[base + 9].opcode == 0b1010011
    &&& t[base + 9].op == Op::FdivD
    &&& t[base + 9].segments@ =~= seq![(InstructionSegment { start: 25, end: 26, comp: 0b01 }), (InstructionSegment { start: 27, end: 31, comp: 0b00011 })]
    &&& t[base + 10].opcode == 0b1010011
    &&& t[base + 10].op == Op::FsqrtD
    &&& t[base + 10].segments@ =~= seq![(InstructionSegment { start: 20, end: 24, comp: 0b00000 }), (InstructionSegment { start: 25, end: 26, comp: 0b01 }), (InstructionSegment { start: 27, end: 31, comp: 0b01011 })]
    &&& t[base + 11].opcode == 0b1010011
    &&& t[base + 11].op == Op::FsgnjD
    &&& t[base + 11].segments@ =~= seq![(InstructionSegment { start: 12, end: 14, comp: 0b000 }), (InstructionSegment { start: 25, end: 26, comp: 0b01 }), (InstructionSegment { start: 27, end: 31, comp: 0b00100 })]
    &&& t[base + 12].opcode == 0b1010011
    &&& t[base + 12].op == Op::FsgnjnD
    &&& t[base + 12].segments@ =~= seq![(InstructionSegment { start: 12, end: 14, comp: 0b001 }), (InstructionSegment { start: 25, end: 26, comp: 0b01 }), (InstructionSegment { start: 27, end: 31, comp: 0b00100 })]
    &&& t[base + 13].opcode == 0b1010011
    &&& t[base + 13].op == Op::FsgnjxD
    &&& t[base + 13].segments@ =~= seq![(InstructionSegment { start: 12, end: 14, comp: 0b010 }), (InstructionSegment { start: 25, end: 26, comp: 0b01 }), (InstructionSegment { start: 27, end: 31, comp: 0b00100 })]
    &&& t[base + 14].opcode == 0b1010011
    &&& t[base + 14].op == Op::FminD
    &&& t[base + 14].segments@ =~= seq![(InstructionSegment { start: 12, end: 14, comp: 0b000 }), (InstructionSegment { start: 25, end: 26, comp: 0b01 }), (InstructionSegment { start: 27, end: 31, comp: 0b00101 })]
    &&& t[base + 15].opcode == 0b1010011
    &&& t[base + 15].op == Op::FmaxD
    &&& t[base + 15].segments@ =~= seq![(InstructionSegment { start: 12, end: 14, comp: 0b001 }), (InstructionSegment { start: 25, end: 26, comp: 0b01 }), (InstructionSegment { start: 27, end: 31, comp: 0b00101 })]
    &&& t[base + 16].opcode == 0b1010011
    &&& t[base + 16].op == Op::FcvtSD
    &&& t[base + 16].segments@ =~= seq![(InstructionSegment { start: 20, end: 24, comp: 0b00001 }), (InstructionSegment { start: 25, end: 26, comp: 0b00 }), (InstructionSegment { start: 27, end: 31, comp: 0b01000 })]
    &&& t[base + 17].opcode == 0b1010011
    &&& t[base + 17].op == Op::FcvtDS
    &&& t[base + 17].segments@ =~= seq![(InstructionSegment { start: 20, end: 24, comp: 0b00000 }), (InstructionSegment { start: 25, end: 26, comp: 0b01 }), (InstructionSegment { start: 27, end: 31, comp: 0b01000 })]
    &&& t[base + 18].opcode == 0b1010011
    &&& t[base + 18].op == Op::FeqD
    &&& t[base + 18].segments@ =~= seq![(InstructionSegment { start: 12, end: 14, comp: 0b010 }), (InstructionSegment { start: 25, end: 26, comp: 0b01 }), (InstructionSegment { start: 27, end: 31, comp: 0b10100 })]
    &&& t[base + 19].opcode == 0b1010011
    &&& t[base + 19].op == Op::FltD
    &&& t[base + 19].segments@ =~= seq![(InstructionSegment { start: 12, end: 14, comp: 0b001 }), (InstructionSegment { start: 25, end: 26, comp: 0b01 }), (InstructionSegment { start: 27, end: 31, comp: 0b10100 })]
    &&& t[base + 20].opcode == 0b1010011
    &&& t[base + 20].op == Op::FleD
    &&& t[base + 20].segments@ =~= seq![(InstructionSegment { start: 12, end: 14, comp: 0b000 }), (InstructionSegment { start: 25, end: 26, comp: 0b01 }), (InstructionSegment { start: 27, end: 31, comp: 0b10100 })]
    &&& t[base + 21].opcode == 0b1010011
    &&& t[base + 21].op == Op::FclassD
    &&& t[base + 21].segments@ =~= seq![(InstructionSegment { start: 12, end: 14, comp: 0b001 }), (InstructionSegment { start: 20, end: 24, comp: 0b00000 }), (InstructionSegment { start: 25, end: 26, comp: 0b01 }), (InstructionSegment { start: 27, end: 31, comp: 0b11100 })]
    &&& t[base + 22].opcode == 0b1010011
    &&& t[base + 22].op == Op::FcvtWD
    &&& t[base + 22].segments@ =~= seq![(InstructionSegment { start: 20, end: 24, comp: 0b00000 }), (InstructionSegment { start: 25, end: 26, comp: 0b01 }), (InstructionSegment { start: 27, end: 31, comp: 0b11000 })]
    &&& t[base + 23].opcode == 0b1010011
    &&& t[base + 23].op == Op::FcvtWuD
    &&& t[base + 23].segments@ =~= seq![(InstructionSegment { start: 20, end: 24, comp: 0b00001 }), (InstructionSegment { start: 25, end: 26, comp: 0b01 }), (InstructionSegment { start: 27, end: 31, comp: 0b11000 })]
    &&& t[base + 24].opcode == 0b1010011
    &&& t[base + 24].op == Op::FcvtLD
    &&& t[base + 24].segments@ =~= seq![(InstructionSegment { start: 20, end: 24, comp: 0b00010 }), (InstructionSegment { start: 25, end: 26, comp: 0b01 }), (InstructionSegment { start: 27, end: 31, comp: 0b11000 })]
    &&& t[base + 25].opcode == 0b1010011
    &&& t[base + 25].op == Op::FcvtLuD
    &&& t[base + 25].segments@ =~= seq![(InstructionSegment { start: 20, end: 24, comp: 0b00011 }), (InstructionSegment { start: 25, end: 26, comp: 0b01 }), (InstructionSegment { start: 27, end: 31, comp: 0b11000 })]
    &&& t[base + 26].opcode == 0b1010011
    &&& t[base + 26].op == Op::FcvtDW
    &&& t[base + 26].segments@ =~= seq![(InstructionSegment { start: 20, end: 24, comp: 0b00000 }), (InstructionSegment { start: 25, end: 26, comp: 0b01 }), (InstructionSegment { start: 27, end: 31, comp: 0b11010 })]
    &&& t[base + 27].opcode == 0b1010011
    &&& t[base + 27].op == Op::FcvtDWu
    &&& t[base + 27].segments@ =~= seq![(InstructionSegment { start: 20, end: 24, comp: 0b00001 }), (InstructionSegment { start: 25, end: 26, comp: 0b01 }), (InstructionSegment { start: 27, end: 31, comp: 0b11010 })]
    &&& t[base + 28].opcode == 0b1010011
    &&& t[base + 28].op == Op::FcvtDL
    &&& t[base + 28].segments@ =~= seq![(InstructionSegment { start: 20, end: 24, comp: 0b00010 }), (InstructionSegment { start: 25, end: 26, comp: 0b01 }), (InstructionSegment { start: 27, end: 31, comp: 0b11010 })]
    &&& t[base + 29].opcode == 0b1010011
    &&& t[base + 29].op == Op::FcvtDLu
    &&& t[base + 29].segments@ =~= seq![(InstructionSegment { start: 20, end: 24, comp: 0b00011 }), (InstructionSegment { start: 25, end: 26, comp: 0b01 }), (InstructionSegment { start: 27, end: 31, comp: 0b11010 })]
    &&& t[base + 30].opcode == 0b1010011
    &&& t[base + 30].op == Op::FmvXD
    &&& t[base + 30].segments@ =~= seq![(InstructionSegment { start: 12, end: 14, comp: 0b000 }), (InstructionSegment { start: 20, end: 24, comp: 0b00000 }), (InstructionSegment { start: 25, end: 26, comp: 0b01 }), (InstructionSegment { start: 27, end: 31, comp: 0b11100 })]
    &&& t[base + 31].opcode == 0b1010011
    &&& t[base + 31].op == Op::FmvDX
    &&& t[base + 31].segments@ =~= seq![(InstructionSegment { start: 12, end: 14, comp: 0b000 }), (InstructionSegment { start: 20, end: 24, comp: 0b00000 }), (InstructionSegment { start: 25, end: 26, comp: 0b01 }), (InstructionSegment { start: 27, end: 31, comp: 0b11110 })]
}

/// The entries `sm_entries` appends, pinned field by field from
/// position `base`.
pub open spec fn spec_sm_entries_ok(t: Seq<Instructor>, base: int) -> bool {
    &&& t[base + 0].opcode == 0b1110011
    &&& t[base + 0].op == Op::Sret
    &&& t[base + 0].segments@ =~= seq![(InstructionSegment { start: 7, end: 31, comp: 0b0001000000100000000000000 })]
    &&& t[base + 1].opcode == 0b1110011
    &&& t[base + 1].op == Op::Mret
    &&& t[base + 1].segments@ =~= seq![(InstructionSegment { start: 7, end: 31, comp: 0b0011000000100000000000000 })]
    &&& t[base + 2].opcode == 0b1110011
    &&& t[base + 2].op == Op::Wfi
    &&& t[base + 2].segments@ =~= seq![(InstructionSegment { start: 7, end: 31, comp: 0b0001000001010000000000000 })]
    &&& t[base + 3].opcode == 0b1110011
    &&& t[base + 3].op == Op::SfenceVma
    &&& t[base + 3].segments@ =~= seq![(InstructionSegment { start: 7, end: 14, comp: 0b00000000 }), (InstructionSegment { start: 25, end: 31, comp: 0b0001001 })]
}

/// The complete decode table, every entry's opcode, fixed-bit
/// segments and operation pinned; `instructors` builds exactly this
/// and the hart's lookups are resolved against it.
pub open spec fn spec_decode_table_ok(t: Seq<Instructor>) -> bool {
    &&& t.len() == 160
    &&& spec_i_entries_ok(t, 0)
    &&& spec_zifenci_entries_ok(t, 52)
    &&& spec_zicsr_entries_ok(t, 53)
    &&& spec_m_entries_ok(t, 59)
    &&& spec_a_entries_ok(t, 72)
    &&& spec_f_entries_ok(t, 94)
    &&& spec_d_entries_ok(t, 124)
    &&& spec_sm_entries_ok(t, 156)
}

/// The whole decode table, in dependency order: the base set first,
/// then Zifencei, Zicsr, M, A, F, D, and the privileged instructions.
pub fn instructors() -> (r: Vec<Instructor>)
    ensures
        spec_decode_table_ok(r@),
{
    let mut table: Vec<Instructor> = Vec::new();
    i_entries(&mut table);
    zifenci_entries(&mut table);
    zicsr_entries(&mut table);
    m_entries(&mut table);
    a_entries(&mut table);
    f_entries(&mut table);
    d_entries(&mut table);
    sm_entries(&mut table);
    table
}

#[verifier::rlimit(100)]
fn i_entries(table: &mut Vec<Instructor>)
    ensures
        final (table)@.len() == old(table)@.len() + 52,
        forall|k: int| 0 <= k < old(table)@.len() ==> final (table)@[k] == old(table)@[k],
        spec_i_entries_ok(final (table)@, old(table)@.len() as int),
{
    table.push(
        Instructor { name: "LUI", opcode: 0b0110111, segments: Vec::new(), op: Op::Lui },
    );
    table.push(
        Instructor { name: "AUIPC", opcode: 0b0010111, segments: Vec::new(), op: Op::Auipc },
    );
    table.push(
        Instructor { name: "JAL", opcode: 0b1101111, segments: Vec::new(), op: Op::Jal },
    );
    table.push(
        Instructor { name: "JALR", opcode: 0b1100111, segments: funct3(0b000), op: Op::Jalr },
    );
    table.push(
        Instructor { name: "BEQ", opcode: 0b1100011, segments: funct3(0b000), op: Op::Beq },
    );
    table.push(
        Instructor { name: "BNE", opcode: 0b1100011, segments: funct3(0b001), op: Op::Bne },
    );
    table.push(
        Instructor { name: "BLT", opcode: 0b1100011, segments: funct3(0b100), op: Op::Blt },
    );
    table.push(
        Instructor { name: "BGE", opcode: 0b1100011, segments: funct3(0b101), op: Op::Bge },
    );
    table.push(
        Instructor { name: "BLTU", opcode: 0b1100011, segments: funct3(0b110), op: Op::Bltu },
    );
    table.push(
        Instructor { name: "BGEU", opcode: 0b1100011, segments: funct3(0b111), op: Op::Bgeu },
    );
    table.push(
        Instructor { name: "LB", opcode: 0b0000011, segments: funct3(0b000), op: Op::Lb },
    );
    table.push(
        Instructor { name: "LH", opcode: 0b0000011, segments: funct3(0b001), op: Op::Lh },
    );
    table.push(
        Instructor { name: "LW", opcode: 0b0000011, segments: funct3(0b010), op: Op::Lw },
    );
    table.push(
        Instructor { name: "LBU", opcode: 0b0000011, segments: funct3(0b100), op: Op::Lbu },
    );
    table.push(
        Instructor { name: "LHU", opcode: 0b0000011, segments: funct3(0b101), op: Op::Lhu },
    );
    table.push(
        Instructor { name: "LWU", opcode: 0b0000011, segments: funct3(0b110), op: Op::Lwu },
    );
    table.push(
        Instructor { name: "LD", opcode: 0b0000011, segments: funct3(0b011), op: Op::Ld },
    );
    table.push(
        Instructor { name: "SB", opcode: 0b0100011, segments: funct3(0b000), op: Op::Sb },
    );
    table.push(
        Instructor { name: "SH", opcode: 0b0100011, segments: funct3(0b001), op: Op::Sh },
    );
    table.push(
        Instructor { name: "SW", opcode: 0b0100011, segments: funct3(0b010), op: Op::Sw },
    );
    table.push(
        Instructor { name: "SD", opcode: 0b0100011, segments: funct3(0b011), op: Op::Sd },
    );
    table.push(
        Instructor { name: "ADDI", opcode: 0b0010011, segments: funct3(0b000), op: Op::Addi },
    );
    table.push(
        Instructor { name: "SLTI", opcode: 0b0010011, segments: funct3(0b010), op: Op::Slti },
    );
    table.push(
        Instructor { name: "SLTIU", opcode: 0b0010011, segments: funct3(0b011), op: Op::Sltiu },
    );
    table.push(
        Instructor { name: "XORI", opcode: 0b0010011, segments: funct3(0b100), op: Op::Xori },
    );
    table.push(
        Instructor { name: "ORI", opcode: 0b0010011, segments: funct3(0b110), op: Op::Ori },
    );
    table.push(
        Instructor { name: "ANDI", opcode: 0b0010011, segments: funct3(0b111), op: Op::Andi },
    );
    table.push(
        Instructor { name: "SLLI", opcode: 0b0010011, segments: vec![InstructionSegment { start: 12, end: 14, comp: 0b001 }, InstructionSegment { start: 26, end: 31, comp: 0b000000 }], op: Op::Slli },
    );
    table.push(
        Instructor { name: "SRLI", opcode: 0b0010011, segments: vec![InstructionSegment { start: 12, end: 14, comp: 0b101 }, InstructionSegment { start: 26, end: 31, comp: 0b000000 }], op: Op::Srli },
    );
    table.push(
        Instructor { name: "SRAI", opcode: 0b0010011, segments: vec![InstructionSegment { start: 12, end: 14, comp: 0b101 }, InstructionSegment { start: 26, end: 31, comp: 0b010000 }], op: Op::Srai },
    );
    table.push(
        Instructor { name: "ADD", opcode: 0b0110011, segments: funct37(0b000, 0b0000000), op: Op::Add },
    );
    table.push(
        Instructor { name: "SUB", opcode: 0b0110011, segments: funct37(0b000, 0b0100000), op: Op::Sub },
    );
    table.push(
        Instructor { name: "SLL", opcode: 0b0110011, segments: funct37(0b001, 0b0000000), op: Op::Sll },
    );
    table.push(
        Instructor { name: "SLT", opcode: 0b0110011, segments: funct37(0b010, 0b0000000), op: Op::Slt },
    );
    table.push(
        Instructor { name: "SLTU", opcode: 0b0110011, segments: funct37(0b011, 0b0000000), op: Op::Sltu },
    );
    table.push(
        Instructor { name: "XOR", opcode: 0b0110011, segments: funct37(0b100, 0b0000000), op: Op::Xor },
    );
    table.push(
        Instructor { name: "SRL", opcode: 0b0110011, segments: funct37(0b101, 0b0000000), op: Op::Srl },
    );
    table.push(
        Instructor { name: "SRA", opcode: 0b0110011, segments: funct37(0b101, 0b0100000), op: Op::Sra },
    );
    table.push(
        Instructor { name: "OR", opcode: 0b0110011, segments: funct37(0b110, 0b0000000), op: Op::Or },
    );
    table.push(
        Instructor { name: "AND", opcode: 0b0110011, segments: funct37(0b111, 0b0000000), op: Op::And },
    );
    table.push(
        Instructor { name: "FENCE", opcode: 0b0001111, segments: funct3(0b000), op: Op::Fence },
    );
    table.push(
        Instructor { name: "ECALL", opcode: 0b1110011, segments: vec![InstructionSegment { start: 7, end: 31, comp: 0b0000000000000000000000000 }], op: Op::Ecall },
    );
    table.push(
        Instructor { name: "EBREAK", opcode: 0b1110011, segments: vec![InstructionSegment { start: 7, end: 31, comp: 0b0000000000010000000000000 }], op: Op::Ebreak },
    );
    table.push(
        Instructor { name: "ADDIW", opcode: 0b0011011, segments: funct3(0b000), op: Op::Addiw },
    );
    table.push(
        Instructor { name: "SLLIW", opcode: 0b0011011, segments: vec![InstructionSegment { start: 12, end: 14, comp: 0b001 }, InstructionSegment { start: 26, end: 31, comp: 0b000000 }], op: Op::Slliw },
    );
    table.push(
        Instructor { name: "SRLIW", opcode: 0b0011011, segments: vec![InstructionSegment { start: 12, end: 14, comp: 0b101 }, InstructionSegment { start: 26, end: 31, comp: 0b000000 }], op: Op::Srliw },
    );
    table.push(
        Instructor { name: "SRAIW", opcode: 0b0011011, segments: vec![InstructionSegment { start: 12, end: 14, comp: 0b101 }, InstructionSegment { start: 26, end: 31, comp: 0b010000 }], op: Op::Sraiw },
    );
    table.push(
        Instructor { name: "ADDW", opcode: 0b0111011, segments: funct37(0b000, 0b0000000), op: Op::Addw },
    );
    table.push(
        Instructor { name: "SUBW", opcode: 0b0111011, segments: funct37(0b000, 0b0100000), op: Op::Subw },
    );
    table.push(
        Instructor { name: "SLLW", opcode: 0b0111011, segments: funct37(0b001, 0b0000000), op: Op::Sllw },
    );
    table.push(
        Instructor { name: "SRLW", opcode: 0b0111011, segments: funct37(0b101, 0b0000000), op: Op::Srlw },
    );
    table.push(
        Instructor { name: "SRAW", opcode: 0b0111011, segments: funct37(0b101, 0b0100000), op: Op::Sraw },
    );
}

#[verifier::rlimit(100)]
fn zifenci_entries(table: &mut Vec<Instructor>)
    ensures
        final (table)@.len() == old(table)@.len() + 1,
        forall|k: int| 0 <= k < old(table)@.len() ==> final (table)@[k] == old(table)@[k],
        spec_zifenci_entries_ok(final (table)@, old(table)@.len() as int),
{
    table.push(
        Instructor { name: "FENCE.I", opcode: 0b0001111, segments: funct3(0b001), op: Op::FenceI },
    );
}

#[verifier::rlimit(100)]
fn zicsr_entries(table: &mut Vec<Instructor>)
    ensures
        final (table)@.len() == old(table)@.len() + 6,
        forall|k: int| 0 <= k < old(table)@.len() ==> final (table)@[k] == old(table)@[k],
        spec_zicsr_entries_ok(final (table)@, old(table)@.len() as int),
{
    table.push(
        Instructor { name: "CSRRW", opcode: 0b1110011, segments: funct3(0b001), op: Op::Csrrw },
    );
    table.push(
        Instructor { name: "CSRRS", opcode: 0b1110011, segments: funct3(0b010), op: Op::Csrrs },
    );
    table.push(
        Instructor { name: "CSRRC", opcode: 0b1110011, segments: funct3(0b011), op: Op::Csrrc },
    );
    table.push(
        Instructor { name: "CSRRWI", opcode: 0b1110011, segments: funct3(0b101), op: Op::Csrrwi },
    );
    table.push(
        Instructor { name: "CSRRSI", opcode: 0b1110011, segments: funct3(0b110), op: Op::Csrrsi },
    );
    table.push(
        Instructor { name: "CSRRCI", opcode: 0b1110011, segments: funct3(0b111), op: Op::Csrrci },
    );
}

#[verifier::rlimit(100)]
fn m_entries(table: &mut Vec<Instructor>)
    ensures
        final (table)@.len() == old(table)@.len() + 13,
        forall|k: int| 0 <= k < old(table)@.len() ==> final (table)@[k] == old(table)@[k],
        spec_m_entries_ok(final (table)@, old(table)@.len() as int),
{
    table.push(
        Instructor { name: "MUL", opcode: 0b0110011, segments: funct37(0b000, 0b0000001), op: Op::Mul },
    );
    table.push(
        Instructor { name: "MULH", opcode: 0b0110011, segments: funct37(0b001, 0b0000001), op: Op::Mulh },
    );
    table.push(
        Instructor { name: "MULHSU", opcode: 0b0110011, segments: funct37(0b010, 0b0000001), op: Op::Mulhsu },
    );
    table.push(
        Instructor { name: "MULHU", opcode: 0b0110011, segments: funct37(0b011, 0b0000001), op: Op::Mulhu },
    );
    table.push(
        Instructor { name: "DIV", opcode: 0b0110011, segments: funct37(0b100, 0b0000001), op: Op::Div },
    );
    table.push(
        Instructor { name: "DIVU", opcode: 0b0110011, segments: funct37(0b101, 0b0000001), op: Op::Divu },
    );
    table.push(
        Instructor { name: "REM", opcode: 0b0110011, segments: funct37(0b110, 0b0000001), op: Op::Rem },
    );
    table.push(
        Instructor { name: "REMU", opcode: 0b0110011, segments: funct37(0b111, 0b0000001), op: Op::Remu },
    );
    table.push(
        Instructor { name: "MULW", opcode: 0b0111011, segments: funct37(0b000, 0b0000001), op: Op::Mulw },
    );
    table.push(
        Instructor { name: "DIVW", opcode: 0b0111011, segments: funct37(0b100, 0b0000001), op: Op::Divw },
    );
    table.push(
        Instructor { name: "DIVUW", opcode: 0b0111011, segments: funct37(0b101, 0b0000001), op: Op::Divuw },
    );
    table.push(
        Instructor { name: "REMW", opcode: 0b0111011, segments: funct37(0b110, 0b0000001), op: Op::Remw },
    );
    table.push(
        Instructor { name: "REMUW", opcode: 0b0111011, segments: funct37(0b111, 0b0000001), op: Op::Remuw },
    );
}

#[verifier::rlimit(100)]
fn a_entries(table: &mut Vec<Instructor>)
    ensures
        final (table)@.len() == old(table)@.len() + 22,
        forall|k: int| 0 <= k < old(table)@.len() ==> final (table)@[k] == old(table)@[k],
        spec_a_entries_ok(final (table)@, old(table)@.len() as int),
{
    table.push(
        Instructor { name: "LR.W", opcode: 0b0101111, segments: funct_ra_rs2(0b010, 0b00010), op: Op::LrW },
    );
    table.push(
        Instructor { name: "SC.W", opcode: 0b0101111, segments: funct_ra(0b010, 0b00011), op: Op::ScW },
    );
    table.push(
        Instructor { name: "AMOSWAP.W", opcode: 0b0101111, segments: funct_ra(0b010, 0b00001), op: Op::AmoswapW },
    );
    table.push(
        Instructor { name: "AMOADD.W", opcode: 0b0101111, segments: funct_ra(0b010, 0b00000), op: Op::AmoaddW },
    );
    table.push(
        Instructor { name: "AMOXOR.W", opcode: 0b0101111, segments: funct_ra(0b010, 0b00100), op: Op::AmoxorW },
    );
    table.push(
        Instructor { name: "AMOAND.W", opcode: 0b0101111, segments: funct_ra(0b010, 0b01100), op: Op::AmoandW },
    );
    table.push(
        Instructor { name: "AMOOR.W", opcode: 0b0101111, segments: funct_ra(0b010, 0b01000), op: Op::AmoorW },
    );
    table.push(
        Instructor { name: "AMOMIN.W", opcode: 0b0101111, segments: funct_ra(0b010, 0b10000), op: Op::AmominW },
    );
    table.push(
        Instructor { name: "AMOMAX.W", opcode: 0b0101111, segments: funct_ra(0b010, 0b10100), op: Op::AmomaxW },
    );
    table.push(
        Instructor { name: "AMOMINU.W", opcode: 0b0101111, segments: funct_ra(0b010, 0b11000), op: Op::AmominuW },
    );
    table.push(
        Instructor { name: "AMOMAXU.W", opcode: 0b0101111, segments: funct_ra(0b010, 0b11100), op: Op::AmomaxuW },
    );
    table.push(
        Instructor { name: "LR.D", opcode: 0b0101111, segments: funct_ra_rs2(0b011, 0b00010), op: Op::LrD },
    );
    table.push(
        Instructor { name: "SC.D", opcode: 0b0101111, segments: funct_ra(0b011, 0b00011), op: Op::ScD },
    );
    table.push(
        Instructor { name: "AMOSWAP.D", opcode: 0b0101111, segments: funct_ra(0b011, 0b00001), op: Op::AmoswapD },
    );
    table.push(
        Instructor { name: "AMOADD.D", opcode: 0b0101111, segments: funct_ra(0b011, 0b00000), op: Op::AmoaddD },
    );
    table.push(
        Instructor { name: "AMOXOR.D", opcode: 0b0101111, segments: funct_ra(0b011, 0b00100), op: Op::AmoxorD },
    );
    table.push(
        Instructor { name: "AMOAND.D", opcode: 0b0101111, segments: funct_ra(0b011, 0b01100), op: Op::AmoandD },
    );
    table.push(
        Instructor { name: "AMOOR.D", opcode: 0b0101111, segments: funct_ra(0b011, 0b01000), op: Op::AmoorD },
    );
    table.push(
        Instructor { name: "AMOMIN.D", opcode: 0b0101111, segments: funct_ra(0b011, 0b10000), op: Op::AmominD },
    );
    table.push(
        Instructor { name: "AMOMAX.D", opcode: 0b0101111, segments: funct_ra(0b011, 0b10100), op: Op::AmomaxD },
    );
    table.push(
        Instructor { name: "AMOMINU.D", opcode: 0b0101111, segments: funct_ra(0b011, 0b11000), op: Op::AmominuD },
    );
    table.push(
        Instructor { name: "AMOMAXU.D", opcode: 0b0101111, segments: funct_ra(0b011, 0b11100), op: Op::AmomaxuD },
    );
}

#[verifier::rlimit(100)]
fn f_entries(table: &mut Vec<Instructor>)
    ensures
        final (table)@.len() == old(table)@.len() + 30,
        forall|k: int| 0 <= k < old(table)@.len() ==> final (table)@[k] == old(table)@[k],
        spec_f_entries_ok(final (table)@, old(table)@.len() as int),
{
    table.push(
        Instructor { name: "FLW", opcode: 0b0000111, segments: funct3(0b010), op: Op::Flw },
    );
    table.push(
        Instructor { name: "FSW", opcode: 0b0100111, segments: funct3(0b010), op: Op::Fsw },
    );
    table.push(
        Instructor { name: "FMADD.S", opcode: 0b1000011, segments: funct_rfp_rs3(0b00), op: Op::FmaddS },
    );
    table.push(
        Instructor { name: "FMSUB.S", opcode: 0b1000111, segments: funct_rfp_rs3(0b00), op: Op::FmsubS },
    );
    table.push(
        Instructor { name: "FNMSUB.S", opcode: 0b1001011, segments: funct_rfp_rs3(0b00), op: Op::FnmsubS },
    );
    table.push(
        Instructor { name: "FNMADD.S", opcode: 0b1001111, segments: funct_rfp_rs3(0b00), op: Op::FnmaddS },
    );
    table.push(
        Instructor { name: "FADD.S", opcode: 0b1010011, segments: funct_rfp(0b00, 0b00000), op: Op::FaddS },
    );
    table.push(
        Instructor { name: "FSUB.S", opcode: 0b1010011, segments: funct_rfp(0b00, 0b00001), op: Op::FsubS },
    );
    table.push(
        Instructor { name: "FMUL.S", opcode: 0b1010011, segments: funct_rfp(0b00, 0b00010), op: Op::FmulS },
    );
    table.push(
        Instructor { name: "FDIV.S", opcode: 0b1010011, segments: funct_rfp(0b00, 0b00011), op: Op::FdivS },
    );
    table.push(
        Instructor { name: "FSQRT.S", opcode: 0b1010011, segments: funct_rfp_rs2(0b00000, 0b00, 0b01011), op: Op::FsqrtS },
    );
    table.push(
        Instructor { name: "FSGNJ.S", opcode: 0b1010011, segments: funct_rfp_rm(0b000, 0b00, 0b00100), op: Op::FsgnjS },
    );
    table.push(
        Instructor { name: "FSGNJN.S", opcode: 0b1010011, segments: funct_rfp_rm(0b001, 0b00, 0b00100), op: Op::FsgnjnS },
    );
    table.push(
        Instructor { name: "FSGNJX.S", opcode: 0b1010011, segments: funct_rfp_rm(0b010, 0b00, 0b00100), op: Op::FsgnjxS },
    );
    table.push(
        Instructor { name: "FMIN.S", opcode: 0b1010011, segments: funct_rfp_rm(0b000, 0b00, 0b00101), op: Op::FminS },
    );
    table.push(
        Instructor { name: "FMAX.S", opcode: 0b1010011, segments: funct_rfp_rm(0b001, 0b00, 0b00101), op: Op::FmaxS },
    );
    table.push(
        Instructor { name: "FCVT.W.S", opcode: 0b1010011, segments: funct_rfp_rs2(0b00000, 0b00, 0b11000), op: Op::FcvtWS },
    );
    table.push(
        Instructor { name: "FCVT.WU.S", opcode: 0b1010011, segments: funct_rfp_rs2(0b00001, 0b00, 0b11000), op: Op::FcvtWuS },
    );
    table.push(
        Instructor { name: "FCVT.L.S", opcode: 0b1010011, segments: funct_rfp_rs2(0b00010, 0b00, 0b11000), op: Op::FcvtLS },
    );
    table.push(
        Instructor { name: "FCVT.LU.S", opcode: 0b1010011, segments: funct_rfp_rs2(0b00011, 0b00, 0b11000), op: Op::FcvtLuS },
    );
    table.push(
        Instructor { name: "FMV.X.W", opcode: 0b1010011, segments: funct_rfp_rs2_rm(0b000, 0b00000, 0b00, 0b11100), op: Op::FmvXW },
    );
    table.push(
        Instructor { name: "FEQ.S", opcode: 0b1010011, segments: funct_rfp_rm(0b010, 0b00, 0b10100), op: Op::FeqS },
    );
    table.push(
        Instructor { name: "FLT.S", opcode: 0b1010011, segments: funct_rfp_rm(0b001, 0b00, 0b10100), op: Op::FltS },
    );
    table.push(
        Instructor { name: "FLE.S", opcode: 0b1010011, segments: funct_rfp_rm(0b000, 0b00, 0b10100), op: Op::FleS },
    );
    table.push(
        Instructor { name: "FCLASS.S", opcode: 0b1010011, segments: funct_rfp_rs2_rm(0b001, 0b00000, 0b00, 0b11100), op: Op::FclassS },
    );
    table.push(
        Instructor { name: "FCVT.S.W", opcode: 0b1010011, segments: funct_rfp_rs2(0b00000, 0b00, 0b11010), op: Op::FcvtSW },
    );
    table.push(
        Instructor { name: "FCVT.S.WU", opcode: 0b1010011, segments: funct_rfp_rs2(0b00001, 0b00, 0b11010), op: Op::FcvtSWu },
    );
    table.push(
        Instructor { name: "FCVT.S.L", opcode: 0b1010011, segments: funct_rfp_rs2(0b00010, 0b00, 0b11010), op: Op::FcvtSL },
    );
    table.push(
        Instructor { name: "FCVT.S.LU", opcode: 0b1010011, segments: funct_rfp_rs2(0b00011, 0b00, 0b11010), op: Op::FcvtSLu },
    );
    table.push(
        Instructor { name: "FMV.W.X", opcode: 0b1010011, segments: funct_rfp_rs2_rm(0b000, 0b00000, 0b00, 0b11110), op: Op::FmvWX },
    );
}

#[verifier::rlimit(100)]
fn d_entries(table: &mut Vec<Instructor>)
    ensures
        final (table)@.len() == old(table)@.len() + 32,
        forall|k: int| 0 <= k < old(table)@.len() ==> final (table)@[k] == old(table)@[k],
        spec_d_entries_ok(final (table)@, old(table)@.len() as int),
{
    table.push(
        Instructor { name: "FLD", opcode: 0b0000111, segments: funct3(0b011), op: Op::Fld },
    );
    table.push(
        Instructor { name: "FSD", opcode: 0b0100111, segments: funct3(0b011), op: Op::Fsd },
    );
    table.push(
        Instructor { name: "FMADD.D", opcode: 0b1000011, segments: funct_rfp_rs3(0b01), op: Op::FmaddD },
    );
    table.push(
        Instructor { name: "FMSUB.D", opcode: 0b1000111, segments: funct_rfp_rs3(0b01), op: Op::FmsubD },
    );
    table.push(
        Instructor { name: "FNMSUB.D", opcode: 0b1001011, segments: funct_rfp_rs3(0b01), op: Op::FnmsubD },
    );
    table.push(
        Instructor { name: "FNMADD.D", opcode: 0b1001111, segments: funct_rfp_rs3(0b01), op: Op::FnmaddD },
    );
    table.push(
        Instructor { name: "FADD.D", opcode: 0b1010011, segments: funct_rfp(0b01, 0b00000), op: Op::FaddD },
    );
    table.push(
        Instructor { name: "FSUB.D", opcode: 0b1010011, segments: funct_rfp(0b01, 0b00001), op: Op::FsubD },
    );
    table.push(
        Instructor { name: "FMUL.D", opcode: 0b1010011, segments: funct_rfp(0b01, 0b00010), op: Op::FmulD },
    );
    table.push(
        Instructor { name: "FDIV.D", opcode: 0b1010011, segments: funct_rfp(0b01, 0b00011), op: Op::FdivD },
    );
    table.push(
        Instructor { name: "FSQRT.D", opcode: 0b1010011, segments: funct_rfp_rs2(0b00000, 0b01, 0b01011), op: Op::FsqrtD },
    );
    table.push(
        Instructor { name: "FSGNJ.D", opcode: 0b1010011, segments: funct_rfp_rm(0b000, 0b01, 0b00100), op: Op::FsgnjD },
    );
    table.push(
        Instructor { name: "FSGNJN.D", opcode: 0b1010011, segments: funct_rfp_rm(0b001, 0b01, 0b00100), op: Op::FsgnjnD },
    );
    table.push(
        Instructor { name: "FSGNJX.D", opcode: 0b1010011, segments: funct_rfp_rm(0b010, 0b01, 0b00100), op: Op::FsgnjxD },
    );
    table.push(
        Instructor { name: "FMIN.D", opcode: 0b1010011, segments: funct_rfp_rm(0b000, 0b01, 0b00101), op: Op::FminD },
    );
    table.push(
        Instructor { name: "FMAX.D", opcode: 0b1010011, segments: funct_rfp_rm(0b001, 0b01, 0b00101), op: Op::FmaxD },
    );
    table.push(
        Instructor { name: "FCVT.S.D", opcode: 0b1010011, segments: funct_rfp_rs2(0b00001, 0b00, 0b01000), op: Op::FcvtSD },
    );
    table.push(
        Instructor { name: "FCVT.D.S", opcode: 0b1010011, segments: funct_rfp_rs2(0b00000, 0b01, 0b01000), op: Op::FcvtDS },
    );
    table.push(
        Instructor { name: "FEQ.D", opcode: 0b1010011, segments: funct_rfp_rm(0b010, 0b01, 0b10100), op: Op::FeqD },
    );
    table.push(
        Instructor { name: "FLT.D", opcode: 0b1010011, segments: funct_rfp_rm(0b001, 0b01, 0b10100), op: Op::FltD },
    );
    table.push(
        Instructor { name: "FLE.D", opcode: 0b1010011, segments: funct_rfp_rm(0b000, 0b01, 0b10100), op: Op::FleD },
    );
    table.push(
        Instructor { name: "FCLASS.D", opcode: 0b1010011, segments: funct_rfp_rs2_rm(0b001, 0b00000, 0b01, 0b11100), op: Op::FclassD },
    );
    table.push(
        Instructor { name: "FCVT.W.D", opcode: 0b1010011, segments: funct_rfp_rs2(0b00000, 0b01, 0b11000), op: Op::FcvtWD },
    );
    table.push(
        Instructor { name: "FCVT.WU.D", opcode: 0b1010011, segments: funct_rfp_rs2(0b00001, 0b01, 0b11000), op: Op::FcvtWuD },
    );
    table.push(
        Instructor { name: "FCVT.L.D", opcode: 0b1010011, segments: funct_rfp_rs2(0b00010, 0b01, 0b11000), op: Op::FcvtLD },
    );
    table.push(
        Instructor { name: "FCVT.LU.D", opcode: 0b1010011, segments: funct_rfp_rs2(0b00011, 0b01, 0b11000), op: Op::FcvtLuD },
    );
    table.push(
        Instructor { name: "FCVT.D.W", opcode: 0b1010011, segments: funct_rfp_rs2(0b00000, 0b01, 0b11010), op: Op::FcvtDW },
    );
    table.push(
        Instructor { name: "FCVT.D.WU", opcode: 0b1010011, segments: funct_rfp_rs2(0b00001, 0b01, 0b11010), op: Op::FcvtDWu },
    );
    table.push(
        Instructor { name: "FCVT.D.L", opcode: 0b1010011, segments: funct_rfp_rs2(0b00010, 0b01, 0b11010), op: Op::FcvtDL },
    );
    table.push(
        Instructor { name: "FCVT.D.LU", opcode: 0b1010011, segments: funct_rfp_rs2(0b00011, 0b01, 0b11010), op: Op::FcvtDLu },
    );
    table.push(
        Instructor { name: "FMV.X.D", opcode: 0b1010011, segments: funct_rfp_rs2_rm(0b000, 0b00000, 0b01, 0b11100), op: Op::FmvXD },
    );
    table.push(
        Instructor { name: "FMV.D.X", opcode: 0b1010011, segments: funct_rfp_rs2_rm(0b000, 0b00000, 0b01, 0b11110), op: Op::FmvDX },
    );
}

#[verifier::rlimit(100)]
fn sm_entries(table: &mut Vec<Instructor>)
    ensures
        final (table)@.len() == old(table)@.len() + 4,
        forall|k: int| 0 <= k < old(table)@.len() ==> final (table)@[k] == old(table)@[k],
        spec_sm_entries_ok(final (table)@, old(table)@.len() as int),
{
    table.push(
        Instructor { name: "SRET", opcode: 0b1110011, segments: vec![InstructionSegment { start: 7, end: 31, comp: 0b0001000000100000000000000 }], op: Op::Sret },
    );
    table.push(
        Instructor { name: "MRET", opcode: 0b1110011, segments: vec![InstructionSegment { start: 7, end: 31, comp: 0b0011000000100000000000000 }], op: Op::Mret },
    );
    table.push(
        Instructor { name: "WFI", opcode: 0b1110011, segments: vec![InstructionSegment { start: 7, end: 31, comp: 0b0001000001010000000000000 }], op: Op::Wfi },
    );
    table.push(
        Instructor { name: "SFENCE.VMA", opcode: 0b1110011, segments: vec![InstructionSegment { start: 7, end: 14, comp: 0b00000000 }, InstructionSegment { start: 25, end: 31, comp: 0b0001001 }], op: Op::SfenceVma },
    );
}

} // verus!
