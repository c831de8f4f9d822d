//! The compressed-instruction decoder: a total function from 16-bit
//! encodings to their 32-bit equivalents, keyed by the composite of the
//! low two opcode bits and the funct3 field; reserved encodings decode
//! to nothing and raise illegal-instruction in the hart.

use vstd::prelude::*;

verus! {

/// The 32-bit equivalent of a 16-bit encoding, or nothing for a
/// reserved encoding.
pub open spec fn spec_decompress(inst: u16) -> Option<u32> {
    let i = inst as u32;
    let op = i & 0x3;
    let f3 = (i >> 13) & 0x7;
    if op == 0 && f3 == 0 {
        if i == 0 {
            None
        } else {
            let imm = ((i >> 1) & 0x3C0) | ((i >> 7) & 0x30) | ((i >> 2) & 0x8) | ((i >> 4) & 0x4);
            let rd = (i >> 2) & 0x7;
            Some((imm << 20) | (2u32 << 15) | (((rd + 8) as u32) << 7) | 0b0010011)
        }
    } else if op == 0 && f3 == 1 {
        let imm = ((i >> 7) & 0x38) | ((i << 1) & 0xC0);
        let rs1 = (i >> 7) & 0x7;
        let rd = (i >> 2) & 0x7;
        Some((imm << 20) | (((rs1 + 8) as u32) << 15) | (3u32 << 12) | (((rd + 8) as u32) << 7)
            | 0b0000111)
    } else if op == 0 && f3 == 2 {
        let imm = ((i >> 7) & 0x38) | ((i >> 4) & 0x4) | ((i << 1) & 0x40);
        let rs1 = (i >> 7) & 0x7;
        let rd = (i >> 2) & 0x7;
        Some((imm << 20) | (((rs1 + 8) as u32) << 15) | (2u32 << 12) | (((rd + 8) as u32) << 7)
            | 0b0000011)
    } else if op == 0 && f3 == 3 {
        let imm = ((i >> 7) & 0x38) | ((i << 1) & 0xC0);
        let rs1 = (i >> 7) & 0x7;
        let rd = (i >> 2) & 0x7;
        Some((imm << 20) | (((rs1 + 8) as u32) << 15) | (3u32 << 12) | (((rd + 8) as u32) << 7)
            | 0b0000011)
    } else if op == 0 && f3 == 5 {
        let imm = ((i >> 7) & 0x38) | ((i << 1) & 0xC0);
        let rs2 = (i >> 2) & 0x7;
        let rs1 = (i >> 7) & 0x7;
        Some((((imm >> 5) & 0x7F) << 25) | (((rs2 + 8) as u32) << 20) | (((rs1 + 8) as u32) << 15)
            | (3u32 << 12) | ((imm & 0x1F) << 7) | 0b0100111)
    } else if op == 0 && f3 == 6 {
        let imm = ((i >> 7) & 0x38) | ((i >> 4) & 0x4) | ((i << 1) & 0x40);
        let rs2 = (i >> 2) & 0x7;
        let rs1 = (i >> 7) & 0x7;
        Some((((imm >> 5) & 0x7F) << 25) | (((rs2 + 8) as u32) << 20) | (((rs1 + 8) as u32) << 15)
            | (2u32 << 12) | ((imm & 0x1F) << 7) | 0b0100011)
    } else if op == 0 && f3 == 7 {
        let imm = ((i >> 7) & 0x38) | ((i << 1) & 0xC0);
        let rs2 = (i >> 2) & 0x7;
        let rs1 = (i >> 7) & 0x7;
        Some((((imm >> 5) & 0x7F) << 25) | (((rs2 + 8) as u32) << 20) | (((rs1 + 8) as u32) << 15)
            | (3u32 << 12) | ((imm & 0x1F) << 7) | 0b0100011)
    } else if op == 1 && f3 == 0 {
        let rs1rd = (i >> 7) & 0x1F;
        if rs1rd == 0 {
            Some(0b00000000000000000000000000010011)
        } else {
            let imm6 = ((i >> 7) & 0x20) | ((i >> 2) & 0x1F);
            let imm12 = if imm6 & 0x20 != 0 {
                imm6 | 0xFC0
            } else {
                imm6
            };
            Some((imm12 << 20) | (rs1rd << 15) | (rs1rd << 7) | 0b0010011)
        }
    } else if op == 1 && f3 == 1 {
        let rs1rd = (i >> 7) & 0x1F;
        if rs1rd == 0 {
            None
        } else {
            let imm6 = ((i >> 7) & 0x20) | ((i >> 2) & 0x1F);
            let imm12 = if imm6 & 0x20 != 0 {
                imm6 | 0xFC0
            } else {
                imm6
            };
            Some((imm12 << 20) | (rs1rd << 15) | (rs1rd << 7) | 0b0011011)
        }
    } else if op == 1 && f3 == 2 {
        let imm6 = ((i >> 7) & 0x20) | ((i >> 2) & 0x1F);
        let imm12 = if imm6 & 0x20 != 0 {
            imm6 | 0xFC0
        } else {
            imm6
        };
        let rd = (i >> 7) & 0x1F;
        Some((imm12 << 20) | (rd << 7) | 0b0010011)
    } else if op == 1 && f3 == 3 {
        let rd = (i >> 7) & 0x1F;
        if rd == 2 {
            let imm10 = ((i >> 3) & 0x200) | ((i >> 2) & 0x10) | ((i << 1) & 0x40) | ((i << 4)
                & 0x180) | ((i << 3) & 0x20);
            let imm12 = if imm10 & 0x200 != 0 {
                imm10 | 0xC00
            } else {
                imm10
            };
            Some((imm12 << 20) | (2u32 << 15) | (2u32 << 7) | 0b0010011)
        } else {
            let imm18 = ((i << 5) & 0x20000) | ((i << 10) & 0x1F000);
            let imm32 = if imm18 & 0x20000 != 0 {
                imm18 | 0xFFFC0000
            } else {
                imm18
            };
            Some(imm32 | (rd << 7) | 0b0110111)
        }
    } else if op == 1 && f3 == 4 {
        let rs1rd3 = (i >> 7) & 0x7;
        let sub3 = (i >> 10) & 0x3;
        if sub3 == 0 {
            let shamt = ((i >> 7) & 0x20) | ((i >> 2) & 0x1F);
            Some((shamt << 20) | (((rs1rd3 + 8) as u32) << 15) | (5u32 << 12) | (((rs1rd3
                + 8) as u32) << 7) | 0b0010011)
        } else if sub3 == 1 {
            let shamt = ((i >> 7) & 0x20) | ((i >> 2) & 0x1F);
            Some((0b0100000u32 << 25) | (shamt << 20) | (((rs1rd3 + 8) as u32) << 15) | (5u32
                << 12) | (((rs1rd3 + 8) as u32) << 7) | 0b0010011)
        } else if sub3 == 2 {
            let imm6 = ((i >> 7) & 0x20) | ((i >> 2) & 0x1F);
            let imm12 = if imm6 & 0x20 != 0 {
                imm6 | 0xFC0
            } else {
                imm6
            };
            Some((imm12 << 20) | (((rs1rd3 + 8) as u32) << 15) | (7u32 << 12) | (((rs1rd3
                + 8) as u32) << 7) | 0b0010011)
        } else {
            let rs2 = (((i >> 2) & 0x7) + 8) as u32;
            let rs1 = ((rs1rd3 + 8) as u32) << 15;
            let rd = ((rs1rd3 + 8) as u32) << 7;
            let hi = (i >> 12) & 0x1;
            let lo = (i >> 5) & 0x3;
            if hi == 0 && lo == 0 {
                Some((0b0100000u32 << 25) | (rs2 << 20) | rs1 | rd | 0b0110011)
            } else if hi == 0 && lo == 1 {
                Some((rs2 << 20) | rs1 | (4u32 << 12) | rd | 0b0110011)
            } else if hi == 0 && lo == 2 {
                Some((rs2 << 20) | rs1 | (6u32 << 12) | rd | 0b0110011)
            } else if hi == 0 && lo == 3 {
                Some((rs2 << 20) | rs1 | (7u32 << 12) | rd | 0b0110011)
            } else if hi == 1 && lo == 0 {
                Some((0b0100000u32 << 25) | (rs2 << 20) | rs1 | rd | 0b0111011)
            } else if hi == 1 && lo == 1 {
                Some((rs2 << 20) | rs1 | rd | 0b0111011)
            } else {
                None
            }
        }
    } else if op == 1 && f3 == 5 {
        let imm = ((i >> 1) & 0x800) | ((i >> 7) & 0x10) | ((i >> 1) & 0x300) | ((i << 2) & 0x400)
            | ((i >> 1) & 0x40) | ((i << 1) & 0x80) | ((i >> 2) & 0xE) | ((i << 3) & 0x20);
        let immx = if imm & 0x800 != 0 {
            imm | 0xFFFF_F000
        } else {
            imm
        };
        let field = ((immx >> 1) & 0x80000) | ((immx << 8) & 0x7FE00) | ((immx >> 3) & 0x100) | ((
        immx >> 12) & 0xFF);
        Some((field << 12) | 0b1101111)
    } else if op == 1 && (f3 == 6 || f3 == 7) {
        let imm = ((i >> 4) & 0x100) | ((i >> 7) & 0x18) | ((i << 1) & 0xC0) | ((i >> 2) & 0x6) | ((
        i << 3) & 0x20);
        let immx = if imm & 0x100 != 0 {
            imm | 0xFFFF_FE00
        } else {
            imm
        };
        let imm2 = (((immx >> 6) & 0x40) | ((immx >> 5) & 0x3F)) << 25;
        let imm1 = ((immx & 0x1E) | ((immx >> 11) & 0x1)) << 7;
        let rs1 = (i >> 7) & 0x7;
        let funct = if f3 == 6 {
            0u32
        } else {
            1u32
        };
        Some(imm2 | (((rs1 + 8) as u32) << 20) | (funct << 12) | imm1 | 0b1100011)
    } else if op == 2 && f3 == 0 {
        let rs1rd = (i >> 7) & 0x1F;
        if rs1rd == 0 {
            None
        } else {
            let shamt = ((i >> 7) & 0x20) | ((i >> 2) & 0x1F);
            Some((shamt << 20) | (rs1rd << 15) | (1u32 << 12) | (rs1rd << 7) | 0b0010011)
        }
    } else if op == 2 && f3 == 1 {
        let rd = (i >> 7) & 0x1F;
        if rd == 0 {
            None
        } else {
            let imm = ((i >> 7) & 0x20) | ((i >> 2) & 0x18) | ((i << 4) & 0x1C0);
            Some((imm << 20) | (2u32 << 15) | (3u32 << 12) | (rd << 7) | 0b0000111)
        }
    } else if op == 2 && f3 == 2 {
        let rd = (i >> 7) & 0x1F;
        if rd == 0 {
            None
        } else {
            let imm = ((i >> 7) & 0x20) | ((i >> 2) & 0x1C) | ((i << 4) & 0xC0);
            Some((imm << 20) | (2u32 << 15) | (2u32 << 12) | (rd << 7) | 0b0000011)
        }
    } else if op == 2 && f3 == 3 {
        let rd = (i >> 7) & 0x1F;
        if rd == 0 {
            None
        } else {
            let imm = ((i >> 7) & 0x20) | ((i >> 2) & 0x18) | ((i << 4) & 0x1C0);
            Some((imm << 20) | (2u32 << 15) | (3u32 << 12) | (rd << 7) | 0b0000011)
        }
    } else if op == 2 && f3 == 4 {
        let rs1 = (i >> 7) & 0x1F;
        let rs2 = (i >> 2) & 0x1F;
        let hi = (i >> 12) & 0x1;
        if hi == 0 {
            if rs2 == 0 {
                if rs1 == 0 {
                    None
                } else {
                    Some((rs1 << 15) | 0b1100111)
                }
            } else {
                Some((rs2 << 20) | (rs1 << 7) | 0b0110011)
            }
        } else {
            if rs1 == 0 && rs2 == 0 {
                Some(0b00000000000100000000000001110011)
            } else if rs1 != 0 && rs2 == 0 {
                Some((rs1 << 15) | (1u32 << 7) | 0b1100111)
            } else {
                Some((rs2 << 20) | (rs1 << 15) | (rs1 << 7) | 0b0110011)
            }
        }
    } else if op == 2 && f3 == 5 {
        let imm = ((i >> 7) & 0x38) | ((i >> 1) & 0x1C0);
        let rs2 = (i >> 2) & 0x1F;
        Some((((imm >> 5) & 0x3F) << 25) | (rs2 << 20) | (2u32 << 15) | (3u32 << 12) | ((imm
            & 0x1F) << 7) | 0b0100111)
    } else if op == 2 && f3 == 6 {
        let imm = ((i >> 7) & 0x3C) | ((i >> 1) & 0xC0);
        let rs2 = (i >> 2) & 0x1F;
        Some((((imm >> 5) & 0x3F) << 25) | (rs2 << 20) | (2u32 << 15) | (2u32 << 12) | ((imm
            & 0x1F) << 7) | 0b0100011)
    } else if op == 2 && f3 == 7 {
        let imm = ((i >> 7) & 0x38) | ((i >> 1) & 0x1C0);
        let rs2 = (i >> 2) & 0x1F;
        Some((((imm >> 5) & 0x3F) << 25) | (rs2 << 20) | (2u32 << 15) | (3u32 << 12) | ((imm
            & 0x1F) << 7) | 0b0100011)
    } else {
        None
    }
}

/// Expand one compressed instruction (see `spec_decompress`).
pub fn decompress(inst: u16) -> (r: Option<u32>)
    ensures
        r == spec_decompress(inst),
{
    let i = inst as u32;
    let op = i & 0x3;
    let f3 = (i >> 13) & 0x7;
    proof {
        assert((i >> 2) & 0x7 <= 7 && (i >> 7) & 0x7 <= 7) by (bit_vector);
    }
    if op == 0 && f3 == 0 {
        if i == 0 {
            None
        } else {
            let imm = ((i >> 1) & 0x3C0) | ((i >> 7) & 0x30) | ((i >> 2) & 0x8) | ((i >> 4) & 0x4);
            let rd = (i >> 2) & 0x7;
            Some((imm << 20) | (2u32 << 15) | (((rd + 8) as u32) << 7) | 0b0010011)
        }
    } else if op == 0 && f3 == 1 {
        let imm = ((i >> 7) & 0x38) | ((i << 1) & 0xC0);
        let rs1 = (i >> 7) & 0x7;
        let rd = (i >> 2) & 0x7;
        Some((imm << 20) | (((rs1 + 8) as u32) << 15) | (3u32 << 12) | (((rd + 8) as u32) << 7)
            | 0b0000111)
    } else if op == 0 && f3 == 2 {
        let imm = ((i >> 7) & 0x38) | ((i >> 4) & 0x4) | ((i << 1) & 0x40);
        let rs1 = (i >> 7) & 0x7;
        let rd = (i >> 2) & 0x7;
        Some((imm << 20) | (((rs1 + 8) as u32) << 15) | (2u32 << 12) | (((rd + 8) as u32) << 7)
            | 0b0000011)
    } else if op == 0 && f3 == 3 {
        let imm = ((i >> 7) & 0x38) | ((i << 1) & 0xC0);
        let rs1 = (i >> 7) & 0x7;
        let rd = (i >> 2) & 0x7;
        Some((imm << 20) | (((rs1 + 8) as u32) << 15) | (3u32 << 12) | (((rd + 8) as u32) << 7)
            | 0b0000011)
    } else if op == 0 && f3 == 5 {
        let imm = ((i >> 7) & 0x38) | ((i << 1) & 0xC0);
        let rs2 = (i >> 2) & 0x7;
        let rs1 = (i >> 7) & 0x7;
        Some((((imm >> 5) & 0x7F) << 25) | (((rs2 + 8) as u32) << 20) | (((rs1 + 8) as u32) << 15)
            | (3u32 << 12) | ((imm & 0x1F) << 7) | 0b0100111)
    } else if op == 0 && f3 == 6 {
        let imm = ((i >> 7) & 0x38) | ((i >> 4) & 0x4) | ((i << 1) & 0x40);
        let rs2 = (i >> 2) & 0x7;
        let rs1 = (i >> 7) & 0x7;
        Some((((imm >> 5) & 0x7F) << 25) | (((rs2 + 8) as u32) << 20) | (((rs1 + 8) as u32) << 15)
            | (2u32 << 12) | ((imm & 0x1F) << 7) | 0b0100011)
    } else if op == 0 && f3 == 7 {
        let imm = ((i >> 7) & 0x38) | ((i << 1) & 0xC0);
        let rs2 = (i >> 2) & 0x7;
        let rs1 = (i >> 7) & 0x7;
        Some((((imm >> 5) & 0x7F) << 25) | (((rs2 + 8) as u32) << 20) | (((rs1 + 8) as u32) << 15)
            | (3u32 << 12) | ((imm & 0x1F) << 7) | 0b0100011)
    } else if op == 1 && f3 == 0 {
        let rs1rd = (i >> 7) & 0x1F;
        if rs1rd == 0 {
            Some(0b00000000000000000000000000010011)
        } else {
            let imm6 = ((i >> 7) & 0x20) | ((i >> 2) & 0x1F);
            let imm12 = if imm6 & 0x20 != 0 {
                imm6 | 0xFC0
            } else {
                imm6
            };
            Some((imm12 << 20) | (rs1rd << 15) | (rs1rd << 7) | 0b0010011)
        }
    } else if op == 1 && f3 == 1 {
        let rs1rd = (i >> 7) & 0x1F;
        if rs1rd == 0 {
            None
        } else {
            let imm6 = ((i >> 7) & 0x20) | ((i >> 2) & 0x1F);
            let imm12 = if imm6 & 0x20 != 0 {
                imm6 | 0xFC0
            } else {
                imm6
            };
            Some((imm12 << 20) | (rs1rd << 15) | (rs1rd << 7) | 0b0011011)
        }
    } else if op == 1 && f3 == 2 {
        let imm6 = ((i >> 7) & 0x20) | ((i >> 2) & 0x1F);
        let imm12 = if imm6 & 0x20 != 0 {
            imm6 | 0xFC0
        } else {
            imm6
        };
        let rd = (i >> 7) & 0x1F;
        Some((imm12 << 20) | (rd << 7) | 0b0010011)
    } else if op == 1 && f3 == 3 {
        let rd = (i >> 7) & 0x1F;
        if rd == 2 {
            let imm10 = ((i >> 3) & 0x200) | ((i >> 2) & 0x10) | ((i << 1) & 0x40) | ((i << 4)
                & 0x180) | ((i << 3) & 0x20);
            let imm12 = if imm10 & 0x200 != 0 {
                imm10 | 0xC00
            } else {
                imm10
            };
            Some((imm12 << 20) | (2u32 << 15) | (2u32 << 7) | 0b0010011)
        } else {
            let imm18 = ((i << 5) & 0x20000) | ((i << 10) & 0x1F000);
            let imm32 = if imm18 & 0x20000 != 0 {
                imm18 | 0xFFFC0000
            } else {
                imm18
            };
            Some(imm32 | (rd << 7) | 0b0110111)
        }
    } else if op == 1 && f3 == 4 {
        let rs1rd3 = (i >> 7) & 0x7;
        let sub3 = (i >> 10) & 0x3;
        if sub3 == 0 {
            let shamt = ((i >> 7) & 0x20) | ((i >> 2) & 0x1F);
            Some((shamt << 20) | (((rs1rd3 + 8) as u32) << 15) | (5u32 << 12) | (((rs1rd3
                + 8) as u32) << 7) | 0b0010011)
        } else if sub3 == 1 {
            let shamt = ((i >> 7) & 0x20) | ((i >> 2) & 0x1F);
            Some((0b0100000u32 << 25) | (shamt << 20) | (((rs1rd3 + 8) as u32) << 15) | (5u32
                << 12) | (((rs1rd3 + 8) as u32) << 7) | 0b0010011)
        } else if sub3 == 2 {
            let imm6 = ((i >> 7) & 0x20) | ((i >> 2) & 0x1F);
            let imm12 = if imm6 & 0x20 != 0 {
                imm6 | 0xFC0
            } else {
                imm6
            };
            Some((imm12 << 20) | (((rs1rd3 + 8) as u32) << 15) | (7u32 << 12) | (((rs1rd3
                + 8) as u32) << 7) | 0b0010011)
        } else {
            let rs2 = (((i >> 2) & 0x7) + 8) as u32;
            let rs1 = ((rs1rd3 + 8) as u32) << 15;
            let rd = ((rs1rd3 + 8) as u32) << 7;
            let hi = (i >> 12) & 0x1;
            let lo = (i >> 5) & 0x3;
            if hi == 0 && lo == 0 {
                Some((0b0100000u32 << 25) | (rs2 << 20) | rs1 | rd | 0b0110011)
            } else if hi == 0 && lo == 1 {
                Some((rs2 << 20) | rs1 | (4u32 << 12) | rd | 0b0110011)
            } else if hi == 0 && lo == 2 {
                Some((rs2 << 20) | rs1 | (6u32 << 12) | rd | 0b0110011)
            } else if hi == 0 && lo == 3 {
                Some((rs2 << 20) | rs1 | (7u32 << 12) | rd | 0b0110011)
            } else if hi == 1 && lo == 0 {
                Some((0b0100000u32 << 25) | (rs2 << 20) | rs1 | rd | 0b0111011)
            } else if hi == 1 && lo == 1 {
                Some((rs2 << 20) | rs1 | rd | 0b0111011)
            } else {
                None
            }
        }
    } else if op == 1 && f3 == 5 {
        let imm = ((i >> 1) & 0x800) | ((i >> 7) & 0x10) | ((i >> 1) & 0x300) | ((i << 2) & 0x400)
            | ((i >> 1) & 0x40) | ((i << 1) & 0x80) | ((i >> 2) & 0xE) | ((i << 3) & 0x20);
        let immx = if imm & 0x800 != 0 {
            imm | 0xFFFF_F000
        } else {
            imm
        };
        let field = ((immx >> 1) & 0x80000) | ((immx << 8) & 0x7FE00) | ((immx >> 3) & 0x100) | ((
        immx >> 12) & 0xFF);
        Some((field << 12) | 0b1101111)
    } else if op == 1 && (f3 == 6 || f3 == 7) {
        let imm = ((i >> 4) & 0x100) | ((i >> 7) & 0x18) | ((i << 1) & 0xC0) | ((i >> 2) & 0x6) | ((
        i << 3) & 0x20);
        let immx = if imm & 0x100 != 0 {
            imm | 0xFFFF_FE00
        } else {
            imm
        };
        let imm2 = (((immx >> 6) & 0x40) | ((immx >> 5) & 0x3F)) << 25;
        let imm1 = ((immx & 0x1E) | ((immx >> 11) & 0x1)) << 7;
        let rs1 = (i >> 7) & 0x7;
        let funct = if f3 == 6 {
            0u32
        } else {
            1u32
        };
        Some(imm2 | (((rs1 + 8) as u32) << 20) | (funct << 12) | imm1 | 0b1100011)
    } else if op == 2 && f3 == 0 {
        let rs1rd = (i >> 7) & 0x1F;
        if rs1rd == 0 {
            None
        } else {
            let shamt = ((i >> 7) & 0x20) | ((i >> 2) & 0x1F);
            Some((shamt << 20) | (rs1rd << 15) | (1u32 << 12) | (rs1rd << 7) | 0b0010011)
        }
    } else if op == 2 && f3 == 1 {
        let rd = (i >> 7) & 0x1F;
        if rd == 0 {
            None
        } else {
            let imm = ((i >> 7) & 0x20) | ((i >> 2) & 0x18) | ((i << 4) & 0x1C0);
            Some((imm << 20) | (2u32 << 15) | (3u32 << 12) | (rd << 7) | 0b0000111)
        }
    } else if op == 2 && f3 == 2 {
        let rd = (i >> 7) & 0x1F;
        if rd == 0 {
            None
        } else {
            let imm = ((i >> 7) & 0x20) | ((i >> 2) & 0x1C) | ((i << 4) & 0xC0);
            Some((imm << 20) | (2u32 << 15) | (2u32 << 12) | (rd << 7) | 0b0000011)
        }
    } else if op == 2 && f3 == 3 {
        let rd = (i >> 7) & 0x1F;
        if rd == 0 {
            None
        } else {
            let imm = ((i >> 7) & 0x20) | ((i >> 2) & 0x18) | ((i << 4) & 0x1C0);
            Some((imm << 20) | (2u32 << 15) | (3u32 << 12) | (rd << 7) | 0b0000011)
        }
    } else if op == 2 && f3 == 4 {
        let rs1 = (i >> 7) & 0x1F;
        let rs2 = (i >> 2) & 0x1F;
        let hi = (i >> 12) & 0x1;
        if hi == 0 {
            if rs2 == 0 {
                if rs1 == 0 {
                    None
                } else {
                    Some((rs1 << 15) | 0b1100111)
                }
            } else {
                Some((rs2 << 20) | (rs1 << 7) | 0b0110011)
            }
        } else {
            if rs1 == 0 && rs2 == 0 {
                Some(0b00000000000100000000000001110011)
            } else if rs1 != 0 && rs2 == 0 {
                Some((rs1 << 15) | (1u32 << 7) | 0b1100111)
            } else {
                Some((rs2 << 20) | (rs1 << 15) | (rs1 << 7) | 0b0110011)
            }
        }
    } else if op == 2 && f3 == 5 {
        let imm = ((i >> 7) & 0x38) | ((i >> 1) & 0x1C0);
        let rs2 = (i >> 2) & 0x1F;
        Some((((imm >> 5) & 0x3F) << 25) | (rs2 << 20) | (2u32 << 15) | (3u32 << 12) | ((imm
            & 0x1F) << 7) | 0b0100111)
    } else if op == 2 && f3 == 6 {
        let imm = ((i >> 7) & 0x3C) | ((i >> 1) & 0xC0);
        let rs2 = (i >> 2) & 0x1F;
        Some((((imm >> 5) & 0x3F) << 25) | (rs2 << 20) | (2u32 << 15) | (2u32 << 12) | ((imm
            & 0x1F) << 7) | 0b0100011)
    } else if op == 2 && f3 == 7 {
        let imm = ((i >> 7) & 0x38) | ((i >> 1) & 0x1C0);
        let rs2 = (i >> 2) & 0x1F;
        Some((((imm >> 5) & 0x3F) << 25) | (rs2 << 20) | (2u32 << 15) | (3u32 << 12) | ((imm
            & 0x1F) << 7) | 0b0100011)
    } else {
        None
    }
}

} // verus!
