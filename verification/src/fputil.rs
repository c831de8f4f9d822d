//! Verified floating-point support: NaN boxing, classification,
//! comparisons, min/max selection, exception-flag mapping, and dynamic
//! rounding-mode resolution.

use vstd::prelude::*;
use crate::trap::Exception;

verus! {

/// The canonical quiet NaN of binary32.
pub const F32_QNAN: u32 = 0x7FC0_0000;

/// The canonical quiet NaN of binary64.
pub const F64_QNAN: u64 = 0x7FF8_0000_0000_0000;

/// The box pattern: a single-precision value lives in the low 32 bits
/// of a register whose high 32 bits are all ones.
pub open spec fn spec_nanboxed(v: u64) -> bool {
    v >> 32 == 0xFFFF_FFFF
}

/// The single-precision value a 64-bit register holds: its low 32 bits
/// when properly boxed, the canonical quiet NaN otherwise.
pub open spec fn spec_unbox(v: u64) -> u32 {
    if spec_nanboxed(v) {
        v as u32
    } else {
        F32_QNAN
    }
}

/// Box a single-precision value for a 64-bit register.
pub fn nanbox(bits: u32) -> (r: u64)
    ensures
        spec_nanboxed(r),
        r as u32 == bits,
        r == (bits as u64) | 0xFFFF_FFFF_0000_0000u64,
{
    let r = (bits as u64) | 0xFFFF_FFFF_0000_0000u64;
    proof {
        lemma_nanbox_roundtrip(bits, r);
    }
    r
}

/// Read a register as single precision (see `spec_unbox`).
pub fn unbox(v: u64) -> (r: u32)
    ensures
        r == spec_unbox(v),
{
    if v >> 32 == 0xFFFF_FFFF {
        #[verifier::truncate]
        let r = v as u32;
        r
    } else {
        F32_QNAN
    }
}

/// NaN boxing round trip: boxing makes the high 32 bits all ones, and
/// unboxing a boxed value returns it unchanged, while any register
/// whose box is broken reads as the canonical quiet NaN.
pub proof fn lemma_nanbox_roundtrip(bits: u32, v: u64)
    ensures
        spec_nanboxed((bits as u64) | 0xFFFF_FFFF_0000_0000u64),
        spec_unbox((bits as u64) | 0xFFFF_FFFF_0000_0000u64) == bits,
        !spec_nanboxed(v) ==> spec_unbox(v) == F32_QNAN,
{
    let r = (bits as u64) | 0xFFFF_FFFF_0000_0000u64;
    assert(r >> 32 == 0xFFFF_FFFF && r as u32 == bits) by (bit_vector)
        requires
            r == (bits as u64) | 0xFFFF_FFFF_0000_0000u64,
    ;
}

/// Map the arithmetic crate's status bits (invalid 0x01, divide-by-zero
/// 0x02, overflow 0x04, underflow 0x08, inexact 0x10) to the
/// architectural FFLAGS layout (NV 0x10, DZ 0x08, OF 0x04, UF 0x02,
/// NX 0x01).
pub open spec fn spec_fflags_of_status(s: u8) -> u8 {
    ((s & 0x01) << 4) | ((s & 0x02) << 2) | (s & 0x04) | ((s & 0x08) >> 2) | ((s & 0x10) >> 4)
}

pub fn fflags_of_status(s: u8) -> (r: u8)
    ensures
        r == spec_fflags_of_status(s),
{
    ((s & 0x01) << 4) | ((s & 0x02) << 2) | (s & 0x04) | ((s & 0x08) >> 2) | ((s & 0x10) >> 4)
}

pub open spec fn spec_f32_sign(f: u32) -> bool {
    f >> 31 == 1
}

pub open spec fn spec_f32_exp(f: u32) -> u32 {
    (f >> 23) & 0xFF
}

pub open spec fn spec_f32_frac(f: u32) -> u32 {
    f & 0x7F_FFFF
}

pub open spec fn spec_f32_is_nan(f: u32) -> bool {
    spec_f32_exp(f) == 0xFF && spec_f32_frac(f) != 0
}

pub open spec fn spec_f32_is_snan(f: u32) -> bool {
    spec_f32_is_nan(f) && (f >> 22) & 1 == 0
}

pub open spec fn spec_f32_is_zero(f: u32) -> bool {
    f & 0x7FFF_FFFF == 0
}

pub open spec fn spec_f64_sign(f: u64) -> bool {
    f >> 63 == 1
}

pub open spec fn spec_f64_exp(f: u64) -> u64 {
    (f >> 52) & 0x7FF
}

pub open spec fn spec_f64_frac(f: u64) -> u64 {
    f & 0xF_FFFF_FFFF_FFFF
}

pub open spec fn spec_f64_is_nan(f: u64) -> bool {
    spec_f64_exp(f) == 0x7FF && spec_f64_frac(f) != 0
}

pub open spec fn spec_f64_is_snan(f: u64) -> bool {
    spec_f64_is_nan(f) && (f >> 51) & 1 == 0
}

pub open spec fn spec_f64_is_zero(f: u64) -> bool {
    f & 0x7FFF_FFFF_FFFF_FFFF == 0
}

/// The category index FCLASS encodes one-hot: negative infinity 0,
/// negative normal 1, negative subnormal 2, negative zero 3, positive
/// zero 4, positive subnormal 5, positive normal 6, positive infinity
/// 7, signaling NaN 8, quiet NaN 9.
pub open spec fn spec_f32_class_index(f: u32) -> u64 {
    if spec_f32_sign(f) && spec_f32_exp(f) == 0xFF && spec_f32_frac(f) == 0 {
        0
    } else if spec_f32_sign(f) && 0 < spec_f32_exp(f) < 0xFF {
        1
    } else if spec_f32_sign(f) && spec_f32_exp(f) == 0 && spec_f32_frac(f) != 0 {
        2
    } else if f == 0x8000_0000 {
        3
    } else if f == 0 {
        4
    } else if !spec_f32_sign(f) && spec_f32_exp(f) == 0 && spec_f32_frac(f) != 0 {
        5
    } else if !spec_f32_sign(f) && 0 < spec_f32_exp(f) < 0xFF {
        6
    } else if !spec_f32_sign(f) && spec_f32_exp(f) == 0xFF && spec_f32_frac(f) == 0 {
        7
    } else if spec_f32_is_snan(f) {
        8
    } else {
        9
    }
}

/// FCLASS.S: the one-hot category vector of a single-precision value.
pub fn f32_classify(f: u32) -> (r: u64)
    ensures
        r == (1u64 << spec_f32_class_index(f)),
{
    let sign = f >> 31 == 1;
    let exp = (f >> 23) & 0xFF;
    let frac = f & 0x7F_FFFF;
    let idx: u64 = if sign && exp == 0xFF && frac == 0 {
        0
    } else if sign && 0 < exp && exp < 0xFF {
        1
    } else if sign && exp == 0 && frac != 0 {
        2
    } else if f == 0x8000_0000 {
        3
    } else if f == 0 {
        4
    } else if !sign && exp == 0 && frac != 0 {
        5
    } else if !sign && 0 < exp && exp < 0xFF {
        6
    } else if !sign && exp == 0xFF && frac == 0 {
        7
    } else if exp == 0xFF && frac != 0 && (f >> 22) & 1 == 0 {
        8
    } else {
        9
    };
    proof {
        assert(f == 0x8000_0000 || f == 0 || (f >> 31 == 1 && (f >> 23) & 0xFF == 0 && f & 0x7F_FFFF
            != 0) || (f >> 31 != 1 && (f >> 23) & 0xFF == 0 && f & 0x7F_FFFF != 0) || ((f >> 23)
            & 0xFF != 0) || (f >> 31 == 1 && f != 0x8000_0000 && f & 0x7F_FFFF != 0) || (f >> 31
            != 1 && f != 0 && f & 0x7F_FFFF != 0)) by (bit_vector);
    }
    1u64 << idx
}

pub open spec fn spec_f64_class_index(f: u64) -> u64 {
    if spec_f64_sign(f) && spec_f64_exp(f) == 0x7FF && spec_f64_frac(f) == 0 {
        0
    } else if spec_f64_sign(f) && 0 < spec_f64_exp(f) < 0x7FF {
        1
    } else if spec_f64_sign(f) && spec_f64_exp(f) == 0 && spec_f64_frac(f) != 0 {
        2
    } else if f == 0x8000_0000_0000_0000 {
        3
    } else if f == 0 {
        4
    } else if !spec_f64_sign(f) && spec_f64_exp(f) == 0 && spec_f64_frac(f) != 0 {
        5
    } else if !spec_f64_sign(f) && 0 < spec_f64_exp(f) < 0x7FF {
        6
    } else if !spec_f64_sign(f) && spec_f64_exp(f) == 0x7FF && spec_f64_frac(f) == 0 {
        7
    } else if spec_f64_is_snan(f) {
        8
    } else {
        9
    }
}

/// FCLASS.D: the one-hot category vector of a double-precision value.
pub fn f64_classify(f: u64) -> (r: u64)
    ensures
        r == (1u64 << spec_f64_class_index(f)),
{
    let sign = f >> 63 == 1;
    let exp = (f >> 52) & 0x7FF;
    let frac = f & 0xF_FFFF_FFFF_FFFF;
    let idx: u64 = if sign && exp == 0x7FF && frac == 0 {
        0
    } else if sign && 0 < exp && exp < 0x7FF {
        1
    } else if sign && exp == 0 && frac != 0 {
        2
    } else if f == 0x8000_0000_0000_0000 {
        3
    } else if f == 0 {
        4
    } else if !sign && exp == 0 && frac != 0 {
        5
    } else if !sign && 0 < exp && exp < 0x7FF {
        6
    } else if !sign && exp == 0x7FF && frac == 0 {
        7
    } else if exp == 0x7FF && frac != 0 && (f >> 51) & 1 == 0 {
        8
    } else {
        9
    };
    proof {
        assert(f == 0x8000_0000_0000_0000 || f == 0 || ((f >> 52) & 0x7FF != 0) || (f >> 63 == 1
            && f != 0x8000_0000_0000_0000 && f & 0xF_FFFF_FFFF_FFFF != 0) || (f >> 63 != 1 && f
            != 0 && f & 0xF_FFFF_FFFF_FFFF != 0)) by (bit_vector);
    }
    1u64 << idx
}

/// Equality as FEQ sees it: quiet, false on any NaN, with the two
/// zeroes equal; the flag out is NV exactly on a signaling operand.
pub open spec fn spec_f32_eq(a: u32, b: u32) -> bool {
    if spec_f32_is_nan(a) || spec_f32_is_nan(b) {
        false
    } else {
        a == b || (spec_f32_is_zero(a) && spec_f32_is_zero(b))
    }
}

pub fn f32_eq(a: u32, b: u32) -> (r: (bool, u8))
    ensures
        r.0 == spec_f32_eq(a, b),
        r.1 == (if spec_f32_is_snan(a) || spec_f32_is_snan(b) {
            0x10u8
        } else {
            0u8
        }),
{
    let nan_a = (a >> 23) & 0xFF == 0xFF && a & 0x7F_FFFF != 0;
    let nan_b = (b >> 23) & 0xFF == 0xFF && b & 0x7F_FFFF != 0;
    let snan = (nan_a && (a >> 22) & 1 == 0) || (nan_b && (b >> 22) & 1 == 0);
    let flags: u8 = if snan {
        0x10
    } else {
        0
    };
    if nan_a || nan_b {
        (false, flags)
    } else {
        (a == b || (a & 0x7FFF_FFFF == 0 && b & 0x7FFF_FFFF == 0), flags)
    }
}

/// The signaling order test FLT uses: false on any NaN (with NV), and
/// otherwise the IEEE order read off the sign-magnitude encoding.
pub open spec fn spec_f32_lt(a: u32, b: u32) -> bool {
    if spec_f32_is_nan(a) || spec_f32_is_nan(b) {
        false
    } else if spec_f32_is_zero(a) && spec_f32_is_zero(b) {
        false
    } else if spec_f32_sign(a) != spec_f32_sign(b) {
        spec_f32_sign(a)
    } else if !spec_f32_sign(a) {
        a < b
    } else {
        a > b
    }
}

pub fn f32_lt(a: u32, b: u32) -> (r: (bool, u8))
    ensures
        r.0 == spec_f32_lt(a, b),
        r.1 == (if spec_f32_is_nan(a) || spec_f32_is_nan(b) {
            0x10u8
        } else {
            0u8
        }),
{
    let nan_a = (a >> 23) & 0xFF == 0xFF && a & 0x7F_FFFF != 0;
    let nan_b = (b >> 23) & 0xFF == 0xFF && b & 0x7F_FFFF != 0;
    if nan_a || nan_b {
        (false, 0x10)
    } else if a & 0x7FFF_FFFF == 0 && b & 0x7FFF_FFFF == 0 {
        (false, 0)
    } else {
        let sa = a >> 31 == 1;
        let sb = b >> 31 == 1;
        if sa != sb {
            (sa, 0)
        } else if !sa {
            (a < b, 0)
        } else {
            (a > b, 0)
        }
    }
}

pub open spec fn spec_f32_le(a: u32, b: u32) -> bool {
    if spec_f32_is_nan(a) || spec_f32_is_nan(b) {
        false
    } else {
        spec_f32_eq(a, b) || spec_f32_lt(a, b)
    }
}

pub fn f32_le(a: u32, b: u32) -> (r: (bool, u8))
    ensures
        r.0 == spec_f32_le(a, b),
        r.1 == (if spec_f32_is_nan(a) || spec_f32_is_nan(b) {
            0x10u8
        } else {
            0u8
        }),
{
    let (eq, _) = f32_eq(a, b);
    let (lt, _) = f32_lt(a, b);
    let nan_a = (a >> 23) & 0xFF == 0xFF && a & 0x7F_FFFF != 0;
    let nan_b = (b >> 23) & 0xFF == 0xFF && b & 0x7F_FFFF != 0;
    if nan_a || nan_b {
        (false, 0x10)
    } else {
        (eq || lt, 0)
    }
}

pub open spec fn spec_f64_eq(a: u64, b: u64) -> bool {
    if spec_f64_is_nan(a) || spec_f64_is_nan(b) {
        false
    } else {
        a == b || (spec_f64_is_zero(a) && spec_f64_is_zero(b))
    }
}

pub fn f64_eq(a: u64, b: u64) -> (r: (bool, u8))
    ensures
        r.0 == spec_f64_eq(a, b),
        r.1 == (if spec_f64_is_snan(a) || spec_f64_is_snan(b) {
            0x10u8
        } else {
            0u8
        }),
{
    let nan_a = (a >> 52) & 0x7FF == 0x7FF && a & 0xF_FFFF_FFFF_FFFF != 0;
    let nan_b = (b >> 52) & 0x7FF == 0x7FF && b & 0xF_FFFF_FFFF_FFFF != 0;
    let snan = (nan_a && (a >> 51) & 1 == 0) || (nan_b && (b >> 51) & 1 == 0);
    let flags: u8 = if snan {
        0x10
    } else {
        0
    };
    if nan_a || nan_b {
        (false, flags)
    } else {
        (a == b || (a & 0x7FFF_FFFF_FFFF_FFFF == 0 && b & 0x7FFF_FFFF_FFFF_FFFF == 0), flags)
    }
}

pub open spec fn spec_f64_lt(a: u64, b: u64) -> bool {
    if spec_f64_is_nan(a) || spec_f64_is_nan(b) {
        false
    } else if spec_f64_is_zero(a) && spec_f64_is_zero(b) {
        false
    } else if spec_f64_sign(a) != spec_f64_sign(b) {
        spec_f64_sign(a)
    } else if !spec_f64_sign(a) {
        a < b
    } else {
        a > b
    }
}

pub fn f64_lt(a: u64, b: u64) -> (r: (bool, u8))
    ensures
        r.0 == spec_f64_lt(a, b),
        r.1 == (if spec_f64_is_nan(a) || spec_f64_is_nan(b) {
            0x10u8
        } else {
            0u8
        }),
{
    let nan_a = (a >> 52) & 0x7FF == 0x7FF && a & 0xF_FFFF_FFFF_FFFF != 0;
    let nan_b = (b >> 52) & 0x7FF == 0x7FF && b & 0xF_FFFF_FFFF_FFFF != 0;
    if nan_a || nan_b {
        (false, 0x10)
    } else if a & 0x7FFF_FFFF_FFFF_FFFF == 0 && b & 0x7FFF_FFFF_FFFF_FFFF == 0 {
        (false, 0)
    } else {
        let sa = a >> 63 == 1;
        let sb = b >> 63 == 1;
        if sa != sb {
            (sa, 0)
        } else if !sa {
            (a < b, 0)
        } else {
            (a > b, 0)
        }
    }
}

pub open spec fn spec_f64_le(a: u64, b: u64) -> bool {
    if spec_f64_is_nan(a) || spec_f64_is_nan(b) {
        false
    } else {
        spec_f64_eq(a, b) || spec_f64_lt(a, b)
    }
}

pub fn f64_le(a: u64, b: u64) -> (r: (bool, u8))
    ensures
        r.0 == spec_f64_le(a, b),
        r.1 == (if spec_f64_is_nan(a) || spec_f64_is_nan(b) {
            0x10u8
        } else {
            0u8
        }),
{
    let (eq, _) = f64_eq(a, b);
    let (lt, _) = f64_lt(a, b);
    let nan_a = (a >> 52) & 0x7FF == 0x7FF && a & 0xF_FFFF_FFFF_FFFF != 0;
    let nan_b = (b >> 52) & 0x7FF == 0x7FF && b & 0xF_FFFF_FFFF_FFFF != 0;
    if nan_a || nan_b {
        (false, 0x10)
    } else {
        (eq || lt, 0)
    }
}

/// FMIN/FMAX selection: the canonical quiet NaN when both operands are
/// NaN, the non-NaN operand when one is, and otherwise the smaller
/// (respectively larger) operand, taking -0 below +0. The flag out is
/// NV exactly on a signaling operand.
pub open spec fn spec_f32_minmax(a: u32, b: u32, take_max: bool) -> u32 {
    if spec_f32_is_nan(a) && spec_f32_is_nan(b) {
        F32_QNAN
    } else if spec_f32_is_nan(b) {
        a
    } else if spec_f32_is_nan(a) {
        b
    } else {
        let a_first = if take_max {
            spec_f32_lt(b, a) || (spec_f32_eq(a, b) && spec_f32_sign(b))
        } else {
            spec_f32_lt(a, b) || (spec_f32_eq(a, b) && spec_f32_sign(a))
        };
        if a_first {
            a
        } else {
            b
        }
    }
}

pub fn f32_minmax(a: u32, b: u32, take_max: bool) -> (r: (u32, u8))
    ensures
        r.0 == spec_f32_minmax(a, b, take_max),
        r.1 == (if spec_f32_is_snan(a) || spec_f32_is_snan(b) {
            0x10u8
        } else {
            0u8
        }),
{
    let nan_a = (a >> 23) & 0xFF == 0xFF && a & 0x7F_FFFF != 0;
    let nan_b = (b >> 23) & 0xFF == 0xFF && b & 0x7F_FFFF != 0;
    let snan = (nan_a && (a >> 22) & 1 == 0) || (nan_b && (b >> 22) & 1 == 0);
    let flags: u8 = if snan {
        0x10
    } else {
        0
    };
    if nan_a && nan_b {
        (F32_QNAN, flags)
    } else if nan_b {
        (a, flags)
    } else if nan_a {
        (b, flags)
    } else {
        let (eq, _) = f32_eq(a, b);
        let a_first = if take_max {
            let (lt, _) = f32_lt(b, a);
            lt || (eq && b >> 31 == 1)
        } else {
            let (lt, _) = f32_lt(a, b);
            lt || (eq && a >> 31 == 1)
        };
        if a_first {
            (a, flags)
        } else {
            (b, flags)
        }
    }
}

pub open spec fn spec_f64_minmax(a: u64, b: u64, take_max: bool) -> u64 {
    if spec_f64_is_nan(a) && spec_f64_is_nan(b) {
        F64_QNAN
    } else if spec_f64_is_nan(b) {
        a
    } else if spec_f64_is_nan(a) {
        b
    } else {
        let a_first = if take_max {
            spec_f64_lt(b, a) || (spec_f64_eq(a, b) && spec_f64_sign(b))
        } else {
            spec_f64_lt(a, b) || (spec_f64_eq(a, b) && spec_f64_sign(a))
        };
        if a_first {
            a
        } else {
            b
        }
    }
}

pub fn f64_minmax(a: u64, b: u64, take_max: bool) -> (r: (u64, u8))
    ensures
        r.0 == spec_f64_minmax(a, b, take_max),
        r.1 == (if spec_f64_is_snan(a) || spec_f64_is_snan(b) {
            0x10u8
        } else {
            0u8
        }),
{
    let nan_a = (a >> 52) & 0x7FF == 0x7FF && a & 0xF_FFFF_FFFF_FFFF != 0;
    let nan_b = (b >> 52) & 0x7FF == 0x7FF && b & 0xF_FFFF_FFFF_FFFF != 0;
    let snan = (nan_a && (a >> 51) & 1 == 0) || (nan_b && (b >> 51) & 1 == 0);
    let flags: u8 = if snan {
        0x10
    } else {
        0
    };
    if nan_a && nan_b {
        (F64_QNAN, flags)
    } else if nan_b {
        (a, flags)
    } else if nan_a {
        (b, flags)
    } else {
        let (eq, _) = f64_eq(a, b);
        let a_first = if take_max {
            let (lt, _) = f64_lt(b, a);
            lt || (eq && b >> 63 == 1)
        } else {
            let (lt, _) = f64_lt(a, b);
            lt || (eq && a >> 63 == 1)
        };
        if a_first {
            (a, flags)
        } else {
            (b, flags)
        }
    }
}

/// Resolve an instruction's rounding-mode field: 0 through 4 stand for
/// themselves, 5 and 6 are reserved, 7 defers to the dynamic mode in
/// FRM (which must itself be a real mode).
pub open spec fn spec_round_mode(rm: u8, frm: u8) -> Result<u8, Exception> {
    if rm <= 4 {
        Ok(rm)
    } else if rm == 5 || rm == 6 {
        Err(Exception::IllegalInstruction)
    } else if frm <= 4 {
        Ok(frm)
    } else {
        Err(Exception::IllegalInstruction)
    }
}

pub fn round_mode(rm: u8, frm: u8) -> (r: Result<u8, Exception>)
    ensures
        r == spec_round_mode(rm, frm),
        r matches Ok(m) ==> m <= 4,
{
    if rm <= 4 {
        Ok(rm)
    } else if rm == 5 || rm == 6 {
        Err(Exception::IllegalInstruction)
    } else if frm <= 4 {
        Ok(frm)
    } else {
        Err(Exception::IllegalInstruction)
    }
}

} // verus!
