//! Trusted access to floating-point arithmetic. Rounding, significand
//! arithmetic and exception detection are delegated to the
//! `rustc_apfloat` crate; each result is given a name here. NaN
//! boxing, classification, comparisons and flag mapping are verified
//! in `fputil`, and square roots are computed by verified integer
//! arithmetic beside the executors.
//!
//! Each wrapper takes the rounding mode as an integer 0..=4 (the
//! architectural encoding) and returns the raw result bits paired with
//! the arithmetic crate's status bits.

use vstd::prelude::*;
use rustc_apfloat::{Float, FloatConvert, Round};
use rustc_apfloat::ieee::{Single, Double};

verus! {

pub uninterp spec fn spec_f32_add(a: u32, b: u32, rm: u8) -> (u32, u8);

/// Relies on rustc_apfloat's Single::add_r: IEEE-754 binary32 addition
/// under the given rounding mode, with its exception status.
#[verifier::external_body]
pub(crate) fn f32_add(a: u32, b: u32, rm: u8) -> (r: (u32, u8))
    requires
        rm <= 4,
    ensures
        r == spec_f32_add(a, b, rm),
{
        let r = match rm {
            0 => Round::NearestTiesToEven,
            1 => Round::TowardZero,
            2 => Round::TowardNegative,
            3 => Round::TowardPositive,
            _ => Round::NearestTiesToAway,
        };
        let x = Single::from_bits(a as u128).add_r(Single::from_bits(b as u128), r);
        (x.value.to_bits() as u32, x.status.bits())
}

pub uninterp spec fn spec_f32_sub(a: u32, b: u32, rm: u8) -> (u32, u8);

/// Relies on rustc_apfloat's Single::sub_r: IEEE-754 binary32 subtraction
/// under the given rounding mode, with its exception status.
#[verifier::external_body]
pub(crate) fn f32_sub(a: u32, b: u32, rm: u8) -> (r: (u32, u8))
    requires
        rm <= 4,
    ensures
        r == spec_f32_sub(a, b, rm),
{
        let r = match rm {
            0 => Round::NearestTiesToEven,
            1 => Round::TowardZero,
            2 => Round::TowardNegative,
            3 => Round::TowardPositive,
            _ => Round::NearestTiesToAway,
        };
        let x = Single::from_bits(a as u128).sub_r(Single::from_bits(b as u128), r);
        (x.value.to_bits() as u32, x.status.bits())
}

pub uninterp spec fn spec_f32_mul(a: u32, b: u32, rm: u8) -> (u32, u8);

/// Relies on rustc_apfloat's Single::mul_r: IEEE-754 binary32 multiplication
/// under the given rounding mode, with its exception status.
#[verifier::external_body]
pub(crate) fn f32_mul(a: u32, b: u32, rm: u8) -> (r: (u32, u8))
    requires
        rm <= 4,
    ensures
        r == spec_f32_mul(a, b, rm),
{
        let r = match rm {
            0 => Round::NearestTiesToEven,
            1 => Round::TowardZero,
            2 => Round::TowardNegative,
            3 => Round::TowardPositive,
            _ => Round::NearestTiesToAway,
        };
        let x = Single::from_bits(a as u128).mul_r(Single::from_bits(b as u128), r);
        (x.value.to_bits() as u32, x.status.bits())
}

pub uninterp spec fn spec_f32_div(a: u32, b: u32, rm: u8) -> (u32, u8);

/// Relies on rustc_apfloat's Single::div_r: IEEE-754 binary32 division
/// under the given rounding mode, with its exception status.
#[verifier::external_body]
pub(crate) fn f32_div(a: u32, b: u32, rm: u8) -> (r: (u32, u8))
    requires
        rm <= 4,
    ensures
        r == spec_f32_div(a, b, rm),
{
        let r = match rm {
            0 => Round::NearestTiesToEven,
            1 => Round::TowardZero,
            2 => Round::TowardNegative,
            3 => Round::TowardPositive,
            _ => Round::NearestTiesToAway,
        };
        let x = Single::from_bits(a as u128).div_r(Single::from_bits(b as u128), r);
        (x.value.to_bits() as u32, x.status.bits())
}

pub uninterp spec fn spec_f32_fma(a: u32, b: u32, c: u32, rm: u8) -> (u32, u8);

/// Relies on rustc_apfloat's Single::mul_add_r: the fused multiply-add
/// `a * b + c` in binary32, rounded once.
#[verifier::external_body]
pub(crate) fn f32_fma(a: u32, b: u32, c: u32, rm: u8) -> (r: (u32, u8))
    requires
        rm <= 4,
    ensures
        r == spec_f32_fma(a, b, c, rm),
{
        let r = match rm {
            0 => Round::NearestTiesToEven,
            1 => Round::TowardZero,
            2 => Round::TowardNegative,
            3 => Round::TowardPositive,
            _ => Round::NearestTiesToAway,
        };
        let x = Single::from_bits(a as u128).mul_add_r(Single::from_bits(b as u128), Single::from_bits(c as u128), r);
        (x.value.to_bits() as u32, x.status.bits())
}

pub uninterp spec fn spec_f32_from_i(v: i64, rm: u8) -> (u32, u8);

/// Relies on rustc_apfloat's Single::from_i128_r: a signed integer
/// rounded to binary32.
#[verifier::external_body]
pub(crate) fn f32_from_i(v: i64, rm: u8) -> (r: (u32, u8))
    requires
        rm <= 4,
    ensures
        r == spec_f32_from_i(v, rm),
{
        let r = match rm {
            0 => Round::NearestTiesToEven,
            1 => Round::TowardZero,
            2 => Round::TowardNegative,
            3 => Round::TowardPositive,
            _ => Round::NearestTiesToAway,
        };
        let x = Single::from_i128_r(v as i128, r);
        (x.value.to_bits() as u32, x.status.bits())
}

pub uninterp spec fn spec_f32_from_u(v: u64, rm: u8) -> (u32, u8);

/// Relies on rustc_apfloat's Single::from_u128_r: an unsigned integer
/// rounded to binary32.
#[verifier::external_body]
pub(crate) fn f32_from_u(v: u64, rm: u8) -> (r: (u32, u8))
    requires
        rm <= 4,
    ensures
        r == spec_f32_from_u(v, rm),
{
        let r = match rm {
            0 => Round::NearestTiesToEven,
            1 => Round::TowardZero,
            2 => Round::TowardNegative,
            3 => Round::TowardPositive,
            _ => Round::NearestTiesToAway,
        };
        let x = Single::from_u128_r(v as u128, r);
        (x.value.to_bits() as u32, x.status.bits())
}

pub uninterp spec fn spec_f32_to_i(a: u32, width: u8, rm: u8) -> (i64, u8);

/// Relies on rustc_apfloat's to_i128_r at width 32 or 64 (other
/// widths overflow its shift arithmetic): binary32 to a signed integer
/// of the given width, saturating with an invalid-operation status on
/// overflow (NaN handling is adjusted by the caller).
#[verifier::external_body]
pub(crate) fn f32_to_i(a: u32, width: u8, rm: u8) -> (r: (i64, u8))
    requires
        rm <= 4,
        width == 32 || width == 64,
    ensures
        r == spec_f32_to_i(a, width, rm),
{
        let r = match rm {
            0 => Round::NearestTiesToEven,
            1 => Round::TowardZero,
            2 => Round::TowardNegative,
            3 => Round::TowardPositive,
            _ => Round::NearestTiesToAway,
        };
        let x = Single::from_bits(a as u128).to_i128_r(width as usize, r, &mut true);
        (x.value as i64, x.status.bits())
}

pub uninterp spec fn spec_f32_to_u(a: u32, width: u8, rm: u8) -> (u64, u8);

/// Relies on rustc_apfloat's to_u128_r at width 32 or 64 (other
/// widths overflow its shift arithmetic): binary32 to an unsigned
/// integer of the given width, saturating with an invalid-operation
/// status on overflow (NaN handling is adjusted by the caller).
#[verifier::external_body]
pub(crate) fn f32_to_u(a: u32, width: u8, rm: u8) -> (r: (u64, u8))
    requires
        rm <= 4,
        width == 32 || width == 64,
    ensures
        r == spec_f32_to_u(a, width, rm),
{
        let r = match rm {
            0 => Round::NearestTiesToEven,
            1 => Round::TowardZero,
            2 => Round::TowardNegative,
            3 => Round::TowardPositive,
            _ => Round::NearestTiesToAway,
        };
        let x = Single::from_bits(a as u128).to_u128_r(width as usize, r, &mut true);
        (x.value as u64, x.status.bits())
}

pub uninterp spec fn spec_f64_add(a: u64, b: u64, rm: u8) -> (u64, u8);

/// Relies on rustc_apfloat's Double::add_r: IEEE-754 binary64 addition
/// under the given rounding mode, with its exception status.
#[verifier::external_body]
pub(crate) fn f64_add(a: u64, b: u64, rm: u8) -> (r: (u64, u8))
    requires
        rm <= 4,
    ensures
        r == spec_f64_add(a, b, rm),
{
        let r = match rm {
            0 => Round::NearestTiesToEven,
            1 => Round::TowardZero,
            2 => Round::TowardNegative,
            3 => Round::TowardPositive,
            _ => Round::NearestTiesToAway,
        };
        let x = Double::from_bits(a as u128).add_r(Double::from_bits(b as u128), r);
        (x.value.to_bits() as u64, x.status.bits())
}

pub uninterp spec fn spec_f64_sub(a: u64, b: u64, rm: u8) -> (u64, u8);

/// Relies on rustc_apfloat's Double::sub_r: IEEE-754 binary64 subtraction
/// under the given rounding mode, with its exception status.
#[verifier::external_body]
pub(crate) fn f64_sub(a: u64, b: u64, rm: u8) -> (r: (u64, u8))
    requires
        rm <= 4,
    ensures
        r == spec_f64_sub(a, b, rm),
{
        let r = match rm {
            0 => Round::NearestTiesToEven,
            1 => Round::TowardZero,
            2 => Round::TowardNegative,
            3 => Round::TowardPositive,
            _ => Round::NearestTiesToAway,
        };
        let x = Double::from_bits(a as u128).sub_r(Double::from_bits(b as u128), r);
        (x.value.to_bits() as u64, x.status.bits())
}

pub uninterp spec fn spec_f64_mul(a: u64, b: u64, rm: u8) -> (u64, u8);

/// Relies on rustc_apfloat's Double::mul_r: IEEE-754 binary64 multiplication
/// under the given rounding mode, with its exception status.
#[verifier::external_body]
pub(crate) fn f64_mul(a: u64, b: u64, rm: u8) -> (r: (u64, u8))
    requires
        rm <= 4,
    ensures
        r == spec_f64_mul(a, b, rm),
{
        let r = match rm {
            0 => Round::NearestTiesToEven,
            1 => Round::TowardZero,
            2 => Round::TowardNegative,
            3 => Round::TowardPositive,
            _ => Round::NearestTiesToAway,
        };
        let x = Double::from_bits(a as u128).mul_r(Double::from_bits(b as u128), r);
        (x.value.to_bits() as u64, x.status.bits())
}

pub uninterp spec fn spec_f64_div(a: u64, b: u64, rm: u8) -> (u64, u8);

/// Relies on rustc_apfloat's Double::div_r: IEEE-754 binary64 division
/// under the given rounding mode, with its exception status.
#[verifier::external_body]
pub(crate) fn f64_div(a: u64, b: u64, rm: u8) -> (r: (u64, u8))
    requires
        rm <= 4,
    ensures
        r == spec_f64_div(a, b, rm),
{
        let r = match rm {
            0 => Round::NearestTiesToEven,
            1 => Round::TowardZero,
            2 => Round::TowardNegative,
            3 => Round::TowardPositive,
            _ => Round::NearestTiesToAway,
        };
        let x = Double::from_bits(a as u128).div_r(Double::from_bits(b as u128), r);
        (x.value.to_bits() as u64, x.status.bits())
}

pub uninterp spec fn spec_f64_fma(a: u64, b: u64, c: u64, rm: u8) -> (u64, u8);

/// Relies on rustc_apfloat's Double::mul_add_r: the fused multiply-add
/// `a * b + c` in binary64, rounded once.
#[verifier::external_body]
pub(crate) fn f64_fma(a: u64, b: u64, c: u64, rm: u8) -> (r: (u64, u8))
    requires
        rm <= 4,
    ensures
        r == spec_f64_fma(a, b, c, rm),
{
        let r = match rm {
            0 => Round::NearestTiesToEven,
            1 => Round::TowardZero,
            2 => Round::TowardNegative,
            3 => Round::TowardPositive,
            _ => Round::NearestTiesToAway,
        };
        let x = Double::from_bits(a as u128).mul_add_r(Double::from_bits(b as u128), Double::from_bits(c as u128), r);
        (x.value.to_bits() as u64, x.status.bits())
}

pub uninterp spec fn spec_f64_from_i(v: i64, rm: u8) -> (u64, u8);

/// Relies on rustc_apfloat's Double::from_i128_r: a signed integer
/// rounded to binary64.
#[verifier::external_body]
pub(crate) fn f64_from_i(v: i64, rm: u8) -> (r: (u64, u8))
    requires
        rm <= 4,
    ensures
        r == spec_f64_from_i(v, rm),
{
        let r = match rm {
            0 => Round::NearestTiesToEven,
            1 => Round::TowardZero,
            2 => Round::TowardNegative,
            3 => Round::TowardPositive,
            _ => Round::NearestTiesToAway,
        };
        let x = Double::from_i128_r(v as i128, r);
        (x.value.to_bits() as u64, x.status.bits())
}

pub uninterp spec fn spec_f64_from_u(v: u64, rm: u8) -> (u64, u8);

/// Relies on rustc_apfloat's Double::from_u128_r: an unsigned integer
/// rounded to binary64.
#[verifier::external_body]
pub(crate) fn f64_from_u(v: u64, rm: u8) -> (r: (u64, u8))
    requires
        rm <= 4,
    ensures
        r == spec_f64_from_u(v, rm),
{
        let r = match rm {
            0 => Round::NearestTiesToEven,
            1 => Round::TowardZero,
            2 => Round::TowardNegative,
            3 => Round::TowardPositive,
            _ => Round::NearestTiesToAway,
        };
        let x = Double::from_u128_r(v as u128, r);
        (x.value.to_bits() as u64, x.status.bits())
}

pub uninterp spec fn spec_f64_to_i(a: u64, width: u8, rm: u8) -> (i64, u8);

/// Relies on rustc_apfloat's to_i128_r at width 32 or 64 (other
/// widths overflow its shift arithmetic): binary64 to a signed integer
/// of the given width, saturating with an invalid-operation status on
/// overflow (NaN handling is adjusted by the caller).
#[verifier::external_body]
pub(crate) fn f64_to_i(a: u64, width: u8, rm: u8) -> (r: (i64, u8))
    requires
        rm <= 4,
        width == 32 || width == 64,
    ensures
        r == spec_f64_to_i(a, width, rm),
{
        let r = match rm {
            0 => Round::NearestTiesToEven,
            1 => Round::TowardZero,
            2 => Round::TowardNegative,
            3 => Round::TowardPositive,
            _ => Round::NearestTiesToAway,
        };
        let x = Double::from_bits(a as u128).to_i128_r(width as usize, r, &mut true);
        (x.value as i64, x.status.bits())
}

pub uninterp spec fn spec_f64_to_u(a: u64, width: u8, rm: u8) -> (u64, u8);

/// Relies on rustc_apfloat's to_u128_r at width 32 or 64 (other
/// widths overflow its shift arithmetic): binary64 to an unsigned
/// integer of the given width, saturating with an invalid-operation
/// status on overflow (NaN handling is adjusted by the caller).
#[verifier::external_body]
pub(crate) fn f64_to_u(a: u64, width: u8, rm: u8) -> (r: (u64, u8))
    requires
        rm <= 4,
        width == 32 || width == 64,
    ensures
        r == spec_f64_to_u(a, width, rm),
{
        let r = match rm {
            0 => Round::NearestTiesToEven,
            1 => Round::TowardZero,
            2 => Round::TowardNegative,
            3 => Round::TowardPositive,
            _ => Round::NearestTiesToAway,
        };
        let x = Double::from_bits(a as u128).to_u128_r(width as usize, r, &mut true);
        (x.value as u64, x.status.bits())
}

pub uninterp spec fn spec_f32_to_f64(a: u32) -> (u64, u8);

/// Relies on rustc_apfloat's FloatConvert: widening binary32 to
/// binary64, which is exact.
#[verifier::external_body]
pub(crate) fn f32_to_f64(a: u32) -> (r: (u64, u8))
    ensures
        r == spec_f32_to_f64(a),
{
        let x: rustc_apfloat::StatusAnd<Double> = Single::from_bits(a as u128).convert_r(Round::NearestTiesToEven, &mut false);
        (x.value.to_bits() as u64, x.status.bits())
}

pub uninterp spec fn spec_f64_to_f32(a: u64, rm: u8) -> (u32, u8);

/// Relies on rustc_apfloat's FloatConvert: narrowing binary64 to
/// binary32 under the given rounding mode.
#[verifier::external_body]
pub(crate) fn f64_to_f32(a: u64, rm: u8) -> (r: (u32, u8))
    requires
        rm <= 4,
    ensures
        r == spec_f64_to_f32(a, rm),
{
        let r = match rm {
            0 => Round::NearestTiesToEven,
            1 => Round::TowardZero,
            2 => Round::TowardNegative,
            3 => Round::TowardPositive,
            _ => Round::NearestTiesToAway,
        };
        let x: rustc_apfloat::StatusAnd<Single> = Double::from_bits(a as u128).convert_r(r, &mut false);
        (x.value.to_bits() as u32, x.status.bits())
}

} // verus!
