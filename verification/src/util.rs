//! Sign extension, the one primitive every immediate decoder routes through.

use vstd::prelude::*;

verus! {

/// The low `length` bits of `origin`, read as a two's-complement number:
/// the bits above `length` are replaced by copies of the sign bit.
pub open spec fn sign_extended(origin: u64, length: usize) -> i64 {
    if origin & (1u64 << (length - 1) as usize) == 0 {
        (origin & (((1u64 << length) - 1) as u64)) as i64
    } else {
        (origin | !(((1u64 << length) - 1) as u64)) as i64
    }
}

/// Sign-extend the low `length` bits of `origin` to a 64-bit signed value.
pub fn extend_sign(origin: u64, length: usize) -> (r: i64)
    requires
        1 <= length <= 63,
    ensures
        r == sign_extended(origin, length),
{
    proof {
        assert(1u64 << length >= 1 && 1u64 << ((64 - length) as usize) >= 1) by (bit_vector)
            requires
                1 <= length <= 63,
        ;
    }
    let pos = origin & (1u64 << (length - 1)) == 0;
    if pos {
        #[verifier::truncate]
        let r = (origin & ((1u64 << length) - 1)) as i64;
        r
    } else {
        proof {
            assert(((((1u64 << ((64 - length) as usize)) - 1) as u64) << length | origin) == (
            origin | !(((1u64 << length) - 1) as u64))) by (bit_vector)
                requires
                    1 <= length <= 63,
            ;
        }
        #[verifier::truncate]
        let r = (((1u64 << (64 - length)) - 1) << length | origin) as i64;
        r
    }
}


/// Small masked values stay under their mask: the bounds every field
/// extraction in the decoder leans on.
pub proof fn lemma_mask_bounds_u64(x: u64)
    ensures
        x & 0x3 <= 3,
        x & 0x7 <= 7,
        x & 0x1F < 32,
        x & 0x3F < 64,
        x & 0x1FF <= 0x1FF,
{
    assert(x & 0x3 <= 3 && x & 0x7 <= 7 && x & 0x1F < 32 && x & 0x3F < 64 && x & 0x1FF <= 0x1FF)
        by (bit_vector);
}

/// The 32-bit twin of `lemma_mask_bounds_u64`.
pub proof fn lemma_mask_bounds_u32(x: u32)
    ensures
        x & 0x3 <= 3,
        x & 0x7 <= 7,
        x & 0x1F < 32,
        x & 0x3F < 64,
{
    assert(x & 0x3 <= 3 && x & 0x7 <= 7 && x & 0x1F < 32 && x & 0x3F < 64) by (bit_vector);
}

/// Masking to five bits is idempotent, and the dirty encoding masks to
/// itself; the facts flag accumulation relies on.
pub proof fn lemma_mask_low5_u8(x: u8)
    ensures
        x & 0x1F & 0x1F == x & 0x1F,
        0x3u8 & 0x3 == 0x3u8,
{
    assert(x & 0x1F & 0x1F == x & 0x1F && 0x3u8 & 0x3 == 0x3u8) by (bit_vector);
}

/// Complementing every bit of a nonzero value cannot give all-ones,
/// so a two's-complement negation of a nonzero value is nonzero.
pub proof fn lemma_negation_nonzero_u64(b: u64)
    ensures
        b != 0 ==> b ^ 0xFFFF_FFFF_FFFF_FFFF != 0xFFFF_FFFF_FFFF_FFFF,
{
    assert(b != 0 ==> b ^ 0xFFFF_FFFF_FFFF_FFFFu64 != 0xFFFF_FFFF_FFFF_FFFFu64) by (bit_vector);
}

/// The 32-bit twin of `lemma_negation_nonzero_u64`.
pub proof fn lemma_negation_nonzero_u32(b: u32)
    ensures
        b != 0 ==> b ^ 0xFFFF_FFFF != 0xFFFF_FFFF,
{
    assert(b != 0 ==> b ^ 0xFFFF_FFFFu32 != 0xFFFF_FFFFu32) by (bit_vector);
}

/// Reading a word as signed and back as unsigned is the identity.
pub proof fn lemma_sign_cast_u32(w: u32)
    ensures
        w as i32 as u32 == w,
{
    assert(w as i32 as u32 == w) by (bit_vector);
}

/// The 64-bit twin of `lemma_sign_cast_u32`.
pub proof fn lemma_sign_cast_u64(w: u64)
    ensures
        w as i64 as u64 == w,
{
    assert(w as i64 as u64 == w) by (bit_vector);
}


/// Shifting one bit further doubles the value while no overflow occurs.
pub proof fn lemma_shl_step_u64(x: u64, j: u32)
    ensures
        j < 63 && (x << j) < 0x8000_0000_0000_0000 ==> x << (j + 1) == (x << j) * 2,
        x << 0u32 == x,
        j < 64 && (1u64 << j) < 0x100_0000 ==> j <= 23,
        j < 64 && (1u64 << j) < 0x20_0000_0000_0000 ==> j <= 52,
{
    assert((j < 63 && (x << j) < 0x8000_0000_0000_0000 ==> x << (j + 1) == (x << j) * 2) && x
        << 0u32 == x && (j < 64 && (1u64 << j) < 0x100_0000 ==> j <= 23) && (j < 64 && (1u64 << j)
        < 0x20_0000_0000_0000 ==> j <= 52)) by (bit_vector);
}

} // verus!
