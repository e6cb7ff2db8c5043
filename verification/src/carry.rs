//! The carry primitive: one 64-bit addition with carry-in and carry-out,
//! the atomic step every multi-limb operation chains together.

use vstd::prelude::*;

verus! {

/// Splits a 128-bit value at bit 64: the truncating cast keeps the low
/// 64 bits and the shift keeps the high 64 bits.
pub proof fn lemma_u128_parts(x: u128)
    ensures
        (x as u64) == x % 0x1_0000_0000_0000_0000,
        (x >> 64) == x / 0x1_0000_0000_0000_0000,
        x == (x / 0x1_0000_0000_0000_0000) * 0x1_0000_0000_0000_0000 + x % 0x1_0000_0000_0000_0000,
        (x >> 64) <= 0xFFFF_FFFF_FFFF_FFFF,
{
    assert(((x as u64) as u128) == x % 0x1_0000_0000_0000_0000u128) by (bit_vector);
    assert((x >> 64u128) == x / 0x1_0000_0000_0000_0000u128) by (bit_vector);
    assert((x >> 64u128) <= 0xFFFF_FFFF_FFFF_FFFFu128) by (bit_vector);
    vstd::arithmetic::div_mod::lemma_fundamental_div_mod(x as int, 0x1_0000_0000_0000_0000);
}

/// Computes `*out <- a + b + carry` over 64 bits and returns the carry-out,
/// so that the 65-bit sum is represented exactly: no silent overflow.
///
/// The carry-in must be 0 or 1; the carry-out is again 0 or 1.
pub fn adc(carry: u8, a: u64, b: u64, out: &mut u64) -> (c_out: u8)
    requires
        carry <= 1,
    ensures
        c_out <= 1,
        *final(out) + c_out * 0x1_0000_0000_0000_0000 == a + b + carry,
{
    let full: u128 = a as u128 + b as u128 + carry as u128;
    proof {
        lemma_u128_parts(full);
    }
    let lo: u64 = full as u64;
    let hi: u64 = (full >> 64) as u64;
    *out = lo;
    hi as u8
}

} // verus!
