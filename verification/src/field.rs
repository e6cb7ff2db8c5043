//! The field-element type: 4-limb storage, wrapping 256-bit addition, and
//! multiplication reduced with the 2^256 = 38 (mod p) identity.

use vstd::prelude::*;

use crate::carry::adc;
use crate::carry::lemma_u128_parts;
use crate::limbs::as_int;
use crate::limbs::lemma_as_int_bounds;
use crate::limbs::acc192;
use crate::limbs::fold38;
use crate::limbs::prime;

verus! {

/// An element of the field of integers modulo 2^255 - 19, held as four
/// 64-bit limbs, least significant first. The representation is not kept
/// canonical: any 4-limb pattern is a valid value, read modulo p.
///
/// The type deliberately has no equality operator: comparing limbs takes
/// time correlated with the values, which must never happen on secret
/// material. Tests compare the limb arrays obtained from [`Fp::limbs`].
#[derive(Clone, Copy)]
pub struct Fp {
    limbs: [u64; 4],
}

impl Fp {
    /// The limbs of this element, as seen by specifications.
    pub closed spec fn spec_limbs(self) -> [u64; 4] {
        self.limbs
    }

    /// The integer in [0, 2^256) this element's limbs stand for.
    pub open spec fn value(self) -> int {
        as_int(self.spec_limbs())
    }

    /// Builds an element directly from its four little-endian limbs.
    pub fn from_limbs(limbs: [u64; 4]) -> (r: Fp)
        ensures
            r.spec_limbs() == limbs,
    {
        Fp { limbs }
    }

    /// The four little-endian limbs of this element.
    pub fn limbs(&self) -> (r: [u64; 4])
        ensures
            r == self.spec_limbs(),
    {
        self.limbs
    }

    /// A fixed designated element, with every limb 0xFF.
    pub fn constant() -> (r: Fp)
        ensures
            r.spec_limbs()[0] == 0xFF,
            r.spec_limbs()[1] == 0xFF,
            r.spec_limbs()[2] == 0xFF,
            r.spec_limbs()[3] == 0xFF,
    {
        Fp { limbs: [0xFF, 0xFF, 0xFF, 0xFF] }
    }

    /// Adds `other` into `self`, limb by limb with a daisy-chained carry.
    /// The carry out of the top limb is discarded: the result is the true
    /// sum modulo 2^256. No reduction modulo p takes place.
    pub fn add(&mut self, other: Fp)
        ensures
            final(self).value() == (old(self).value() + other.value())
                % 0x1_0000_0000_0000_0000_0000_0000_0000_0000_0000_0000_0000_0000_0000_0000_0000_0000int,
    {
        let mut slot: u64 = 0;
        let mut carry: u8 = 0;
        carry = adc(carry, self.limbs[0], other.limbs[0], &mut slot);
        self.limbs[0] = slot;
        carry = adc(carry, self.limbs[1], other.limbs[1], &mut slot);
        self.limbs[1] = slot;
        carry = adc(carry, self.limbs[2], other.limbs[2], &mut slot);
        self.limbs[2] = slot;
        carry = adc(carry, self.limbs[3], other.limbs[3], &mut slot);
        self.limbs[3] = slot;
        proof {
            let b256: int =
                0x1_0000_0000_0000_0000_0000_0000_0000_0000_0000_0000_0000_0000_0000_0000_0000_0000int;
            lemma_as_int_bounds(self.limbs);
            assert(as_int(old(self).limbs) + as_int(other.limbs)
                == b256 * (carry as int) + as_int(self.limbs));
            vstd::arithmetic::div_mod::lemma_mod_multiples_vanish(
                carry as int, as_int(self.limbs), b256);
            vstd::arithmetic::div_mod::lemma_small_mod(as_int(self.limbs) as nat, b256 as nat);
        }
    }

    /// Multiplies `self` by `other` modulo p, column by column: for each
    /// output place the pairwise limb products of that combined weight are
    /// summed in a 192-bit accumulator, giving the full 512-bit product,
    /// whose high half is then folded back in scaled by 38.
    ///
    /// The result is exactly `fold38` of the true product: congruent to it
    /// modulo p, though not necessarily the canonical representative.
    pub fn mul_assign_columns(&mut self, other: Fp)
        ensures
            final(self).value() == fold38(old(self).value() * other.value()),
            final(self).value() % prime() == (old(self).value() * other.value()) % prime(),
    {
        let a: [u64; 4] = self.limbs;
        let b: [u64; 4] = other.limbs;
        let mut r0: u64 = 0;
        let mut r1: u64 = 0;
        let mut r2: u64 = 0;
        multiply_in(a[0], b[0], &mut r0, &mut r1, &mut r2);
        let low0: u64 = propagate(&mut r0, &mut r1, &mut r2);
        proof {
            assert(low0 + acc192(r0, r1, r2) * 0x1_0000_0000_0000_0000int
                == a[0] * b[0]);
        }
        multiply_in(a[0], b[1], &mut r0, &mut r1, &mut r2);
        multiply_in(a[1], b[0], &mut r0, &mut r1, &mut r2);
        let low1: u64 = propagate(&mut r0, &mut r1, &mut r2);
        proof {
            assert(low0 + low1 * 0x1_0000_0000_0000_0000int + acc192(r0, r1, r2) * 0x1_0000_0000_0000_0000_0000_0000_0000_0000int
                == a[0] * b[0] + a[0] * b[1] * 0x1_0000_0000_0000_0000int + a[1] * b[0] * 0x1_0000_0000_0000_0000int);
        }
        multiply_in(a[0], b[2], &mut r0, &mut r1, &mut r2);
        multiply_in(a[1], b[1], &mut r0, &mut r1, &mut r2);
        multiply_in(a[2], b[0], &mut r0, &mut r1, &mut r2);
        let low2: u64 = propagate(&mut r0, &mut r1, &mut r2);
        proof {
            assert(low0 + low1 * 0x1_0000_0000_0000_0000int + low2 * 0x1_0000_0000_0000_0000_0000_0000_0000_0000int + acc192(r0, r1, r2) * 0x1_0000_0000_0000_0000_0000_0000_0000_0000_0000_0000_0000_0000int
                == a[0] * b[0] + a[0] * b[1] * 0x1_0000_0000_0000_0000int + a[1] * b[0] * 0x1_0000_0000_0000_0000int + a[0] * b[2] * 0x1_0000_0000_0000_0000_0000_0000_0000_0000int + a[1] * b[1] * 0x1_0000_0000_0000_0000_0000_0000_0000_0000int + a[2] * b[0] * 0x1_0000_0000_0000_0000_0000_0000_0000_0000int);
        }
        multiply_in(a[0], b[3], &mut r0, &mut r1, &mut r2);
        multiply_in(a[1], b[2], &mut r0, &mut r1, &mut r2);
        multiply_in(a[2], b[1], &mut r0, &mut r1, &mut r2);
        multiply_in(a[3], b[0], &mut r0, &mut r1, &mut r2);
        let low3: u64 = propagate(&mut r0, &mut r1, &mut r2);
        proof {
            assert(low0 + low1 * 0x1_0000_0000_0000_0000int + low2 * 0x1_0000_0000_0000_0000_0000_0000_0000_0000int + low3 * 0x1_0000_0000_0000_0000_0000_0000_0000_0000_0000_0000_0000_0000int + acc192(r0, r1, r2) * 0x1_0000_0000_0000_0000_0000_0000_0000_0000_0000_0000_0000_0000_0000_0000_0000_0000int
                == a[0] * b[0] + a[0] * b[1] * 0x1_0000_0000_0000_0000int + a[1] * b[0] * 0x1_0000_0000_0000_0000int + a[0] * b[2] * 0x1_0000_0000_0000_0000_0000_0000_0000_0000int + a[1] * b[1] * 0x1_0000_0000_0000_0000_0000_0000_0000_0000int + a[2] * b[0] * 0x1_0000_0000_0000_0000_0000_0000_0000_0000int + a[0] * b[3] * 0x1_0000_0000_0000_0000_0000_0000_0000_0000_0000_0000_0000_0000int + a[1] * b[2] * 0x1_0000_0000_0000_0000_0000_0000_0000_0000_0000_0000_0000_0000int + a[2] * b[1] * 0x1_0000_0000_0000_0000_0000_0000_0000_0000_0000_0000_0000_0000int + a[3] * b[0] * 0x1_0000_0000_0000_0000_0000_0000_0000_0000_0000_0000_0000_0000int);
        }
        multiply_in(a[1], b[3], &mut r0, &mut r1, &mut r2);
        multiply_in(a[2], b[2], &mut r0, &mut r1, &mut r2);
        multiply_in(a[3], b[1], &mut r0, &mut r1, &mut r2);
        let high0: u64 = propagate(&mut r0, &mut r1, &mut r2);
        proof {
            assert(low0 + low1 * 0x1_0000_0000_0000_0000int + low2 * 0x1_0000_0000_0000_0000_0000_0000_0000_0000int + low3 * 0x1_0000_0000_0000_0000_0000_0000_0000_0000_0000_0000_0000_0000int + high0 * 0x1_0000_0000_0000_0000_0000_0000_0000_0000_0000_0000_0000_0000_0000_0000_0000_0000int + acc192(r0, r1, r2) * 0x1_0000_0000_0000_0000_0000_0000_0000_0000_0000_0000_0000_0000_0000_0000_0000_0000_0000_0000_0000_0000int
                == a[0] * b[0] + a[0] * b[1] * 0x1_0000_0000_0000_0000int + a[1] * b[0] * 0x1_0000_0000_0000_0000int + a[0] * b[2] * 0x1_0000_0000_0000_0000_0000_0000_0000_0000int + a[1] * b[1] * 0x1_0000_0000_0000_0000_0000_0000_0000_0000int + a[2] * b[0] * 0x1_0000_0000_0000_0000_0000_0000_0000_0000int + a[0] * b[3] * 0x1_0000_0000_0000_0000_0000_0000_0000_0000_0000_0000_0000_0000int + a[1] * b[2] * 0x1_0000_0000_0000_0000_0000_0000_0000_0000_0000_0000_0000_0000int + a[2] * b[1] * 0x1_0000_0000_0000_0000_0000_0000_0000_0000_0000_0000_0000_0000int + a[3] * b[0] * 0x1_0000_0000_0000_0000_0000_0000_0000_0000_0000_0000_0000_0000int + a[1] * b[3] * 0x1_0000_0000_0000_0000_0000_0000_0000_0000_0000_0000_0000_0000_0000_0000_0000_0000int + a[2] * b[2] * 0x1_0000_0000_0000_0000_0000_0000_0000_0000_0000_0000_0000_0000_0000_0000_0000_0000int + a[3] * b[1] * 0x1_0000_0000_0000_0000_0000_0000_0000_0000_0000_0000_0000_0000_0000_0000_0000_0000int);
        }
        multiply_in(a[2], b[3], &mut r0, &mut r1, &mut r2);
        multiply_in(a[3], b[2], &mut r0, &mut r1, &mut r2);
        let high1: u64 = propagate(&mut r0, &mut r1, &mut r2);
        proof {
            assert(low0 + low1 * 0x1_0000_0000_0000_0000int + low2 * 0x1_0000_0000_0000_0000_0000_0000_0000_0000int + low3 * 0x1_0000_0000_0000_0000_0000_0000_0000_0000_0000_0000_0000_0000int + high0 * 0x1_0000_0000_0000_0000_0000_0000_0000_0000_0000_0000_0000_0000_0000_0000_0000_0000int + high1 * 0x1_0000_0000_0000_0000_0000_0000_0000_0000_0000_0000_0000_0000_0000_0000_0000_0000_0000_0000_0000_0000int + acc192(r0, r1, r2) * 0x1_0000_0000_0000_0000_0000_0000_0000_0000_0000_0000_0000_0000_0000_0000_0000_0000_0000_0000_0000_0000_0000_0000_0000_0000int
                == a[0] * b[0] + a[0] * b[1] * 0x1_0000_0000_0000_0000int + a[1] * b[0] * 0x1_0000_0000_0000_0000int + a[0] * b[2] * 0x1_0000_0000_0000_0000_0000_0000_0000_0000int + a[1] * b[1] * 0x1_0000_0000_0000_0000_0000_0000_0000_0000int + a[2] * b[0] * 0x1_0000_0000_0000_0000_0000_0000_0000_0000int + a[0] * b[3] * 0x1_0000_0000_0000_0000_0000_0000_0000_0000_0000_0000_0000_0000int + a[1] * b[2] * 0x1_0000_0000_0000_0000_0000_0000_0000_0000_0000_0000_0000_0000int + a[2] * b[1] * 0x1_0000_0000_0000_0000_0000_0000_0000_0000_0000_0000_0000_0000int + a[3] * b[0] * 0x1_0000_0000_0000_0000_0000_0000_0000_0000_0000_0000_0000_0000int + a[1] * b[3] * 0x1_0000_0000_0000_0000_0000_0000_0000_0000_0000_0000_0000_0000_0000_0000_0000_0000int + a[2] * b[2] * 0x1_0000_0000_0000_0000_0000_0000_0000_0000_0000_0000_0000_0000_0000_0000_0000_0000int + a[3] * b[1] * 0x1_0000_0000_0000_0000_0000_0000_0000_0000_0000_0000_0000_0000_0000_0000_0000_0000int + a[2] * b[3] * 0x1_0000_0000_0000_0000_0000_0000_0000_0000_0000_0000_0000_0000_0000_0000_0000_0000_0000_0000_0000_0000int + a[3] * b[2] * 0x1_0000_0000_0000_0000_0000_0000_0000_0000_0000_0000_0000_0000_0000_0000_0000_0000_0000_0000_0000_0000int);
        }
        multiply_in(a[3], b[3], &mut r0, &mut r1, &mut r2);
        let high2: u64 = propagate(&mut r0, &mut r1, &mut r2);
        proof {
            assert(low0 + low1 * 0x1_0000_0000_0000_0000int + low2 * 0x1_0000_0000_0000_0000_0000_0000_0000_0000int + low3 * 0x1_0000_0000_0000_0000_0000_0000_0000_0000_0000_0000_0000_0000int + high0 * 0x1_0000_0000_0000_0000_0000_0000_0000_0000_0000_0000_0000_0000_0000_0000_0000_0000int + high1 * 0x1_0000_0000_0000_0000_0000_0000_0000_0000_0000_0000_0000_0000_0000_0000_0000_0000_0000_0000_0000_0000int + high2 * 0x1_0000_0000_0000_0000_0000_0000_0000_0000_0000_0000_0000_0000_0000_0000_0000_0000_0000_0000_0000_0000_0000_0000_0000_0000int + acc192(r0, r1, r2) * 0x1_0000_0000_0000_0000_0000_0000_0000_0000_0000_0000_0000_0000_0000_0000_0000_0000_0000_0000_0000_0000_0000_0000_0000_0000_0000_0000_0000_0000int
                == a[0] * b[0] + a[0] * b[1] * 0x1_0000_0000_0000_0000int + a[1] * b[0] * 0x1_0000_0000_0000_0000int + a[0] * b[2] * 0x1_0000_0000_0000_0000_0000_0000_0000_0000int + a[1] * b[1] * 0x1_0000_0000_0000_0000_0000_0000_0000_0000int + a[2] * b[0] * 0x1_0000_0000_0000_0000_0000_0000_0000_0000int + a[0] * b[3] * 0x1_0000_0000_0000_0000_0000_0000_0000_0000_0000_0000_0000_0000int + a[1] * b[2] * 0x1_0000_0000_0000_0000_0000_0000_0000_0000_0000_0000_0000_0000int + a[2] * b[1] * 0x1_0000_0000_0000_0000_0000_0000_0000_0000_0000_0000_0000_0000int + a[3] * b[0] * 0x1_0000_0000_0000_0000_0000_0000_0000_0000_0000_0000_0000_0000int + a[1] * b[3] * 0x1_0000_0000_0000_0000_0000_0000_0000_0000_0000_0000_0000_0000_0000_0000_0000_0000int + a[2] * b[2] * 0x1_0000_0000_0000_0000_0000_0000_0000_0000_0000_0000_0000_0000_0000_0000_0000_0000int + a[3] * b[1] * 0x1_0000_0000_0000_0000_0000_0000_0000_0000_0000_0000_0000_0000_0000_0000_0000_0000int + a[2] * b[3] * 0x1_0000_0000_0000_0000_0000_0000_0000_0000_0000_0000_0000_0000_0000_0000_0000_0000_0000_0000_0000_0000int + a[3] * b[2] * 0x1_0000_0000_0000_0000_0000_0000_0000_0000_0000_0000_0000_0000_0000_0000_0000_0000_0000_0000_0000_0000int + a[3] * b[3] * 0x1_0000_0000_0000_0000_0000_0000_0000_0000_0000_0000_0000_0000_0000_0000_0000_0000_0000_0000_0000_0000_0000_0000_0000_0000int);
        }
        proof {
            lemma_as_int_bounds(a);
            lemma_as_int_bounds(b);
            vstd::arithmetic::mul::lemma_mul_upper_bound(
                as_int(a), 0x1_0000_0000_0000_0000_0000_0000_0000_0000_0000_0000_0000_0000_0000_0000_0000_0000int - 1, as_int(b), 0x1_0000_0000_0000_0000_0000_0000_0000_0000_0000_0000_0000_0000_0000_0000_0000_0000int - 1);
            crate::limbs::lemma_product_expand(a, b);
            assert(acc192(r0, r1, r2) * 0x1_0000_0000_0000_0000_0000_0000_0000_0000_0000_0000_0000_0000_0000_0000_0000_0000_0000_0000_0000_0000_0000_0000_0000_0000_0000_0000_0000_0000int < 0x1_0000_0000_0000_0000_0000_0000_0000_0000_0000_0000_0000_0000_0000_0000_0000_0000_0000_0000_0000_0000_0000_0000_0000_0000_0000_0000_0000_0000_0000_0000_0000_0000int);
            assert(r1 == 0);
        }
        let high3: u64 = r0;
        let low: [u64; 4] = [low0, low1, low2, low3];
        let high: [u64; 4] = [high0, high1, high2, high3];
        proof {
            assert(as_int(low) + 0x1_0000_0000_0000_0000_0000_0000_0000_0000_0000_0000_0000_0000_0000_0000_0000_0000int * as_int(high) == as_int(a) * as_int(b));
            vstd::arithmetic::mul::lemma_mul_nonnegative(as_int(a), as_int(b));
            crate::limbs::lemma_fold38_congruent(as_int(a) * as_int(b));
        }
        self.limbs = fold_limbs(low, high);
    }

    /// Multiplies `self` by `other` modulo p, row by row: each limb of
    /// `self` is multiplied against all of `other` in one carry-chained
    /// sweep and accumulated positionally, the shape the hardware
    /// carry-chain form of the product takes. Same result as the
    /// column-wise path, by their common contract.
    pub fn mul_assign_rows(&mut self, other: Fp)
        ensures
            final(self).value() == fold38(old(self).value() * other.value()),
            final(self).value() % prime() == (old(self).value() * other.value()) % prime(),
    {
        let a: [u64; 4] = self.limbs;
        let b: [u64; 4] = other.limbs;
        let mut out0: u64 = 0;
        let mut out1: u64 = 0;
        let mut out2: u64 = 0;
        let mut out3: u64 = 0;
        let mut out4: u64 = 0;
        let mut out5: u64 = 0;
        let mut out6: u64 = 0;
        let mut out7: u64 = 0;
        let mut carry: u64 = 0;
        let s = mac(out0, a[0], b[0], carry);
        out0 = s.0;
        carry = s.1;
        let s = mac(out1, a[0], b[1], carry);
        out1 = s.0;
        carry = s.1;
        let s = mac(out2, a[0], b[2], carry);
        out2 = s.0;
        carry = s.1;
        let s = mac(out3, a[0], b[3], carry);
        out3 = s.0;
        carry = s.1;
        out4 = carry;
        proof {
            assert(out0 + out1 * 0x1_0000_0000_0000_0000int + out2 * 0x1_0000_0000_0000_0000_0000_0000_0000_0000int + out3 * 0x1_0000_0000_0000_0000_0000_0000_0000_0000_0000_0000_0000_0000int + out4 * 0x1_0000_0000_0000_0000_0000_0000_0000_0000_0000_0000_0000_0000_0000_0000_0000_0000int
                == a[0] * b[0] + a[0] * b[1] * 0x1_0000_0000_0000_0000int + a[0] * b[2] * 0x1_0000_0000_0000_0000_0000_0000_0000_0000int + a[0] * b[3] * 0x1_0000_0000_0000_0000_0000_0000_0000_0000_0000_0000_0000_0000int);
        }
        carry = 0;
        let s = mac(out1, a[1], b[0], carry);
        out1 = s.0;
        carry = s.1;
        let s = mac(out2, a[1], b[1], carry);
        out2 = s.0;
        carry = s.1;
        let s = mac(out3, a[1], b[2], carry);
        out3 = s.0;
        carry = s.1;
        let s = mac(out4, a[1], b[3], carry);
        out4 = s.0;
        carry = s.1;
        out5 = carry;
        proof {
            assert(out0 + out1 * 0x1_0000_0000_0000_0000int + out2 * 0x1_0000_0000_0000_0000_0000_0000_0000_0000int + out3 * 0x1_0000_0000_0000_0000_0000_0000_0000_0000_0000_0000_0000_0000int + out4 * 0x1_0000_0000_0000_0000_0000_0000_0000_0000_0000_0000_0000_0000_0000_0000_0000_0000int + out5 * 0x1_0000_0000_0000_0000_0000_0000_0000_0000_0000_0000_0000_0000_0000_0000_0000_0000_0000_0000_0000_0000int
                == a[0] * b[0] + a[0] * b[1] * 0x1_0000_0000_0000_0000int + a[0] * b[2] * 0x1_0000_0000_0000_0000_0000_0000_0000_0000int + a[0] * b[3] * 0x1_0000_0000_0000_0000_0000_0000_0000_0000_0000_0000_0000_0000int + a[1] * b[0] * 0x1_0000_0000_0000_0000int + a[1] * b[1] * 0x1_0000_0000_0000_0000_0000_0000_0000_0000int + a[1] * b[2] * 0x1_0000_0000_0000_0000_0000_0000_0000_0000_0000_0000_0000_0000int + a[1] * b[3] * 0x1_0000_0000_0000_0000_0000_0000_0000_0000_0000_0000_0000_0000_0000_0000_0000_0000int);
        }
        carry = 0;
        let s = mac(out2, a[2], b[0], carry);
        out2 = s.0;
        carry = s.1;
        let s = mac(out3, a[2], b[1], carry);
        out3 = s.0;
        carry = s.1;
        let s = mac(out4, a[2], b[2], carry);
        out4 = s.0;
        carry = s.1;
        let s = mac(out5, a[2], b[3], carry);
        out5 = s.0;
        carry = s.1;
        out6 = carry;
        proof {
            assert(out0 + out1 * 0x1_0000_0000_0000_0000int + out2 * 0x1_0000_0000_0000_0000_0000_0000_0000_0000int + out3 * 0x1_0000_0000_0000_0000_0000_0000_0000_0000_0000_0000_0000_0000int + out4 * 0x1_0000_0000_0000_0000_0000_0000_0000_0000_0000_0000_0000_0000_0000_0000_0000_0000int + out5 * 0x1_0000_0000_0000_0000_0000_0000_0000_0000_0000_0000_0000_0000_0000_0000_0000_0000_0000_0000_0000_0000int + out6 * 0x1_0000_0000_0000_0000_0000_0000_0000_0000_0000_0000_0000_0000_0000_0000_0000_0000_0000_0000_0000_0000_0000_0000_0000_0000int
                == a[0] * b[0] + a[0] * b[1] * 0x1_0000_0000_0000_0000int + a[0] * b[2] * 0x1_0000_0000_0000_0000_0000_0000_0000_0000int + a[0] * b[3] * 0x1_0000_0000_0000_0000_0000_0000_0000_0000_0000_0000_0000_0000int + a[1] * b[0] * 0x1_0000_0000_0000_0000int + a[1] * b[1] * 0x1_0000_0000_0000_0000_0000_0000_0000_0000int + a[1] * b[2] * 0x1_0000_0000_0000_0000_0000_0000_0000_0000_0000_0000_0000_0000int + a[1] * b[3] * 0x1_0000_0000_0000_0000_0000_0000_0000_0000_0000_0000_0000_0000_0000_0000_0000_0000int + a[2] * b[0] * 0x1_0000_0000_0000_0000_0000_0000_0000_0000int + a[2] * b[1] * 0x1_0000_0000_0000_0000_0000_0000_0000_0000_0000_0000_0000_0000int + a[2] * b[2] * 0x1_0000_0000_0000_0000_0000_0000_0000_0000_0000_0000_0000_0000_0000_0000_0000_0000int + a[2] * b[3] * 0x1_0000_0000_0000_0000_0000_0000_0000_0000_0000_0000_0000_0000_0000_0000_0000_0000_0000_0000_0000_0000int);
        }
        carry = 0;
        let s = mac(out3, a[3], b[0], carry);
        out3 = s.0;
        carry = s.1;
        let s = mac(out4, a[3], b[1], carry);
        out4 = s.0;
        carry = s.1;
        let s = mac(out5, a[3], b[2], carry);
        out5 = s.0;
        carry = s.1;
        let s = mac(out6, a[3], b[3], carry);
        out6 = s.0;
        carry = s.1;
        out7 = carry;
        proof {
            assert(out0 + out1 * 0x1_0000_0000_0000_0000int + out2 * 0x1_0000_0000_0000_0000_0000_0000_0000_0000int + out3 * 0x1_0000_0000_0000_0000_0000_0000_0000_0000_0000_0000_0000_0000int + out4 * 0x1_0000_0000_0000_0000_0000_0000_0000_0000_0000_0000_0000_0000_0000_0000_0000_0000int + out5 * 0x1_0000_0000_0000_0000_0000_0000_0000_0000_0000_0000_0000_0000_0000_0000_0000_0000_0000_0000_0000_0000int + out6 * 0x1_0000_0000_0000_0000_0000_0000_0000_0000_0000_0000_0000_0000_0000_0000_0000_0000_0000_0000_0000_0000_0000_0000_0000_0000int + out7 * 0x1_0000_0000_0000_0000_0000_0000_0000_0000_0000_0000_0000_0000_0000_0000_0000_0000_0000_0000_0000_0000_0000_0000_0000_0000_0000_0000_0000_0000int
                == a[0] * b[0] + a[0] * b[1] * 0x1_0000_0000_0000_0000int + a[0] * b[2] * 0x1_0000_0000_0000_0000_0000_0000_0000_0000int + a[0] * b[3] * 0x1_0000_0000_0000_0000_0000_0000_0000_0000_0000_0000_0000_0000int + a[1] * b[0] * 0x1_0000_0000_0000_0000int + a[1] * b[1] * 0x1_0000_0000_0000_0000_0000_0000_0000_0000int + a[1] * b[2] * 0x1_0000_0000_0000_0000_0000_0000_0000_0000_0000_0000_0000_0000int + a[1] * b[3] * 0x1_0000_0000_0000_0000_0000_0000_0000_0000_0000_0000_0000_0000_0000_0000_0000_0000int + a[2] * b[0] * 0x1_0000_0000_0000_0000_0000_0000_0000_0000int + a[2] * b[1] * 0x1_0000_0000_0000_0000_0000_0000_0000_0000_0000_0000_0000_0000int + a[2] * b[2] * 0x1_0000_0000_0000_0000_0000_0000_0000_0000_0000_0000_0000_0000_0000_0000_0000_0000int + a[2] * b[3] * 0x1_0000_0000_0000_0000_0000_0000_0000_0000_0000_0000_0000_0000_0000_0000_0000_0000_0000_0000_0000_0000int + a[3] * b[0] * 0x1_0000_0000_0000_0000_0000_0000_0000_0000_0000_0000_0000_0000int + a[3] * b[1] * 0x1_0000_0000_0000_0000_0000_0000_0000_0000_0000_0000_0000_0000_0000_0000_0000_0000int + a[3] * b[2] * 0x1_0000_0000_0000_0000_0000_0000_0000_0000_0000_0000_0000_0000_0000_0000_0000_0000_0000_0000_0000_0000int + a[3] * b[3] * 0x1_0000_0000_0000_0000_0000_0000_0000_0000_0000_0000_0000_0000_0000_0000_0000_0000_0000_0000_0000_0000_0000_0000_0000_0000int);
        }
        let low: [u64; 4] = [out0, out1, out2, out3];
        let high: [u64; 4] = [out4, out5, out6, out7];
        proof {
            crate::limbs::lemma_product_expand(a, b);
            assert(as_int(low) + 0x1_0000_0000_0000_0000_0000_0000_0000_0000_0000_0000_0000_0000_0000_0000_0000_0000int * as_int(high) == as_int(a) * as_int(b));
            lemma_as_int_bounds(a);
            lemma_as_int_bounds(b);
            vstd::arithmetic::mul::lemma_mul_nonnegative(as_int(a), as_int(b));
            crate::limbs::lemma_fold38_congruent(as_int(a) * as_int(b));
        }
        self.limbs = fold_limbs(low, high);
    }

    /// Multiplies `self` by `other` modulo p, through the row-wise path.
    pub fn mul_assign(&mut self, other: Fp)
        ensures
            final(self).value() == fold38(old(self).value() * other.value()),
            final(self).value() % prime() == (old(self).value() * other.value()) % prime(),
    {
        self.mul_assign_rows(other);
    }

    /// Reduces this element to the canonical representative in [0, p), by
    /// two constant-time conditional subtractions of p: any 4-limb value
    /// is below 2p + 38, so two are always enough.
    pub fn canonicalize(&mut self)
        ensures
            final(self).value() == old(self).value() % prime(),
            final(self).value() < prime(),
    {
        proof {
            lemma_as_int_bounds(self.limbs);
        }
        self.limbs = cond_sub_p(self.limbs);
        self.limbs = cond_sub_p(self.limbs);
        proof {
            let v = as_int(old(self).limbs);
            let w = as_int(self.limbs);
            if v >= prime() + prime() {
                assert(v == prime() * 2 + w);
                vstd::arithmetic::div_mod::lemma_mod_multiples_vanish(2, w, prime());
            } else if v >= prime() {
                assert(v == prime() * 1 + w);
                vstd::arithmetic::div_mod::lemma_mod_multiples_vanish(1, w, prime());
            }
            vstd::arithmetic::div_mod::lemma_small_mod(w as nat, prime() as nat);
        }
    }
}

/// Adds the double-width product `a*b` into the 192-bit accumulator
/// `r2:r1:r0`, chaining the carry primitive twice, exactly as the
/// column-wise multiplication consumes it.
fn multiply_in(a: u64, b: u64, r0: &mut u64, r1: &mut u64, r2: &mut u64)
    requires
        acc192(*old(r0), *old(r1), *old(r2)) < 0x1_0000_0000_0000_0000_0000_0000_0000_0000_0000_0000_0000_0000int - 0x1_0000_0000_0000_0000_0000_0000_0000_0000int,
    ensures
        acc192(*final(r0), *final(r1), *final(r2))
            == acc192(*old(r0), *old(r1), *old(r2)) + a * b,
        acc192(*final(r0), *final(r1), *final(r2))
            < acc192(*old(r0), *old(r1), *old(r2)) + 0x1_0000_0000_0000_0000_0000_0000_0000_0000int,
{
    proof {
        vstd::arithmetic::mul::lemma_mul_upper_bound(
            a as int, 0xFFFF_FFFF_FFFF_FFFFint, b as int, 0xFFFF_FFFF_FFFF_FFFFint);
    }
    let uv: u128 = (a as u128) * (b as u128);
    proof {
        lemma_u128_parts(uv);
    }
    let lo: u64 = uv as u64;
    let hi: u64 = (uv >> 64) as u64;
    let mut slot: u64 = 0;
    let mut carry: u8 = adc(0, lo, *r0, &mut slot);
    *r0 = slot;
    carry = adc(carry, hi, *r1, &mut slot);
    *r1 = slot;
    proof {
        assert(acc192(*old(r0), *old(r1), *old(r2)) + a * b
            == *r0 + *r1 * 0x1_0000_0000_0000_0000int + (*r2 + carry) * 0x1_0000_0000_0000_0000_0000_0000_0000_0000int);
        assert(*r2 + carry < 0x1_0000_0000_0000_0000int);
    }
    *r2 = *r2 + (carry as u64);
}

/// Hands out the low accumulator word as the finished limb of the current
/// column and shifts the accumulator down one place.
fn propagate(r0: &mut u64, r1: &mut u64, r2: &mut u64) -> (limb: u64)
    ensures
        limb == *old(r0),
        *final(r2) == 0,
        acc192(*final(r0), *final(r1), *final(r2)) * 0x1_0000_0000_0000_0000int + limb
            == acc192(*old(r0), *old(r1), *old(r2)),
        acc192(*final(r0), *final(r1), *final(r2)) < 0x1_0000_0000_0000_0000_0000_0000_0000_0000int,
{
    let limb = *r0;
    *r0 = *r1;
    *r1 = *r2;
    *r2 = 0;
    limb
}

/// One multiply-accumulate step: `z + x*y + c` as a (low, high) pair of
/// 64-bit words. The sum fits 128 bits exactly, with nothing discarded.
fn mac(z: u64, x: u64, y: u64, c: u64) -> (res: (u64, u64))
    ensures
        res.0 + res.1 * 0x1_0000_0000_0000_0000int == z + x * y + c,
{
    proof {
        vstd::arithmetic::mul::lemma_mul_upper_bound(
            x as int, 0xFFFF_FFFF_FFFF_FFFFint, y as int, 0xFFFF_FFFF_FFFF_FFFFint);
    }
    let t: u128 = (z as u128) + (x as u128) * (y as u128) + (c as u128);
    proof {
        lemma_u128_parts(t);
    }
    ((t as u64), ((t >> 64) as u64))
}

/// One branch-free fold-back pass: adds `38*c` into `r` with a carry
/// chain and returns the new limbs and the carry escaping the top limb.
/// For a carry-in of at most 38 the carry-out is at most 1, and when it
/// is 1 the remaining limbs are tiny, so a following pass ends at 0.
fn fold_carry(r: [u64; 4], c: u64) -> (res: ([u64; 4], u64))
    requires
        c <= 38,
    ensures
        as_int(res.0) + res.1 * 0x1_0000_0000_0000_0000_0000_0000_0000_0000_0000_0000_0000_0000_0000_0000_0000_0000int == as_int(r) + 38 * c,
        res.1 <= 1,
        res.1 == 1 ==> as_int(res.0) < 1444,
{
    let mut out: [u64; 4] = [0; 4];
    let u0: u128 = (r[0] as u128) + 38u128 * (c as u128);
    proof {
        lemma_u128_parts(u0);
    }
    out[0] = u0 as u64;
    let mut k: u64 = (u0 >> 64) as u64;
    let u1: u128 = (r[1] as u128) + (k as u128);
    proof {
        lemma_u128_parts(u1);
    }
    out[1] = u1 as u64;
    k = (u1 >> 64) as u64;
    let u2: u128 = (r[2] as u128) + (k as u128);
    proof {
        lemma_u128_parts(u2);
    }
    out[2] = u2 as u64;
    k = (u2 >> 64) as u64;
    let u3: u128 = (r[3] as u128) + (k as u128);
    proof {
        lemma_u128_parts(u3);
    }
    out[3] = u3 as u64;
    k = (u3 >> 64) as u64;
    proof {
        lemma_as_int_bounds(r);
        lemma_as_int_bounds(out);
        assert(as_int(out) + k * 0x1_0000_0000_0000_0000_0000_0000_0000_0000_0000_0000_0000_0000_0000_0000_0000_0000int == as_int(r) + 38 * c);
    }
    (out, k)
}

/// The widening pass of the reduction: `low + 38*high` over one carry
/// chain, returned as 4 limbs and the carry escaping the top limb, which
/// is at most 38.
fn fold_wide(low: [u64; 4], high: [u64; 4]) -> (res: ([u64; 4], u64))
    ensures
        as_int(res.0) + res.1 * 0x1_0000_0000_0000_0000_0000_0000_0000_0000_0000_0000_0000_0000_0000_0000_0000_0000int == as_int(low) + 38 * as_int(high),
        res.1 <= 38,
{
    let mut r: [u64; 4] = [0; 4];
    let t0: u128 = (low[0] as u128) + 38u128 * (high[0] as u128);
    proof {
        lemma_u128_parts(t0);
    }
    r[0] = t0 as u64;
    let mut carry: u64 = (t0 >> 64) as u64;
    let t1: u128 = (carry as u128) + (low[1] as u128) + 38u128 * (high[1] as u128);
    proof {
        lemma_u128_parts(t1);
        assert(carry <= 38);
    }
    r[1] = t1 as u64;
    carry = (t1 >> 64) as u64;
    let t2: u128 = (carry as u128) + (low[2] as u128) + 38u128 * (high[2] as u128);
    proof {
        lemma_u128_parts(t2);
        assert(carry <= 38);
    }
    r[2] = t2 as u64;
    carry = (t2 >> 64) as u64;
    let t3: u128 = (carry as u128) + (low[3] as u128) + 38u128 * (high[3] as u128);
    proof {
        lemma_u128_parts(t3);
        assert(carry <= 38);
    }
    r[3] = t3 as u64;
    carry = (t3 >> 64) as u64;
    proof {
        assert(as_int(r) + carry * 0x1_0000_0000_0000_0000_0000_0000_0000_0000_0000_0000_0000_0000_0000_0000_0000_0000int == as_int(low) + 38 * as_int(high));
        assert(carry <= 38);
    }
    (r, carry)
}

/// Folds an 8-limb product, given as low and high halves, into 4 limbs:
/// one pass of `low + 38*high`, then two unconditional fold-back passes
/// for the escaping carry. The carry is at most 38 after the first pass,
/// at most 1 after the second and always 0 after the third, so the count
/// of passes is fixed: control flow never depends on the limb values.
/// The result is `fold38` of the input.
fn fold_limbs(low: [u64; 4], high: [u64; 4]) -> (r: [u64; 4])
    ensures
        as_int(r) == fold38(as_int(low) + 0x1_0000_0000_0000_0000_0000_0000_0000_0000_0000_0000_0000_0000_0000_0000_0000_0000int * as_int(high)),
{
    let wide = fold_wide(low, high);
    proof {
        lemma_as_int_bounds(low);
        lemma_as_int_bounds(high);
        if as_int(high) > 0 {
            crate::limbs::lemma_fold38_step(as_int(low), as_int(high));
        }
        assert(fold38(as_int(wide.0) + wide.1 * 0x1_0000_0000_0000_0000_0000_0000_0000_0000_0000_0000_0000_0000_0000_0000_0000_0000int)
            == fold38(as_int(low) + 0x1_0000_0000_0000_0000_0000_0000_0000_0000_0000_0000_0000_0000_0000_0000_0000_0000int * as_int(high)));
    }
    let first = fold_carry(wide.0, wide.1);
    proof {
        lemma_as_int_bounds(wide.0);
        if wide.1 > 0 {
            crate::limbs::lemma_fold38_step(as_int(wide.0), wide.1 as int);
        }
        assert(fold38(as_int(first.0) + first.1 * 0x1_0000_0000_0000_0000_0000_0000_0000_0000_0000_0000_0000_0000_0000_0000_0000_0000int)
            == fold38(as_int(wide.0) + wide.1 * 0x1_0000_0000_0000_0000_0000_0000_0000_0000_0000_0000_0000_0000_0000_0000_0000_0000int));
    }
    let second = fold_carry(first.0, first.1);
    proof {
        lemma_as_int_bounds(first.0);
        if first.1 > 0 {
            crate::limbs::lemma_fold38_step(as_int(first.0), first.1 as int);
        }
        assert(second.1 == 0);
        lemma_as_int_bounds(second.0);
        assert(fold38(as_int(second.0)) == fold38(as_int(first.0) + first.1 * 0x1_0000_0000_0000_0000_0000_0000_0000_0000_0000_0000_0000_0000_0000_0000_0000_0000int));
    }
    second.0
}

/// Bitwise facts for the mask-based select: AND with all ones or all
/// zeros keeps or clears a word, and OR with zero keeps it.
proof fn lemma_select_bits(x: u64)
    ensures
        x & 0xFFFF_FFFF_FFFF_FFFFu64 == x,
        x & 0u64 == 0,
        x | 0u64 == x,
        0u64 | x == x,
{
    assert(x & 0xFFFF_FFFF_FFFF_FFFFu64 == x && x & 0u64 == 0 && x | 0u64 == x && 0u64 | x == x)
        by (bit_vector);
}

/// Subtracts p once if the value is at least p, in constant time: the
/// borrow is computed by adding `2^256 - p` with the carry chain, and the
/// result is chosen by masks, never by a branch on the limbs.
fn cond_sub_p(a: [u64; 4]) -> (r: [u64; 4])
    ensures
        as_int(r) == if as_int(a) >= prime() { as_int(a) - prime() } else { as_int(a) },
{
    let mut slot: u64 = 0;
    let mut c: u8 = adc(0, a[0], 19, &mut slot);
    let t0: u64 = slot;
    c = adc(c, a[1], 0, &mut slot);
    let t1: u64 = slot;
    c = adc(c, a[2], 0, &mut slot);
    let t2: u64 = slot;
    c = adc(c, a[3], 0x8000_0000_0000_0000, &mut slot);
    let t3: u64 = slot;
    proof {
        lemma_as_int_bounds(a);
        assert(t0 + t1 * 0x1_0000_0000_0000_0000int + t2 * 0x1_0000_0000_0000_0000_0000_0000_0000_0000int + t3 * 0x1_0000_0000_0000_0000_0000_0000_0000_0000_0000_0000_0000_0000int + c * 0x1_0000_0000_0000_0000_0000_0000_0000_0000_0000_0000_0000_0000_0000_0000_0000_0000int
            == as_int(a) + (0x1_0000_0000_0000_0000_0000_0000_0000_0000_0000_0000_0000_0000_0000_0000_0000_0000int - prime()));
    }
    let mask: u64 = (c as u64) * 0xFFFF_FFFF_FFFF_FFFF;
    let keep: u64 = (1 - (c as u64)) * 0xFFFF_FFFF_FFFF_FFFF;
    let r: [u64; 4] = [
        (t0 & mask) | (a[0] & keep),
        (t1 & mask) | (a[1] & keep),
        (t2 & mask) | (a[2] & keep),
        (t3 & mask) | (a[3] & keep),
    ];
    proof {
        lemma_select_bits(t0);
        lemma_select_bits(t1);
        lemma_select_bits(t2);
        lemma_select_bits(t3);
        lemma_select_bits(a[0]);
        lemma_select_bits(a[1]);
        lemma_select_bits(a[2]);
        lemma_select_bits(a[3]);
        if c == 1 {
            assert(r[0] == t0 && r[1] == t1 && r[2] == t2 && r[3] == t3);
        } else {
            assert(r[0] == a[0] && r[1] == a[1] && r[2] == a[2] && r[3] == a[3]);
        }
    }
    r
}

/// The two multiplication paths cannot diverge: any two elements whose
/// values both equal `fold38` of the same product have identical limbs,
/// since a value below 2^256 has unique base-2^64 digits.
pub proof fn lemma_mul_paths_agree(a: Fp, b: Fp, from_rows: Fp, from_columns: Fp)
    requires
        from_rows.value() == fold38(a.value() * b.value()),
        from_columns.value() == fold38(a.value() * b.value()),
    ensures
        from_rows.spec_limbs() == from_columns.spec_limbs(),
{
    crate::limbs::lemma_as_int_injective(from_rows.spec_limbs(), from_columns.spec_limbs());
}

} // verus!
