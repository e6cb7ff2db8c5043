//! The mathematical model of a 4-limb value: the integer it stands for,
//! the field modulus, and the reduction identity 2^256 = 38 (mod p).

use vstd::prelude::*;

verus! {

/// The integer a little-endian 4-limb sequence stands for:
/// `l[0] + l[1]*2^64 + l[2]*2^128 + l[3]*2^192`, a value in [0, 2^256).
pub open spec fn as_int(l: [u64; 4]) -> int {
    l[0] + l[1] * 0x1_0000_0000_0000_0000
        + l[2] * 0x1_0000_0000_0000_0000_0000_0000_0000_0000int
        + l[3] * 0x1_0000_0000_0000_0000_0000_0000_0000_0000_0000_0000_0000_0000int
}

/// The field modulus p = 2^255 - 19.
pub open spec fn prime() -> int {
    0x7FFF_FFFF_FFFF_FFFF_FFFF_FFFF_FFFF_FFFF_FFFF_FFFF_FFFF_FFFF_FFFF_FFFF_FFFF_FFEDint
}

/// Folds a value into [0, 2^256) by repeatedly replacing the part above
/// bit 256 with 38 times itself, the exact step the reduction code takes.
/// Each step preserves the value modulo p, since 2^256 = 2*p + 38.
pub open spec fn fold38(v: int) -> int
    recommends
        v >= 0,
    decreases v,
{
    if v < 0x1_0000_0000_0000_0000_0000_0000_0000_0000_0000_0000_0000_0000_0000_0000_0000_0000int {
        v
    } else {
        fold38(
            v % 0x1_0000_0000_0000_0000_0000_0000_0000_0000_0000_0000_0000_0000_0000_0000_0000_0000int
                + 38 * (v / 0x1_0000_0000_0000_0000_0000_0000_0000_0000_0000_0000_0000_0000_0000_0000_0000_0000int),
        )
    }
}

/// A 4-limb value is bounded by 2^256.
pub proof fn lemma_as_int_bounds(l: [u64; 4])
    ensures
        0 <= as_int(l),
        as_int(l) < 0x1_0000_0000_0000_0000_0000_0000_0000_0000_0000_0000_0000_0000_0000_0000_0000_0000int,
{
}

/// Two 4-limb sequences standing for the same integer are equal limb by
/// limb: the base-2^64 digits of a value below 2^256 are unique.
pub proof fn lemma_as_int_injective(x: [u64; 4], y: [u64; 4])
    requires
        as_int(x) == as_int(y),
    ensures
        x == y,
{
    broadcast use vstd::array::group_array_axioms;

    let b: int = 0x1_0000_0000_0000_0000;
    vstd::arithmetic::div_mod::lemma_fundamental_div_mod_converse(
        as_int(x), b, x[1] + x[2] * b + x[3] * (b * b), x[0] as int);
    vstd::arithmetic::div_mod::lemma_fundamental_div_mod_converse(
        as_int(y), b, y[1] + y[2] * b + y[3] * (b * b), y[0] as int);
    assert(x[0] == y[0]);
    let qx: int = x[1] + x[2] * b + x[3] * (b * b);
    let qy: int = y[1] + y[2] * b + y[3] * (b * b);
    assert(qx == qy);
    vstd::arithmetic::div_mod::lemma_fundamental_div_mod_converse(
        qx, b, x[2] + x[3] * b, x[1] as int);
    vstd::arithmetic::div_mod::lemma_fundamental_div_mod_converse(
        qy, b, y[2] + y[3] * b, y[1] as int);
    assert(x[1] == y[1]);
    vstd::arithmetic::div_mod::lemma_fundamental_div_mod_converse(
        x[2] + x[3] * b, b, x[3] as int, x[2] as int);
    vstd::arithmetic::div_mod::lemma_fundamental_div_mod_converse(
        y[2] + y[3] * b, b, y[3] as int, y[2] as int);
    assert(x[2] == y[2]);
    assert(x[3] == y[3]);
    assert(x =~= y);
}

/// One folding step keeps the value's residue: replacing `q*2^256` with
/// `q*38` subtracts `q*(2^256 - 38) = q*2*p`, a multiple of p.
pub proof fn lemma_fold38_congruent(v: int)
    requires
        v >= 0,
    ensures
        fold38(v) % prime() == v % prime(),
    decreases v,
{
    let b256: int =
        0x1_0000_0000_0000_0000_0000_0000_0000_0000_0000_0000_0000_0000_0000_0000_0000_0000int;
    if v < b256 {
    } else {
        let q = v / b256;
        let r = v % b256;
        vstd::arithmetic::div_mod::lemma_fundamental_div_mod(v, b256);
        assert(v == b256 * q + r);
        assert(b256 * q == prime() * (2 * q) + 38 * q);
        vstd::arithmetic::div_mod::lemma_mod_multiples_vanish(2 * q, r + 38 * q, prime());
        assert(v % prime() == (r + 38 * q) % prime());
        lemma_fold38_congruent(r + 38 * q);
    }
}

/// The folded value lies in [0, 2^256).
pub proof fn lemma_fold38_bounds(v: int)
    requires
        v >= 0,
    ensures
        0 <= fold38(v),
        fold38(v)
            < 0x1_0000_0000_0000_0000_0000_0000_0000_0000_0000_0000_0000_0000_0000_0000_0000_0000int,
    decreases v,
{
    let b256: int =
        0x1_0000_0000_0000_0000_0000_0000_0000_0000_0000_0000_0000_0000_0000_0000_0000_0000int;
    if v >= b256 {
        lemma_fold38_bounds(v % b256 + 38 * (v / b256));
    }
}


/// The value of a 192-bit accumulator held as three 64-bit words.
pub open spec fn acc192(r0: u64, r1: u64, r2: u64) -> int {
    r0 + r1 * 0x1_0000_0000_0000_0000int + r2 * 0x1_0000_0000_0000_0000_0000_0000_0000_0000int
}

/// One limb times a 4-limb value: plain distributivity, with each
/// partial product pulled out in front of its constant weight.
proof fn lemma_times_limbs(x: int, b0: int, b1: int, b2: int, b3: int)
    ensures
        x * (b0 + b1 * 0x1_0000_0000_0000_0000int + b2 * 0x1_0000_0000_0000_0000_0000_0000_0000_0000int + b3 * 0x1_0000_0000_0000_0000_0000_0000_0000_0000_0000_0000_0000_0000int)
            == x * b0 + (x * b1) * 0x1_0000_0000_0000_0000int + (x * b2) * 0x1_0000_0000_0000_0000_0000_0000_0000_0000int + (x * b3) * 0x1_0000_0000_0000_0000_0000_0000_0000_0000_0000_0000_0000_0000int,
{
    vstd::arithmetic::mul::lemma_mul_is_distributive_add(
        x, b0, b1 * 0x1_0000_0000_0000_0000int + b2 * 0x1_0000_0000_0000_0000_0000_0000_0000_0000int + b3 * 0x1_0000_0000_0000_0000_0000_0000_0000_0000_0000_0000_0000_0000int);
    vstd::arithmetic::mul::lemma_mul_is_distributive_add(
        x, b1 * 0x1_0000_0000_0000_0000int, b2 * 0x1_0000_0000_0000_0000_0000_0000_0000_0000int + b3 * 0x1_0000_0000_0000_0000_0000_0000_0000_0000_0000_0000_0000_0000int);
    vstd::arithmetic::mul::lemma_mul_is_distributive_add(x, b2 * 0x1_0000_0000_0000_0000_0000_0000_0000_0000int, b3 * 0x1_0000_0000_0000_0000_0000_0000_0000_0000_0000_0000_0000_0000int);
    vstd::arithmetic::mul::lemma_mul_is_associative(x, b1, 0x1_0000_0000_0000_0000int);
    vstd::arithmetic::mul::lemma_mul_is_associative(x, b2, 0x1_0000_0000_0000_0000_0000_0000_0000_0000int);
    vstd::arithmetic::mul::lemma_mul_is_associative(x, b3, 0x1_0000_0000_0000_0000_0000_0000_0000_0000_0000_0000_0000_0000int);
}

/// A sum `x + y*2^64` times `b`, split into `x*b` and `(y*b)` at the next
/// weight: one distributivity step of the Horner form.
proof fn lemma_horner_step(x: int, y: int, b: int)
    ensures
        (x + y * 0x1_0000_0000_0000_0000int) * b == x * b + (y * b) * 0x1_0000_0000_0000_0000int,
{
    vstd::arithmetic::mul::lemma_mul_is_distributive_add_other_way(b, x, y * 0x1_0000_0000_0000_0000int);
    vstd::arithmetic::mul::lemma_mul_is_associative(y, 0x1_0000_0000_0000_0000int, b);
    vstd::arithmetic::mul::lemma_mul_is_commutative(0x1_0000_0000_0000_0000int, b);
    vstd::arithmetic::mul::lemma_mul_is_associative(y, b, 0x1_0000_0000_0000_0000int);
}

/// Schoolbook expansion: the product of two radix-2^64 polynomials is the
/// sum of all pairwise limb products, each at the place of its combined
/// weight.
proof fn lemma_poly_expand(a0: u64, a1: u64, a2: u64, a3: u64, b0: u64, b1: u64, b2: u64, b3: u64)
    ensures
        (a0 + a1 * 0x1_0000_0000_0000_0000int + a2 * 0x1_0000_0000_0000_0000_0000_0000_0000_0000int + a3 * 0x1_0000_0000_0000_0000_0000_0000_0000_0000_0000_0000_0000_0000int)
            * (b0 + b1 * 0x1_0000_0000_0000_0000int + b2 * 0x1_0000_0000_0000_0000_0000_0000_0000_0000int + b3 * 0x1_0000_0000_0000_0000_0000_0000_0000_0000_0000_0000_0000_0000int)
            == a0 * b0
                + (a0 * b1 + a1 * b0) * 0x1_0000_0000_0000_0000int
                + (a0 * b2 + a1 * b1 + a2 * b0) * 0x1_0000_0000_0000_0000_0000_0000_0000_0000int
                + (a0 * b3 + a1 * b2 + a2 * b1 + a3 * b0) * 0x1_0000_0000_0000_0000_0000_0000_0000_0000_0000_0000_0000_0000int
                + (a1 * b3 + a2 * b2 + a3 * b1) * 0x1_0000_0000_0000_0000_0000_0000_0000_0000_0000_0000_0000_0000_0000_0000_0000_0000int
                + (a2 * b3 + a3 * b2) * 0x1_0000_0000_0000_0000_0000_0000_0000_0000_0000_0000_0000_0000_0000_0000_0000_0000_0000_0000_0000_0000int
                + (a3 * b3) * 0x1_0000_0000_0000_0000_0000_0000_0000_0000_0000_0000_0000_0000_0000_0000_0000_0000_0000_0000_0000_0000_0000_0000_0000_0000int,
{
    let bb = b0 + b1 * 0x1_0000_0000_0000_0000int + b2 * 0x1_0000_0000_0000_0000_0000_0000_0000_0000int + b3 * 0x1_0000_0000_0000_0000_0000_0000_0000_0000_0000_0000_0000_0000int;
    let h2 = a2 + a3 * 0x1_0000_0000_0000_0000int;
    let h1 = a1 + h2 * 0x1_0000_0000_0000_0000int;
    assert(a0 + a1 * 0x1_0000_0000_0000_0000int + a2 * 0x1_0000_0000_0000_0000_0000_0000_0000_0000int + a3 * 0x1_0000_0000_0000_0000_0000_0000_0000_0000_0000_0000_0000_0000int == a0 + h1 * 0x1_0000_0000_0000_0000int);
    lemma_horner_step(a0 as int, h1, bb);
    lemma_horner_step(a1 as int, h2, bb);
    lemma_horner_step(a2 as int, a3 as int, bb);
    lemma_times_limbs(a0 as int, b0 as int, b1 as int, b2 as int, b3 as int);
    lemma_times_limbs(a1 as int, b0 as int, b1 as int, b2 as int, b3 as int);
    lemma_times_limbs(a2 as int, b0 as int, b1 as int, b2 as int, b3 as int);
    lemma_times_limbs(a3 as int, b0 as int, b1 as int, b2 as int, b3 as int);
}

/// The product of two 4-limb values, expanded into pairwise limb products.
pub proof fn lemma_product_expand(a: [u64; 4], b: [u64; 4])
    ensures
        as_int(a) * as_int(b)
            == a[0] * b[0]
                + (a[0] * b[1] + a[1] * b[0]) * 0x1_0000_0000_0000_0000int
                + (a[0] * b[2] + a[1] * b[1] + a[2] * b[0]) * 0x1_0000_0000_0000_0000_0000_0000_0000_0000int
                + (a[0] * b[3] + a[1] * b[2] + a[2] * b[1] + a[3] * b[0]) * 0x1_0000_0000_0000_0000_0000_0000_0000_0000_0000_0000_0000_0000int
                + (a[1] * b[3] + a[2] * b[2] + a[3] * b[1]) * 0x1_0000_0000_0000_0000_0000_0000_0000_0000_0000_0000_0000_0000_0000_0000_0000_0000int
                + (a[2] * b[3] + a[3] * b[2]) * 0x1_0000_0000_0000_0000_0000_0000_0000_0000_0000_0000_0000_0000_0000_0000_0000_0000_0000_0000_0000_0000int
                + (a[3] * b[3]) * 0x1_0000_0000_0000_0000_0000_0000_0000_0000_0000_0000_0000_0000_0000_0000_0000_0000_0000_0000_0000_0000_0000_0000_0000_0000int,
{
    lemma_poly_expand(a[0], a[1], a[2], a[3], b[0], b[1], b[2], b[3]);
}

/// Adding `c` units of 2^256 is, under `fold38`, the same as adding `38*c`:
/// the first folding step turns the one into the other.
pub proof fn lemma_fold38_step(r: int, c: int)
    requires
        0 <= r < 0x1_0000_0000_0000_0000_0000_0000_0000_0000_0000_0000_0000_0000_0000_0000_0000_0000int,
        c >= 1,
    ensures
        fold38(r + c * 0x1_0000_0000_0000_0000_0000_0000_0000_0000_0000_0000_0000_0000_0000_0000_0000_0000int) == fold38(r + 38 * c),
{
    let v = r + c * 0x1_0000_0000_0000_0000_0000_0000_0000_0000_0000_0000_0000_0000_0000_0000_0000_0000int;
    vstd::arithmetic::mul::lemma_mul_inequality(1, c, 0x1_0000_0000_0000_0000_0000_0000_0000_0000_0000_0000_0000_0000_0000_0000_0000_0000int);
    vstd::arithmetic::div_mod::lemma_fundamental_div_mod_converse(v, 0x1_0000_0000_0000_0000_0000_0000_0000_0000_0000_0000_0000_0000_0000_0000_0000_0000int, c, r);
    assert(v >= 0x1_0000_0000_0000_0000_0000_0000_0000_0000_0000_0000_0000_0000_0000_0000_0000_0000int);
    assert(fold38(v) == fold38(v % 0x1_0000_0000_0000_0000_0000_0000_0000_0000_0000_0000_0000_0000_0000_0000_0000_0000int + 38 * (v / 0x1_0000_0000_0000_0000_0000_0000_0000_0000_0000_0000_0000_0000_0000_0000_0000_0000int)));
}

} // verus!
