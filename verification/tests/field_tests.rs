use fp25519::carry::adc;
use fp25519::field::Fp;

const MAX: u64 = u64::MAX;

/// p = 2^255 - 19 as four little-endian limbs.
const P_LIMBS: [u64; 4] = [
    0xFFFF_FFFF_FFFF_FFED,
    0xFFFF_FFFF_FFFF_FFFF,
    0xFFFF_FFFF_FFFF_FFFF,
    0x7FFF_FFFF_FFFF_FFFF,
];

fn ge256(a: &[u64; 4], b: &[u64; 4]) -> bool {
    for i in (0..4).rev() {
        if a[i] > b[i] {
            return true;
        }
        if a[i] < b[i] {
            return false;
        }
    }
    true
}

fn sub256(a: &[u64; 4], b: &[u64; 4]) -> [u64; 4] {
    let mut r = [0u64; 4];
    let mut borrow: u64 = 0;
    for i in 0..4 {
        let (d1, b1) = a[i].overflowing_sub(b[i]);
        let (d2, b2) = d1.overflowing_sub(borrow);
        r[i] = d2;
        borrow = (b1 as u64) + (b2 as u64);
    }
    r
}

fn reduce_once(a: [u64; 4]) -> [u64; 4] {
    if ge256(&a, &P_LIMBS) {
        sub256(&a, &P_LIMBS)
    } else {
        a
    }
}

/// Doubles a value known to be below p, reducing the result below p.
fn dbl_mod(a: [u64; 4]) -> [u64; 4] {
    let mut r = [0u64; 4];
    let mut carry: u64 = 0;
    for i in 0..4 {
        r[i] = (a[i] << 1) | carry;
        carry = a[i] >> 63;
    }
    reduce_once(r)
}

/// Adds a single limb into a value known to be below p, reducing below p.
fn add_limb_mod(a: [u64; 4], x: u64) -> [u64; 4] {
    let mut r = a;
    let mut carry: u128 = x as u128;
    for i in 0..4 {
        let t = r[i] as u128 + carry;
        r[i] = t as u64;
        carry = t >> 64;
    }
    reduce_once(r)
}

/// Reduces an arbitrary little-endian limb sequence modulo p by binary
/// Horner evaluation: no use of the 2^256 = 38 identity, so this is an
/// independent reference for the library's reduction.
fn mod_p(limbs: &[u64]) -> [u64; 4] {
    let mut acc = [0u64; 4];
    for &limb in limbs.iter().rev() {
        for _ in 0..64 {
            acc = dbl_mod(acc);
        }
        acc = add_limb_mod(acc, limb);
    }
    acc
}

/// The full 512-bit product of two 256-bit values, by plain schoolbook
/// accumulation in 128-bit arithmetic.
fn product_512(a: &[u64; 4], b: &[u64; 4]) -> [u64; 8] {
    let mut out = [0u64; 8];
    for i in 0..4 {
        let mut carry: u128 = 0;
        for j in 0..4 {
            let t = out[i + j] as u128 + a[i] as u128 * b[j] as u128 + carry;
            out[i + j] = t as u64;
            carry = t >> 64;
        }
        out[i + 4] = carry as u64;
    }
    out
}

/// A small deterministic generator for test vectors.
fn next_limb(state: &mut u64) -> u64 {
    let mut x = *state;
    x ^= x << 13;
    x ^= x >> 7;
    x ^= x << 17;
    *state = x;
    x
}

#[test]
fn adc_exact_simple() {
    let mut out: u64 = 0;
    let c = adc(0, 2, 3, &mut out);
    assert_eq!(out, 5);
    assert_eq!(c, 0);
}

#[test]
fn adc_exact_carry_out() {
    let mut out: u64 = 0;
    let c = adc(0, MAX, 1, &mut out);
    assert_eq!(out, 0);
    assert_eq!(c, 1);
}

#[test]
fn adc_exact_saturated() {
    let mut out: u64 = 0;
    let c = adc(1, MAX, MAX, &mut out);
    assert_eq!(out, MAX);
    assert_eq!(c, 1);
}

#[test]
fn adc_exhaustive_identity_on_samples() {
    let samples = [0u64, 1, 2, 0xFF, 1 << 32, MAX - 1, MAX];
    for &a in &samples {
        for &b in &samples {
            for carry in 0u8..2 {
                let mut out: u64 = 0;
                let c = adc(carry, a, b, &mut out);
                assert!(c <= 1);
                let exact = a as u128 + b as u128 + carry as u128;
                assert_eq!(out as u128 + ((c as u128) << 64), exact);
            }
        }
    }
}

#[test]
fn add_carry_propagates_one_limb() {
    let mut a = Fp::from_limbs([MAX, 0, 0, 0]);
    a.add(Fp::from_limbs([1, 0, 0, 0]));
    assert_eq!(a.limbs(), [0, 1, 0, 0]);
}

#[test]
fn add_wraps_past_top_limb() {
    let mut a = Fp::from_limbs([MAX, MAX, MAX, MAX]);
    a.add(Fp::from_limbs([1, 0, 0, 0]));
    assert_eq!(a.limbs(), [0, 0, 0, 0]);
}

#[test]
fn add_matches_bigint_truncation() {
    let mut state: u64 = 0x9E37_79B9_7F4A_7C15;
    for _ in 0..50 {
        let al = [
            next_limb(&mut state),
            next_limb(&mut state),
            next_limb(&mut state),
            next_limb(&mut state),
        ];
        let bl = [
            next_limb(&mut state),
            next_limb(&mut state),
            next_limb(&mut state),
            next_limb(&mut state),
        ];
        let mut a = Fp::from_limbs(al);
        a.add(Fp::from_limbs(bl));
        let mut expect = [0u64; 4];
        let mut carry: u128 = 0;
        for i in 0..4 {
            let t = al[i] as u128 + bl[i] as u128 + carry;
            expect[i] = t as u64;
            carry = t >> 64;
        }
        assert_eq!(a.limbs(), expect);
    }
}

#[test]
fn mul_identity() {
    let mut a = Fp::from_limbs([1, 0, 0, 0]);
    a.mul_assign(Fp::from_limbs([1, 0, 0, 0]));
    assert_eq!(a.limbs(), [1, 0, 0, 0]);
}

#[test]
fn mul_two_times_two() {
    let mut a = Fp::from_limbs([2, 0, 0, 0]);
    a.mul_assign(Fp::from_limbs([2, 0, 0, 0]));
    assert_eq!(a.limbs(), [4, 0, 0, 0]);
}

#[test]
fn constant_plus_zero_is_constant() {
    let mut a = Fp::from_limbs([0, 0, 0, 0]);
    a.add(Fp::constant());
    assert_eq!(a.limbs(), [0xFF, 0xFF, 0xFF, 0xFF]);
}

#[test]
fn constant_times_one_is_constant() {
    let mut a = Fp::constant();
    a.mul_assign(Fp::from_limbs([1, 0, 0, 0]));
    assert_eq!(a.limbs(), [0xFF, 0xFF, 0xFF, 0xFF]);
    let product = product_512(&[0xFF, 0xFF, 0xFF, 0xFF], &[1, 0, 0, 0]);
    assert_eq!(mod_p(&a.limbs()), mod_p(&product));
}

#[test]
fn mul_congruent_to_bigint_reference() {
    let cases: [([u64; 4], [u64; 4]); 5] = [
        ([MAX, MAX, MAX, MAX], [MAX, MAX, MAX, MAX]),
        ([MAX, 0, MAX, 0], [0, MAX, 0, MAX]),
        (P_LIMBS, P_LIMBS),
        ([19, 0, 0, 0x8000_0000_0000_0000], [2, 0, 0, 0]),
        ([0x0123_4567_89AB_CDEF, 1, 2, 3], [4, 5, 6, 7]),
    ];
    for &(al, bl) in &cases {
        let mut a = Fp::from_limbs(al);
        a.mul_assign(Fp::from_limbs(bl));
        let product = product_512(&al, &bl);
        assert_eq!(mod_p(&a.limbs()), mod_p(&product));
    }
}

#[test]
fn mul_congruent_on_generated_vectors() {
    let mut state: u64 = 0xD1B5_4A32_D192_ED03;
    for _ in 0..25 {
        let al = [
            next_limb(&mut state),
            next_limb(&mut state),
            next_limb(&mut state),
            next_limb(&mut state),
        ];
        let bl = [
            next_limb(&mut state),
            next_limb(&mut state),
            next_limb(&mut state),
            next_limb(&mut state),
        ];
        let mut a = Fp::from_limbs(al);
        a.mul_assign(Fp::from_limbs(bl));
        let product = product_512(&al, &bl);
        assert_eq!(mod_p(&a.limbs()), mod_p(&product));
    }
}

#[test]
fn mul_paths_agree_on_many_inputs() {
    let mut state: u64 = 0xA076_1D64_78BD_642F;
    let mut check = |al: [u64; 4], bl: [u64; 4]| {
        let mut rows = Fp::from_limbs(al);
        rows.mul_assign_rows(Fp::from_limbs(bl));
        let mut cols = Fp::from_limbs(al);
        cols.mul_assign_columns(Fp::from_limbs(bl));
        assert_eq!(rows.limbs(), cols.limbs());
    };
    check([MAX, MAX, MAX, MAX], [MAX, MAX, MAX, MAX]);
    check([0, 0, 0, 0], [MAX, MAX, MAX, MAX]);
    check(P_LIMBS, [38, 0, 0, 0]);
    for _ in 0..50 {
        let al = [
            next_limb(&mut state),
            next_limb(&mut state),
            next_limb(&mut state),
            next_limb(&mut state),
        ];
        let bl = [
            next_limb(&mut state),
            next_limb(&mut state),
            next_limb(&mut state),
            next_limb(&mut state),
        ];
        check(al, bl);
    }
}

#[test]
fn from_limbs_roundtrip() {
    let l = [1, 2, 3, 4];
    assert_eq!(Fp::from_limbs(l).limbs(), l);
}

#[test]
fn debug_hex_one() {
    let a = Fp::from_limbs([1, 0, 0, 0]);
    assert_eq!(
        a.debug_hex(),
        "Fp(0x0000000000000000_0000000000000000_0000000000000000_0000000000000001)"
    );
}

#[test]
fn debug_hex_pattern() {
    let a = Fp::from_limbs([0x0123_4567_89AB_CDEF, 0, 0xFF, 0]);
    assert_eq!(
        a.debug_hex(),
        "Fp(0x0000000000000000_00000000000000FF_0000000000000000_0123456789ABCDEF)"
    );
}

#[test]
fn debug_hex_all_digits() {
    let a = Fp::from_limbs([MAX, 0xFEDC_BA98_7654_3210, 0, 1]);
    assert_eq!(
        a.debug_hex(),
        "Fp(0x0000000000000001_0000000000000000_FEDCBA9876543210_FFFFFFFFFFFFFFFF)"
    );
}

#[test]
fn canonicalize_p_is_zero() {
    let mut a = Fp::from_limbs(P_LIMBS);
    a.canonicalize();
    assert_eq!(a.limbs(), [0, 0, 0, 0]);
}

#[test]
fn canonicalize_below_p_unchanged() {
    let below = [0xFFFF_FFFF_FFFF_FFEC, MAX, MAX, 0x7FFF_FFFF_FFFF_FFFF];
    let mut a = Fp::from_limbs(below);
    a.canonicalize();
    assert_eq!(a.limbs(), below);
}

#[test]
fn canonicalize_all_ones_is_37() {
    // 2^256 - 1 = 2p + 37, so two subtractions of p are needed.
    let mut a = Fp::from_limbs([MAX, MAX, MAX, MAX]);
    a.canonicalize();
    assert_eq!(a.limbs(), [37, 0, 0, 0]);
}

#[test]
fn canonicalized_product_equals_reference() {
    let mut state: u64 = 0x1234_5678_9ABC_DEF1;
    for _ in 0..25 {
        let al = [
            next_limb(&mut state),
            next_limb(&mut state),
            next_limb(&mut state),
            next_limb(&mut state),
        ];
        let bl = [
            next_limb(&mut state),
            next_limb(&mut state),
            next_limb(&mut state),
            next_limb(&mut state),
        ];
        let mut a = Fp::from_limbs(al);
        a.mul_assign(Fp::from_limbs(bl));
        a.canonicalize();
        let product = product_512(&al, &bl);
        assert_eq!(a.limbs(), mod_p(&product));
    }
}
