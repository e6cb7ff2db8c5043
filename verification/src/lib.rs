//! Arithmetic kernel for the prime field with modulus 2^255 - 19, the
//! Curve25519 base field. Elements are four 64-bit limbs, little-endian;
//! addition wraps modulo 2^256 and multiplication reduces with the
//! 2^256 = 38 (mod p) identity.

pub mod carry;
pub mod limbs;
pub mod field;
pub mod hex;
