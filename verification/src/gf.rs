//! Arithmetic in GF(2^8) modulo the AES polynomial x^8 + x^4 + x^3 + x + 1,
//! and the S-box that AES builds on it.
use vstd::prelude::*;

verus! {

/// Multiplication by x (that is, by 2): shift left and reduce by 0x1b on overflow.
pub open spec fn xtime(a: u8) -> u8 {
    if a & 0x80 == 0 {
        a << 1u8
    } else {
        (a << 1u8) ^ 0x1b
    }
}

/// Product of `a` and `b` in GF(2^8): the sum, over the bits of `b`, of `a * x^i`.
pub open spec fn gf_mul(a: u8, b: u8) -> u8 {
    let a1 = xtime(a);
    let a2 = xtime(a1);
    let a3 = xtime(a2);
    let a4 = xtime(a3);
    let a5 = xtime(a4);
    let a6 = xtime(a5);
    let a7 = xtime(a6);
    (if b & 0x01 == 0 { 0u8 } else { a })
        ^ (if b & 0x02 == 0 { 0u8 } else { a1 })
        ^ (if b & 0x04 == 0 { 0u8 } else { a2 })
        ^ (if b & 0x08 == 0 { 0u8 } else { a3 })
        ^ (if b & 0x10 == 0 { 0u8 } else { a4 })
        ^ (if b & 0x20 == 0 { 0u8 } else { a5 })
        ^ (if b & 0x40 == 0 { 0u8 } else { a6 })
        ^ (if b & 0x80 == 0 { 0u8 } else { a7 })
}

/// The multiplicative inverse in GF(2^8), with 0 mapped to 0.
pub open spec fn gf_inv(a: u8) -> u8 {
    if a == 0 {
        0
    } else {
        choose|b: u8| gf_mul(a, b) == 1
    }
}

/// Rotation of the bits of a byte to the left by `k` places, `0 < k < 8`.
pub open spec fn rotl8(b: u8, k: u8) -> u8 {
    (b << k) | (b >> (8u8 - k))
}

/// The affine map that follows the inversion in the S-box.
pub open spec fn affine(b: u8) -> u8 {
    b ^ rotl8(b, 1) ^ rotl8(b, 2) ^ rotl8(b, 3) ^ rotl8(b, 4) ^ 0x63
}

/// The inverse of `affine`.
pub open spec fn inv_affine(b: u8) -> u8 {
    rotl8(b, 1) ^ rotl8(b, 3) ^ rotl8(b, 6) ^ 0x05
}

/// The AES S-box (FIPS-197, 5.1.1).
pub open spec fn sbox(x: u8) -> u8 {
    affine(gf_inv(x))
}

/// The inverse S-box (FIPS-197, 5.3.2).
pub open spec fn inv_sbox(x: u8) -> u8 {
    gf_inv(inv_affine(x))
}

/// The round constant of round `i >= 1` of the key schedule: `x^(i-1)`.
pub open spec fn rcon(i: nat) -> u8
    decreases i,
{
    if i <= 1 {
        1
    } else {
        xtime(rcon((i - 1) as nat))
    }
}

/// Multiplication by each constant that the column mixing uses distributes over `^`.
pub proof fn lemma_gf_mul_xor(a: u8, b: u8)
    by (bit_vector)
    ensures
        gf_mul(a ^ b, 2) == gf_mul(a, 2) ^ gf_mul(b, 2),
        gf_mul(a ^ b, 3) == gf_mul(a, 3) ^ gf_mul(b, 3),
        gf_mul(a ^ b, 9) == gf_mul(a, 9) ^ gf_mul(b, 9),
        gf_mul(a ^ b, 11) == gf_mul(a, 11) ^ gf_mul(b, 11),
        gf_mul(a ^ b, 13) == gf_mul(a, 13) ^ gf_mul(b, 13),
        gf_mul(a ^ b, 14) == gf_mul(a, 14) ^ gf_mul(b, 14),
{
}

/// The same, for a sum of four bytes.
pub proof fn lemma_gf_mul_xor4(w: u8, x: u8, y: u8, z: u8)
    ensures
        gf_mul(w ^ x ^ y ^ z, 2) == gf_mul(w, 2) ^ gf_mul(x, 2) ^ gf_mul(y, 2) ^ gf_mul(z, 2),
        gf_mul(w ^ x ^ y ^ z, 3) == gf_mul(w, 3) ^ gf_mul(x, 3) ^ gf_mul(y, 3) ^ gf_mul(z, 3),
        gf_mul(w ^ x ^ y ^ z, 9) == gf_mul(w, 9) ^ gf_mul(x, 9) ^ gf_mul(y, 9) ^ gf_mul(z, 9),
        gf_mul(w ^ x ^ y ^ z, 11) == gf_mul(w, 11) ^ gf_mul(x, 11) ^ gf_mul(y, 11) ^ gf_mul(z, 11),
        gf_mul(w ^ x ^ y ^ z, 13) == gf_mul(w, 13) ^ gf_mul(x, 13) ^ gf_mul(y, 13) ^ gf_mul(z, 13),
        gf_mul(w ^ x ^ y ^ z, 14) == gf_mul(w, 14) ^ gf_mul(x, 14) ^ gf_mul(y, 14) ^ gf_mul(z, 14),
{
    lemma_gf_mul_xor(w ^ x ^ y, z);
    lemma_gf_mul_xor(w ^ x, y);
    lemma_gf_mul_xor(w, x);
}

/// The products of the column-mixing coefficients {2, 3, 1, 1} with the
/// inverse coefficients {14, 11, 13, 9}: along the diagonal they sum to 1,
/// elsewhere to 0.
pub proof fn lemma_mix_coefficients(a: u8)
    by (bit_vector)
    ensures
        gf_mul(gf_mul(a, 2), 14) ^ gf_mul(gf_mul(a, 3), 9) ^ gf_mul(a, 13) ^ gf_mul(a, 11) == a,
        gf_mul(gf_mul(a, 3), 14) ^ gf_mul(a, 9) ^ gf_mul(a, 13) ^ gf_mul(gf_mul(a, 2), 11) == 0,
        gf_mul(a, 14) ^ gf_mul(a, 9) ^ gf_mul(gf_mul(a, 2), 13) ^ gf_mul(gf_mul(a, 3), 11) == 0,
        gf_mul(a, 14) ^ gf_mul(gf_mul(a, 2), 9) ^ gf_mul(gf_mul(a, 3), 13) ^ gf_mul(a, 11) == 0,
{
}

/// The products of the inverse coefficients with the column-mixing
/// coefficients, in the other order: again 1 along the diagonal, 0 elsewhere.
pub proof fn lemma_inv_mix_coefficients(a: u8)
    by (bit_vector)
    ensures
        gf_mul(gf_mul(a, 14), 2) ^ gf_mul(gf_mul(a, 9), 3) ^ gf_mul(a, 13) ^ gf_mul(a, 11) == a,
        gf_mul(gf_mul(a, 11), 2) ^ gf_mul(gf_mul(a, 14), 3) ^ gf_mul(a, 9) ^ gf_mul(a, 13) == 0,
        gf_mul(gf_mul(a, 13), 2) ^ gf_mul(gf_mul(a, 11), 3) ^ gf_mul(a, 14) ^ gf_mul(a, 9) == 0,
        gf_mul(gf_mul(a, 9), 2) ^ gf_mul(gf_mul(a, 13), 3) ^ gf_mul(a, 11) ^ gf_mul(a, 14) == 0,
        gf_mul(a, 14) ^ gf_mul(gf_mul(a, 9), 2) ^ gf_mul(gf_mul(a, 13), 3) ^ gf_mul(a, 11) == 0,
        gf_mul(a, 11) ^ gf_mul(gf_mul(a, 14), 2) ^ gf_mul(gf_mul(a, 9), 3) ^ gf_mul(a, 13) == a,
        gf_mul(a, 13) ^ gf_mul(gf_mul(a, 11), 2) ^ gf_mul(gf_mul(a, 14), 3) ^ gf_mul(a, 9) == 0,
        gf_mul(a, 9) ^ gf_mul(gf_mul(a, 13), 2) ^ gf_mul(gf_mul(a, 11), 3) ^ gf_mul(a, 14) == 0,
        gf_mul(a, 14) ^ gf_mul(a, 9) ^ gf_mul(gf_mul(a, 13), 2) ^ gf_mul(gf_mul(a, 11), 3) == 0,
        gf_mul(a, 11) ^ gf_mul(a, 14) ^ gf_mul(gf_mul(a, 9), 2) ^ gf_mul(gf_mul(a, 13), 3) == 0,
        gf_mul(a, 13) ^ gf_mul(a, 11) ^ gf_mul(gf_mul(a, 14), 2) ^ gf_mul(gf_mul(a, 9), 3) == a,
        gf_mul(a, 9) ^ gf_mul(a, 13) ^ gf_mul(gf_mul(a, 11), 2) ^ gf_mul(gf_mul(a, 14), 3) == 0,
        gf_mul(gf_mul(a, 14), 3) ^ gf_mul(a, 9) ^ gf_mul(a, 13) ^ gf_mul(gf_mul(a, 11), 2) == 0,
        gf_mul(gf_mul(a, 11), 3) ^ gf_mul(a, 14) ^ gf_mul(a, 9) ^ gf_mul(gf_mul(a, 13), 2) == 0,
        gf_mul(gf_mul(a, 13), 3) ^ gf_mul(a, 11) ^ gf_mul(a, 14) ^ gf_mul(gf_mul(a, 9), 2) == 0,
        gf_mul(gf_mul(a, 9), 3) ^ gf_mul(a, 13) ^ gf_mul(a, 11) ^ gf_mul(gf_mul(a, 14), 2) == a,
{
}

/// Regrouping a sum of four sums of four bytes by columns.
pub proof fn lemma_xor_transpose(
    x00: u8, x01: u8, x02: u8, x03: u8,
    x10: u8, x11: u8, x12: u8, x13: u8,
    x20: u8, x21: u8, x22: u8, x23: u8,
    x30: u8, x31: u8, x32: u8, x33: u8,
)
    by (bit_vector)
    ensures
        (x00 ^ x01 ^ x02 ^ x03) ^ (x10 ^ x11 ^ x12 ^ x13) ^ (x20 ^ x21 ^ x22 ^ x23) ^ (x30 ^ x31 ^ x32 ^ x33)
            == (x00 ^ x10 ^ x20 ^ x30) ^ (x01 ^ x11 ^ x21 ^ x31) ^ (x02 ^ x12 ^ x22 ^ x32) ^ (x03 ^ x13 ^ x23 ^ x33),
{
}

/// Regrouping a sum of four sums of four bytes along the diagonals.
pub proof fn lemma_xor_diagonals(
    x00: u8, x01: u8, x02: u8, x03: u8,
    x10: u8, x11: u8, x12: u8, x13: u8,
    x20: u8, x21: u8, x22: u8, x23: u8,
    x30: u8, x31: u8, x32: u8, x33: u8,
)
    by (bit_vector)
    ensures
        (x00 ^ x01 ^ x02 ^ x03) ^ (x10 ^ x11 ^ x12 ^ x13) ^ (x20 ^ x21 ^ x22 ^ x23) ^ (x30 ^ x31 ^ x32 ^ x33)
            == (x00 ^ x11 ^ x22 ^ x33) ^ (x03 ^ x10 ^ x21 ^ x32) ^ (x02 ^ x13 ^ x20 ^ x31) ^ (x01 ^ x12 ^ x23 ^ x30),
{
}

/// A sum of four bytes of which three are zero.
pub proof fn lemma_xor_zeros(a: u8)
    by (bit_vector)
    ensures
        a ^ 0u8 ^ 0u8 ^ 0u8 == a,
        0u8 ^ a ^ 0u8 ^ 0u8 == a,
        0u8 ^ 0u8 ^ a ^ 0u8 == a,
        0u8 ^ 0u8 ^ 0u8 ^ a == a,
{
}

/// Adding the same byte twice cancels.
pub proof fn lemma_xor_cancel(a: u8, k: u8)
    by (bit_vector)
    ensures
        a ^ k ^ k == a,
{
}

} // verus!
