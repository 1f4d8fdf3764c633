//! What AES computes, stated over sequences of bytes.
use vstd::prelude::*;
use crate::gf::{
    gf_mul, inv_sbox, lemma_gf_mul_xor4, lemma_inv_mix_coefficients, lemma_mix_coefficients,
    lemma_xor_diagonals, lemma_xor_transpose,
    lemma_xor_zeros, rcon, sbox, lemma_xor_cancel,
};
use crate::tables::lemma_sbox_inverse;

verus! {

/// Bytewise exclusive or.
pub open spec fn xor_bytes(a: Seq<u8>, b: Seq<u8>) -> Seq<u8> {
    Seq::new(a.len(), |i: int| a[i] ^ b[i])
}

/// The 32-bit word whose most significant byte is `b[i]` and whose least
/// significant byte is `b[i + 3]`.
pub open spec fn be_u32(b: Seq<u8>, i: int) -> u32 {
    (b[i] as int * 0x1000000 + b[i + 1] as int * 0x10000 + b[i + 2] as int * 0x100
        + b[i + 3] as int) as u32
}

/// The four bytes of `n`, most significant first.
pub open spec fn u32_to_be(n: u32) -> Seq<u8> {
    seq![
        (n as int / 0x1000000) as u8,
        (n as int / 0x10000 % 0x100) as u8,
        (n as int / 0x100 % 0x100) as u8,
        (n as int % 0x100) as u8,
    ]
}

/// `s` with the bytes of `n` written at `i`, most significant first.
pub open spec fn store_be(s: Seq<u8>, i: int, n: u32) -> Seq<u8> {
    Seq::new(s.len(), |j: int| if i <= j < i + 4 { u32_to_be(n)[j - i] } else { s[j] })
}

/// The words of `b`, four bytes each, most significant byte first.
pub open spec fn be_words(b: Seq<u8>) -> Seq<u32> {
    Seq::new(b.len() / 4, |k: int| be_u32(b, 4 * k))
}

/// The bytes of the words `w`, most significant byte of each first.
pub open spec fn be_bytes(w: Seq<u32>) -> Seq<u8> {
    Seq::new(4 * w.len(), |j: int| u32_to_be(w[j / 4])[j % 4])
}

/// Shifting and or-ing four bytes into a word gives their big-endian value.
pub proof fn lemma_pack_be(a: u8, b: u8, c: u8, d: u8)
    by (bit_vector)
    ensures
        ((d as u32) | (((c as u32) << 8u32) | (((b as u32) << 16u32) | ((a as u32) << 24u32))))
            == (a as u32 * 0x1000000u32 + b as u32 * 0x10000u32 + c as u32 * 0x100u32 + d as u32) as u32,
{
}

/// Shifting a word right and truncating picks out its big-endian bytes.
pub proof fn lemma_unpack_be(n: u32)
    by (bit_vector)
    ensures
        ((n >> 24u32) as u8) as u32 == n / 0x1000000u32,
        ((n >> 16u32) as u8) as u32 == n / 0x10000u32 % 0x100u32,
        ((n >> 8u32) as u8) as u32 == n / 0x100u32 % 0x100u32,
        (n as u8) as u32 == n % 0x100u32,
{
}

/// SubBytes: the S-box applied to every byte.
pub open spec fn sub_bytes(s: Seq<u8>) -> Seq<u8> {
    Seq::new(s.len(), |i: int| sbox(s[i]))
}

/// InvSubBytes: the inverse S-box applied to every byte.
pub open spec fn inv_sub_bytes(s: Seq<u8>) -> Seq<u8> {
    Seq::new(s.len(), |i: int| inv_sbox(s[i]))
}

/// ShiftRows on a column-major state: row `r` rotates left by `r` places.
pub open spec fn shift_rows(s: Seq<u8>) -> Seq<u8> {
    Seq::new(16, |i: int| s[(i + 4 * (i % 4)) % 16])
}

/// InvShiftRows: row `r` rotates right by `r` places.
pub open spec fn inv_shift_rows(s: Seq<u8>) -> Seq<u8> {
    Seq::new(16, |i: int| s[(i + 12 * (i % 4)) % 16])
}

/// Column `c` of a state.
pub open spec fn column(s: Seq<u8>, c: int) -> Seq<u8> {
    s.subrange(4 * c, 4 * c + 4)
}

/// One column of MixColumns: multiplication by the circulant matrix (2, 3, 1, 1).
#[verifier::opaque]
pub open spec fn mix_column(c: Seq<u8>) -> Seq<u8> {
    seq![
        gf_mul(c[0], 2) ^ gf_mul(c[1], 3) ^ c[2] ^ c[3],
        c[0] ^ gf_mul(c[1], 2) ^ gf_mul(c[2], 3) ^ c[3],
        c[0] ^ c[1] ^ gf_mul(c[2], 2) ^ gf_mul(c[3], 3),
        gf_mul(c[0], 3) ^ c[1] ^ c[2] ^ gf_mul(c[3], 2),
    ]
}

/// One column of InvMixColumns: multiplication by the circulant matrix (14, 11, 13, 9).
#[verifier::opaque]
pub open spec fn inv_mix_column(c: Seq<u8>) -> Seq<u8> {
    seq![
        gf_mul(c[0], 14) ^ gf_mul(c[3], 9) ^ gf_mul(c[2], 13) ^ gf_mul(c[1], 11),
        gf_mul(c[1], 14) ^ gf_mul(c[0], 9) ^ gf_mul(c[3], 13) ^ gf_mul(c[2], 11),
        gf_mul(c[2], 14) ^ gf_mul(c[1], 9) ^ gf_mul(c[0], 13) ^ gf_mul(c[3], 11),
        gf_mul(c[3], 14) ^ gf_mul(c[2], 9) ^ gf_mul(c[1], 13) ^ gf_mul(c[0], 11),
    ]
}

/// MixColumns: every column mixed.
pub open spec fn mix_columns(s: Seq<u8>) -> Seq<u8> {
    Seq::new(16, |i: int| mix_column(column(s, i / 4))[i % 4])
}

/// InvMixColumns: every column unmixed.
pub open spec fn inv_mix_columns(s: Seq<u8>) -> Seq<u8> {
    Seq::new(16, |i: int| inv_mix_column(column(s, i / 4))[i % 4])
}

/// Round key `r` of an expanded key: its bytes `16 * r` to `16 * r + 15`.
pub open spec fn round_key(ek: Seq<u8>, r: int) -> Seq<u8> {
    ek.subrange(16 * r, 16 * r + 16)
}

/// What the block functions read of a context: the number of rounds, the
/// key that whitens the input, and the expanded key.
pub struct Schedule {
    pub nr: nat,
    pub first: Seq<u8>,
    pub expanded: Seq<u8>,
}


/// The state after rounds 1 to `n` of the cipher, each made of SubBytes,
/// ShiftRows, MixColumns and the round key of that round.
pub open spec fn cipher_rounds(s: Seq<u8>, ek: Seq<u8>, n: nat) -> Seq<u8>
    decreases n,
{
    if n == 0 {
        s
    } else {
        xor_bytes(
            mix_columns(shift_rows(sub_bytes(cipher_rounds(s, ek, (n - 1) as nat)))),
            round_key(ek, n as int),
        )
    }
}

/// The cipher: whitening with the first key, `nr - 1` full rounds, and a
/// last round without MixColumns that uses round key 10.
#[verifier::opaque]
pub open spec fn encrypt_block(ks: Schedule, input: Seq<u8>) -> Seq<u8> {
    let s = cipher_rounds(xor_bytes(input, ks.first), ks.expanded, (ks.nr - 1) as nat);
    xor_bytes(shift_rows(sub_bytes(s)), round_key(ks.expanded, 10))
}

/// The inverse rounds `n` down to 1, each made of the round key of that
/// round, InvMixColumns, InvShiftRows and InvSubBytes.
pub open spec fn inv_cipher_rounds(s: Seq<u8>, ek: Seq<u8>, n: nat) -> Seq<u8>
    decreases n,
{
    if n == 0 {
        s
    } else {
        inv_cipher_rounds(
            inv_sub_bytes(inv_shift_rows(inv_mix_columns(xor_bytes(s, round_key(ek, n as int))))),
            ek,
            (n - 1) as nat,
        )
    }
}

/// The inverse cipher: round key 10, InvShiftRows and InvSubBytes, the
/// inverse rounds `nr - 1` down to 1, and the first key.
#[verifier::opaque]
pub open spec fn decrypt_block(ks: Schedule, input: Seq<u8>) -> Seq<u8> {
    let s = inv_sub_bytes(inv_shift_rows(xor_bytes(input, round_key(ks.expanded, 10))));
    xor_bytes(inv_cipher_rounds(s, ks.expanded, (ks.nr - 1) as nat), ks.first)
}

proof fn lemma_inv_cipher_rounds_len(s: Seq<u8>, ek: Seq<u8>, n: nat)
    requires
        s.len() == 16,
    ensures
        inv_cipher_rounds(s, ek, n).len() == 16,
    decreases n,
{
    if n > 0 {
        lemma_inv_cipher_rounds_len(
            inv_sub_bytes(inv_shift_rows(inv_mix_columns(xor_bytes(s, round_key(ek, n as int))))),
            ek,
            (n - 1) as nat,
        );
    }
}

/// Both block functions give 16 bytes.
pub proof fn lemma_block_len(ks: Schedule, input: Seq<u8>)
    ensures
        encrypt_block(ks, input).len() == 16,
        decrypt_block(ks, input).len() == 16,
{
    reveal(encrypt_block);
    reveal(decrypt_block);
    lemma_inv_cipher_rounds_len(
        inv_sub_bytes(inv_shift_rows(xor_bytes(input, round_key(ks.expanded, 10)))),
        ks.expanded,
        (ks.nr - 1) as nat,
    );
}

/// Byte `j` of the AES-128 key schedule of `key` (FIPS-197, 5.2): bytes 0 to
/// 15 are the key; word `w` is word `w - 4` plus word `w - 1`, which for
/// every fourth word is first rotated, substituted and given the round constant.
#[verifier::opaque]
pub open spec fn key_schedule_byte(key: Seq<u8>, j: nat) -> u8
    decreases j,
{
    if j < 16 {
        key[j as int]
    } else {
        let w = j / 4;
        let b = j % 4;
        if w % 4 == 0 {
            let t = sbox(key_schedule_byte(key, (4 * (w - 1) + (b + 1) % 4) as nat));
            if b == 0 {
                key_schedule_byte(key, (j - 16) as nat) ^ t ^ rcon(w / 4)
            } else {
                key_schedule_byte(key, (j - 16) as nat) ^ t
            }
        } else {
            key_schedule_byte(key, (j - 16) as nat) ^ key_schedule_byte(key, (j - 4) as nat)
        }
    }
}

/// The bytes of a word of the key schedule whose index is a multiple of four.
pub proof fn lemma_key_schedule_rot_word(key: Seq<u8>, i: nat)
    requires
        4 <= i,
        i % 4 == 0,
    ensures
        key_schedule_byte(key, 4 * i) == key_schedule_byte(key, (4 * (i - 4)) as nat)
            ^ sbox(key_schedule_byte(key, (4 * (i - 1) + 1) as nat)) ^ rcon(i / 4),
        key_schedule_byte(key, 4 * i + 1) == key_schedule_byte(key, (4 * (i - 4) + 1) as nat)
            ^ sbox(key_schedule_byte(key, (4 * (i - 1) + 2) as nat)),
        key_schedule_byte(key, 4 * i + 2) == key_schedule_byte(key, (4 * (i - 4) + 2) as nat)
            ^ sbox(key_schedule_byte(key, (4 * (i - 1) + 3) as nat)),
        key_schedule_byte(key, 4 * i + 3) == key_schedule_byte(key, (4 * (i - 4) + 3) as nat)
            ^ sbox(key_schedule_byte(key, (4 * (i - 1)) as nat)),
{
    reveal(key_schedule_byte);
    assert((4 * i) / 4 == i);
    assert((4 * i + 1) / 4 == i && (4 * i + 1) % 4 == 1);
    assert((4 * i + 2) / 4 == i && (4 * i + 2) % 4 == 2);
    assert((4 * i + 3) / 4 == i && (4 * i + 3) % 4 == 3);
}

/// The bytes of a word of the key schedule whose index is not a multiple of four.
pub proof fn lemma_key_schedule_plain_word(key: Seq<u8>, i: nat)
    requires
        4 <= i,
        i % 4 != 0,
    ensures
        key_schedule_byte(key, 4 * i) == key_schedule_byte(key, (4 * (i - 4)) as nat)
            ^ key_schedule_byte(key, (4 * (i - 1)) as nat),
        key_schedule_byte(key, 4 * i + 1) == key_schedule_byte(key, (4 * (i - 4) + 1) as nat)
            ^ key_schedule_byte(key, (4 * (i - 1) + 1) as nat),
        key_schedule_byte(key, 4 * i + 2) == key_schedule_byte(key, (4 * (i - 4) + 2) as nat)
            ^ key_schedule_byte(key, (4 * (i - 1) + 2) as nat),
        key_schedule_byte(key, 4 * i + 3) == key_schedule_byte(key, (4 * (i - 4) + 3) as nat)
            ^ key_schedule_byte(key, (4 * (i - 1) + 3) as nat),
{
    reveal(key_schedule_byte);
    assert((4 * i) / 4 == i);
    assert((4 * i + 1) / 4 == i && (4 * i + 1) % 4 == 1);
    assert((4 * i + 2) / 4 == i && (4 * i + 2) % 4 == 2);
    assert((4 * i + 3) / 4 == i && (4 * i + 3) % 4 == 3);
}

/// The first 16 bytes of the key schedule are the key.
pub proof fn lemma_key_schedule_key(key: Seq<u8>, j: nat)
    requires
        j < 16,
    ensures
        key_schedule_byte(key, j) == key[j as int],
{
    reveal(key_schedule_byte);
}

/// The 176 bytes of the AES-128 key schedule of `key`.
pub open spec fn expand_key(key: Seq<u8>) -> Seq<u8> {
    Seq::new(176, |j: int| key_schedule_byte(key, j as nat))
}

/// What AES-128 uses with `key`: ten rounds, the key itself to whiten the
/// input, and its key schedule.
pub open spec fn aes128(key: Seq<u8>) -> Schedule {
    Schedule { nr: 10, first: key, expanded: expand_key(key) }
}

/// Block `k` of `data`: its bytes `16 * k` to `16 * k + 15`.
pub open spec fn block(data: Seq<u8>, k: int) -> Seq<u8> {
    data.subrange(16 * k, 16 * k + 16)
}

/// ECB: every block encrypted (or decrypted) on its own.
pub open spec fn ecb(ks: Schedule, encrypt: bool, data: Seq<u8>) -> Seq<u8> {
    Seq::new(
        data.len(),
        |i: int|
            if encrypt {
                encrypt_block(ks, block(data, i / 16))[i % 16]
            } else {
                decrypt_block(ks, block(data, i / 16))[i % 16]
            },
    )
}

/// Ciphertext block `k` of CBC encryption: the cipher of the plaintext block
/// plus the ciphertext block before it (the IV before the first).
pub open spec fn cbc_encrypt_block(ks: Schedule, iv: Seq<u8>, data: Seq<u8>, k: nat) -> Seq<u8>
    decreases k,
{
    let prev = if k == 0 {
        iv
    } else {
        cbc_encrypt_block(ks, iv, data, (k - 1) as nat)
    };
    encrypt_block(ks, xor_bytes(block(data, k as int), prev))
}

/// CBC encryption of `data`.
pub open spec fn cbc_encrypt(ks: Schedule, iv: Seq<u8>, data: Seq<u8>) -> Seq<u8> {
    Seq::new(data.len(), |i: int| cbc_encrypt_block(ks, iv, data, (i / 16) as nat)[i % 16])
}

/// The block that CBC chains into block `k`: the one before it, or the IV.
pub open spec fn cbc_prev(iv: Seq<u8>, data: Seq<u8>, k: int) -> Seq<u8> {
    if k == 0 {
        iv
    } else {
        block(data, k - 1)
    }
}

/// CBC decryption of `data`: each block deciphered, plus the ciphertext block
/// before it (the IV before the first).
pub open spec fn cbc_decrypt(ks: Schedule, iv: Seq<u8>, data: Seq<u8>) -> Seq<u8> {
    Seq::new(
        data.len(),
        |i: int| xor_bytes(decrypt_block(ks, block(data, i / 16)), cbc_prev(iv, data, i / 16))[i % 16],
    )
}

/// The IV to pass on to continue CBC after the ciphertext `ct`: its last
/// block, or the IV itself when there is none.
pub open spec fn cbc_next_iv(iv: Seq<u8>, ct: Seq<u8>) -> Seq<u8> {
    if ct.len() < 16 {
        iv
    } else {
        block(ct, ct.len() / 16 - 1)
    }
}

/// The IV enciphered `k` times.
pub open spec fn ofb_stream(ks: Schedule, iv: Seq<u8>, k: nat) -> Seq<u8>
    decreases k,
{
    if k == 0 {
        iv
    } else {
        encrypt_block(ks, ofb_stream(ks, iv, (k - 1) as nat))
    }
}

/// How many times the IV has been enciphered when OFB, started at offset
/// `off`, reads keystream byte `t`. The IV holds the keystream block in use, so
/// a stream started at a nonzero offset reads the rest of it first; a new
/// block is enciphered whenever the offset comes round to 0.
pub open spec fn ofb_count(off: nat, t: nat) -> nat {
    (off + t) / 16 + if off == 0 { 1nat } else { 0nat }
}

/// Keystream byte `t` of OFB started at offset `off`: byte `(off + t) % 16`
/// of the IV enciphered `ofb_count(off, t)` times.
pub open spec fn ofb_key_byte(ks: Schedule, iv: Seq<u8>, off: nat, t: nat) -> u8 {
    ofb_stream(ks, iv, ofb_count(off, t))[((off + t) % 16) as int]
}

/// OFB: every byte of `data` plus its keystream byte.
pub open spec fn ofb(ks: Schedule, iv: Seq<u8>, off: nat, data: Seq<u8>) -> Seq<u8> {
    Seq::new(data.len(), |t: int| data[t] ^ ofb_key_byte(ks, iv, off, t as nat))
}

/// The IV that OFB leaves behind after `len` bytes: the keystream block that
/// the last byte was read from.
pub open spec fn ofb_next_iv(ks: Schedule, iv: Seq<u8>, off: nat, len: nat) -> Seq<u8> {
    if len == 0 {
        iv
    } else {
        ofb_stream(ks, iv, ofb_count(off, (len - 1) as nat))
    }
}

/// Both column maps give four bytes.
pub proof fn lemma_mix_column_len(c: Seq<u8>)
    ensures
        mix_column(c).len() == 4,
        inv_mix_column(c).len() == 4,
{
    reveal(mix_column);
    reveal(inv_mix_column);
}

proof fn lemma_inv_mix_column_bytes(a0: u8, a1: u8, a2: u8, a3: u8)
    ensures
        inv_mix_column(mix_column(seq![a0, a1, a2, a3])) == seq![a0, a1, a2, a3],
{
    reveal(mix_column);
    reveal(inv_mix_column);
    // output 0
    lemma_gf_mul_xor4(gf_mul(a0, 2), gf_mul(a1, 3), a2, a3);
    lemma_gf_mul_xor4(gf_mul(a0, 3), a1, a2, gf_mul(a3, 2));
    lemma_gf_mul_xor4(a0, a1, gf_mul(a2, 2), gf_mul(a3, 3));
    lemma_gf_mul_xor4(a0, gf_mul(a1, 2), gf_mul(a2, 3), a3);
    lemma_xor_transpose(
        gf_mul(gf_mul(a0, 2), 14), gf_mul(gf_mul(a1, 3), 14), gf_mul(a2, 14), gf_mul(a3, 14),
        gf_mul(gf_mul(a0, 3), 9), gf_mul(a1, 9), gf_mul(a2, 9), gf_mul(gf_mul(a3, 2), 9),
        gf_mul(a0, 13), gf_mul(a1, 13), gf_mul(gf_mul(a2, 2), 13), gf_mul(gf_mul(a3, 3), 13),
        gf_mul(a0, 11), gf_mul(gf_mul(a1, 2), 11), gf_mul(gf_mul(a2, 3), 11), gf_mul(a3, 11),
    );
    // output 1
    lemma_gf_mul_xor4(a0, gf_mul(a1, 2), gf_mul(a2, 3), a3);
    lemma_gf_mul_xor4(gf_mul(a0, 2), gf_mul(a1, 3), a2, a3);
    lemma_gf_mul_xor4(gf_mul(a0, 3), a1, a2, gf_mul(a3, 2));
    lemma_gf_mul_xor4(a0, a1, gf_mul(a2, 2), gf_mul(a3, 3));
    lemma_xor_transpose(
        gf_mul(a0, 14), gf_mul(gf_mul(a1, 2), 14), gf_mul(gf_mul(a2, 3), 14), gf_mul(a3, 14),
        gf_mul(gf_mul(a0, 2), 9), gf_mul(gf_mul(a1, 3), 9), gf_mul(a2, 9), gf_mul(a3, 9),
        gf_mul(gf_mul(a0, 3), 13), gf_mul(a1, 13), gf_mul(a2, 13), gf_mul(gf_mul(a3, 2), 13),
        gf_mul(a0, 11), gf_mul(a1, 11), gf_mul(gf_mul(a2, 2), 11), gf_mul(gf_mul(a3, 3), 11),
    );
    // output 2
    lemma_gf_mul_xor4(a0, a1, gf_mul(a2, 2), gf_mul(a3, 3));
    lemma_gf_mul_xor4(a0, gf_mul(a1, 2), gf_mul(a2, 3), a3);
    lemma_gf_mul_xor4(gf_mul(a0, 2), gf_mul(a1, 3), a2, a3);
    lemma_gf_mul_xor4(gf_mul(a0, 3), a1, a2, gf_mul(a3, 2));
    lemma_xor_transpose(
        gf_mul(a0, 14), gf_mul(a1, 14), gf_mul(gf_mul(a2, 2), 14), gf_mul(gf_mul(a3, 3), 14),
        gf_mul(a0, 9), gf_mul(gf_mul(a1, 2), 9), gf_mul(gf_mul(a2, 3), 9), gf_mul(a3, 9),
        gf_mul(gf_mul(a0, 2), 13), gf_mul(gf_mul(a1, 3), 13), gf_mul(a2, 13), gf_mul(a3, 13),
        gf_mul(gf_mul(a0, 3), 11), gf_mul(a1, 11), gf_mul(a2, 11), gf_mul(gf_mul(a3, 2), 11),
    );
    // output 3
    lemma_gf_mul_xor4(gf_mul(a0, 3), a1, a2, gf_mul(a3, 2));
    lemma_gf_mul_xor4(a0, a1, gf_mul(a2, 2), gf_mul(a3, 3));
    lemma_gf_mul_xor4(a0, gf_mul(a1, 2), gf_mul(a2, 3), a3);
    lemma_gf_mul_xor4(gf_mul(a0, 2), gf_mul(a1, 3), a2, a3);
    lemma_xor_transpose(
        gf_mul(gf_mul(a0, 3), 14), gf_mul(a1, 14), gf_mul(a2, 14), gf_mul(gf_mul(a3, 2), 14),
        gf_mul(a0, 9), gf_mul(a1, 9), gf_mul(gf_mul(a2, 2), 9), gf_mul(gf_mul(a3, 3), 9),
        gf_mul(a0, 13), gf_mul(gf_mul(a1, 2), 13), gf_mul(gf_mul(a2, 3), 13), gf_mul(a3, 13),
        gf_mul(gf_mul(a0, 2), 11), gf_mul(gf_mul(a1, 3), 11), gf_mul(a2, 11), gf_mul(a3, 11),
    );
    lemma_mix_coefficients(a0);
    lemma_mix_coefficients(a1);
    lemma_mix_coefficients(a2);
    lemma_mix_coefficients(a3);
    lemma_xor_zeros(a0);
    lemma_xor_zeros(a1);
    lemma_xor_zeros(a2);
    lemma_xor_zeros(a3);
}

/// InvMixColumns undoes MixColumns on a column.
pub proof fn lemma_inv_mix_column(c: Seq<u8>)
    requires
        c.len() == 4,
    ensures
        inv_mix_column(mix_column(c)) == c,
{
    lemma_inv_mix_column_bytes(c[0], c[1], c[2], c[3]);
    assert(c == seq![c[0], c[1], c[2], c[3]]);
}

proof fn lemma_mix_column_bytes(a0: u8, a1: u8, a2: u8, a3: u8)
    ensures
        mix_column(inv_mix_column(seq![a0, a1, a2, a3])) == seq![a0, a1, a2, a3],
{
    reveal(mix_column);
    reveal(inv_mix_column);
    // output 0
    lemma_gf_mul_xor4(gf_mul(a0, 14), gf_mul(a3, 9), gf_mul(a2, 13), gf_mul(a1, 11));
    lemma_gf_mul_xor4(gf_mul(a1, 14), gf_mul(a0, 9), gf_mul(a3, 13), gf_mul(a2, 11));
    lemma_xor_diagonals(
        gf_mul(gf_mul(a0, 14), 2), gf_mul(gf_mul(a3, 9), 2), gf_mul(gf_mul(a2, 13), 2), gf_mul(gf_mul(a1, 11), 2),
        gf_mul(gf_mul(a1, 14), 3), gf_mul(gf_mul(a0, 9), 3), gf_mul(gf_mul(a3, 13), 3), gf_mul(gf_mul(a2, 11), 3),
        gf_mul(a2, 14), gf_mul(a1, 9), gf_mul(a0, 13), gf_mul(a3, 11),
        gf_mul(a3, 14), gf_mul(a2, 9), gf_mul(a1, 13), gf_mul(a0, 11),
    );
    // output 1
    lemma_gf_mul_xor4(gf_mul(a1, 14), gf_mul(a0, 9), gf_mul(a3, 13), gf_mul(a2, 11));
    lemma_gf_mul_xor4(gf_mul(a2, 14), gf_mul(a1, 9), gf_mul(a0, 13), gf_mul(a3, 11));
    lemma_xor_diagonals(
        gf_mul(a0, 14), gf_mul(a3, 9), gf_mul(a2, 13), gf_mul(a1, 11),
        gf_mul(gf_mul(a1, 14), 2), gf_mul(gf_mul(a0, 9), 2), gf_mul(gf_mul(a3, 13), 2), gf_mul(gf_mul(a2, 11), 2),
        gf_mul(gf_mul(a2, 14), 3), gf_mul(gf_mul(a1, 9), 3), gf_mul(gf_mul(a0, 13), 3), gf_mul(gf_mul(a3, 11), 3),
        gf_mul(a3, 14), gf_mul(a2, 9), gf_mul(a1, 13), gf_mul(a0, 11),
    );
    // output 2
    lemma_gf_mul_xor4(gf_mul(a2, 14), gf_mul(a1, 9), gf_mul(a0, 13), gf_mul(a3, 11));
    lemma_gf_mul_xor4(gf_mul(a3, 14), gf_mul(a2, 9), gf_mul(a1, 13), gf_mul(a0, 11));
    lemma_xor_diagonals(
        gf_mul(a0, 14), gf_mul(a3, 9), gf_mul(a2, 13), gf_mul(a1, 11),
        gf_mul(a1, 14), gf_mul(a0, 9), gf_mul(a3, 13), gf_mul(a2, 11),
        gf_mul(gf_mul(a2, 14), 2), gf_mul(gf_mul(a1, 9), 2), gf_mul(gf_mul(a0, 13), 2), gf_mul(gf_mul(a3, 11), 2),
        gf_mul(gf_mul(a3, 14), 3), gf_mul(gf_mul(a2, 9), 3), gf_mul(gf_mul(a1, 13), 3), gf_mul(gf_mul(a0, 11), 3),
    );
    // output 3
    lemma_gf_mul_xor4(gf_mul(a0, 14), gf_mul(a3, 9), gf_mul(a2, 13), gf_mul(a1, 11));
    lemma_gf_mul_xor4(gf_mul(a3, 14), gf_mul(a2, 9), gf_mul(a1, 13), gf_mul(a0, 11));
    lemma_xor_diagonals(
        gf_mul(gf_mul(a0, 14), 3), gf_mul(gf_mul(a3, 9), 3), gf_mul(gf_mul(a2, 13), 3), gf_mul(gf_mul(a1, 11), 3),
        gf_mul(a1, 14), gf_mul(a0, 9), gf_mul(a3, 13), gf_mul(a2, 11),
        gf_mul(a2, 14), gf_mul(a1, 9), gf_mul(a0, 13), gf_mul(a3, 11),
        gf_mul(gf_mul(a3, 14), 2), gf_mul(gf_mul(a2, 9), 2), gf_mul(gf_mul(a1, 13), 2), gf_mul(gf_mul(a0, 11), 2),
    );
    lemma_inv_mix_coefficients(a0);
    lemma_inv_mix_coefficients(a1);
    lemma_inv_mix_coefficients(a2);
    lemma_inv_mix_coefficients(a3);
    lemma_xor_zeros(a0);
    lemma_xor_zeros(a1);
    lemma_xor_zeros(a2);
    lemma_xor_zeros(a3);
}

/// MixColumns undoes InvMixColumns on a column.
pub proof fn lemma_mix_column(c: Seq<u8>)
    requires
        c.len() == 4,
    ensures
        mix_column(inv_mix_column(c)) == c,
{
    lemma_mix_column_bytes(c[0], c[1], c[2], c[3]);
    assert(c == seq![c[0], c[1], c[2], c[3]]);
}

/// AddRoundKey applied twice with the same round key gives the state back.
pub proof fn lemma_add_round_key_twice(a: Seq<u8>, k: Seq<u8>)
    ensures
        xor_bytes(xor_bytes(a, k), k) == a,
{
    assert forall|i: int| 0 <= i < a.len() implies xor_bytes(xor_bytes(a, k), k)[i] == a[i] by {
        lemma_xor_cancel(a[i], k[i]);
    }
    assert(xor_bytes(xor_bytes(a, k), k) =~= a);
}

/// InvShiftRows and ShiftRows undo each other.
pub proof fn lemma_shift_rows_inverse(s: Seq<u8>)
    requires
        s.len() == 16,
    ensures
        inv_shift_rows(shift_rows(s)) == s,
        shift_rows(inv_shift_rows(s)) == s,
{
    assert forall|i: int| 0 <= i < 16 implies #[trigger] inv_shift_rows(shift_rows(s))[i] == s[i] by {
        let j = (i + 12 * (i % 4)) % 16;
        assert(j % 4 == i % 4);
        assert((j + 4 * (j % 4)) % 16 == i);
    }
    assert forall|i: int| 0 <= i < 16 implies #[trigger] shift_rows(inv_shift_rows(s))[i] == s[i] by {
        let j = (i + 4 * (i % 4)) % 16;
        assert(j % 4 == i % 4);
        assert((j + 12 * (j % 4)) % 16 == i);
    }
    assert(inv_shift_rows(shift_rows(s)) =~= s);
    assert(shift_rows(inv_shift_rows(s)) =~= s);
}

/// InvSubBytes and SubBytes undo each other.
pub proof fn lemma_sub_bytes_inverse(s: Seq<u8>)
    ensures
        inv_sub_bytes(sub_bytes(s)) == s,
        sub_bytes(inv_sub_bytes(s)) == s,
{
    assert forall|i: int| 0 <= i < s.len() implies #[trigger] inv_sub_bytes(sub_bytes(s))[i] == s[i] by {
        lemma_sbox_inverse(s[i]);
    }
    assert forall|i: int| 0 <= i < s.len() implies #[trigger] sub_bytes(inv_sub_bytes(s))[i] == s[i] by {
        lemma_sbox_inverse(s[i]);
    }
    assert(inv_sub_bytes(sub_bytes(s)) =~= s);
    assert(sub_bytes(inv_sub_bytes(s)) =~= s);
}

/// InvMixColumns and MixColumns undo each other.
pub proof fn lemma_mix_columns_inverse(s: Seq<u8>)
    requires
        s.len() == 16,
    ensures
        inv_mix_columns(mix_columns(s)) == s,
        mix_columns(inv_mix_columns(s)) == s,
{
    assert forall|c: int| 0 <= c < 4 implies column(mix_columns(s), c) == mix_column(column(s, c)) by {
        lemma_mix_column_len(column(s, c));
        assert forall|r: int| 0 <= r < 4 implies column(mix_columns(s), c)[r] == mix_column(column(s, c))[r] by {
            assert((4 * c + r) / 4 == c);
            assert((4 * c + r) % 4 == r);
        }
        assert(column(mix_columns(s), c) =~= mix_column(column(s, c)));
    }
    assert forall|c: int| 0 <= c < 4 implies column(inv_mix_columns(s), c) == inv_mix_column(column(s, c)) by {
        lemma_mix_column_len(column(s, c));
        assert forall|r: int| 0 <= r < 4 implies column(inv_mix_columns(s), c)[r] == inv_mix_column(column(s, c))[r] by {
            assert((4 * c + r) / 4 == c);
            assert((4 * c + r) % 4 == r);
        }
        assert(column(inv_mix_columns(s), c) =~= inv_mix_column(column(s, c)));
    }
    assert forall|i: int| 0 <= i < 16 implies #[trigger] inv_mix_columns(mix_columns(s))[i] == s[i] by {
        let c = i / 4;
        lemma_inv_mix_column(column(s, c));
    }
    assert forall|i: int| 0 <= i < 16 implies #[trigger] mix_columns(inv_mix_columns(s))[i] == s[i] by {
        let c = i / 4;
        lemma_mix_column(column(s, c));
    }
    assert(inv_mix_columns(mix_columns(s)) =~= s);
    assert(mix_columns(inv_mix_columns(s)) =~= s);
}

} // verus!
