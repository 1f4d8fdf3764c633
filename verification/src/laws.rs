//! What holds of the cipher and its modes across calls.
use vstd::prelude::*;
use crate::spec::{
    be_bytes, be_u32, be_words, block, cbc_decrypt, cbc_encrypt, cbc_encrypt_block, cbc_next_iv,
    cbc_prev, cipher_rounds, decrypt_block, ecb, encrypt_block, inv_cipher_rounds,
    inv_mix_columns, inv_shift_rows, inv_sub_bytes, lemma_add_round_key_twice, lemma_block_len,
    lemma_mix_columns_inverse, lemma_shift_rows_inverse, lemma_sub_bytes_inverse, mix_columns,
    ofb, ofb_count, ofb_key_byte, ofb_next_iv, ofb_stream, round_key, shift_rows, store_be,
    sub_bytes, u32_to_be, xor_bytes, Schedule,
};
use crate::gf::{gf_mul, inv_affine, lemma_xor_cancel};
use crate::tables::lemma_sbox_field;

verus! {

proof fn lemma_cipher_rounds_len(s: Seq<u8>, ek: Seq<u8>, n: nat)
    requires
        s.len() == 16,
    ensures
        cipher_rounds(s, ek, n).len() == 16,
    decreases n,
{
    if n > 0 {
        lemma_cipher_rounds_len(s, ek, (n - 1) as nat);
    }
}

/// The inverse rounds undo the rounds.
proof fn lemma_inv_cipher_rounds_undo(s: Seq<u8>, ek: Seq<u8>, n: nat)
    requires
        s.len() == 16,
    ensures
        inv_cipher_rounds(cipher_rounds(s, ek, n), ek, n) == s,
    decreases n,
{
    if n > 0 {
        let prev = cipher_rounds(s, ek, (n - 1) as nat);
        lemma_cipher_rounds_len(s, ek, (n - 1) as nat);
        let rk = round_key(ek, n as int);
        let mixed = mix_columns(shift_rows(sub_bytes(prev)));
        lemma_add_round_key_twice(mixed, rk);
        lemma_mix_columns_inverse(shift_rows(sub_bytes(prev)));
        lemma_shift_rows_inverse(sub_bytes(prev));
        lemma_sub_bytes_inverse(prev);
        lemma_inv_cipher_rounds_undo(s, ek, (n - 1) as nat);
    }
}

/// The rounds undo the inverse rounds.
proof fn lemma_cipher_rounds_undo(s: Seq<u8>, ek: Seq<u8>, n: nat)
    requires
        s.len() == 16,
    ensures
        cipher_rounds(inv_cipher_rounds(s, ek, n), ek, n) == s,
    decreases n,
{
    if n > 0 {
        let rk = round_key(ek, n as int);
        let t = xor_bytes(s, rk);
        let step = inv_sub_bytes(inv_shift_rows(inv_mix_columns(t)));
        lemma_cipher_rounds_undo(step, ek, (n - 1) as nat);
        lemma_mix_columns_inverse(t);
        lemma_shift_rows_inverse(inv_mix_columns(t));
        lemma_sub_bytes_inverse(inv_shift_rows(inv_mix_columns(t)));
        lemma_add_round_key_twice(s, rk);
    }
}

/// Deciphering a block that was enciphered with the same round keys gives the
/// block back.
pub proof fn lemma_decrypt_encrypt_block(ks: Schedule, x: Seq<u8>)
    requires
        x.len() == 16,
    ensures
        decrypt_block(ks, encrypt_block(ks, x)) == x,
{
    reveal(encrypt_block);
    reveal(decrypt_block);
    let ek = ks.expanded;
    let n = (ks.nr - 1) as nat;
    let s0 = xor_bytes(x, ks.first);
    let f = cipher_rounds(s0, ek, n);
    lemma_cipher_rounds_len(s0, ek, n);
    let k10 = round_key(ek, 10);
    lemma_add_round_key_twice(shift_rows(sub_bytes(f)), k10);
    lemma_shift_rows_inverse(sub_bytes(f));
    lemma_sub_bytes_inverse(f);
    lemma_inv_cipher_rounds_undo(s0, ek, n);
    lemma_add_round_key_twice(x, ks.first);
}

/// Enciphering a block that was deciphered with the same round keys gives the
/// block back.
pub proof fn lemma_encrypt_decrypt_block(ks: Schedule, y: Seq<u8>)
    requires
        y.len() == 16,
    ensures
        encrypt_block(ks, decrypt_block(ks, y)) == y,
{
    reveal(encrypt_block);
    reveal(decrypt_block);
    let ek = ks.expanded;
    let n = (ks.nr - 1) as nat;
    let k10 = round_key(ek, 10);
    let t0 = inv_sub_bytes(inv_shift_rows(xor_bytes(y, k10)));
    let d = inv_cipher_rounds(t0, ek, n);
    lemma_add_round_key_twice(d, ks.first);
    lemma_cipher_rounds_undo(t0, ek, n);
    lemma_sub_bytes_inverse(inv_shift_rows(xor_bytes(y, k10)));
    lemma_shift_rows_inverse(xor_bytes(y, k10));
    lemma_add_round_key_twice(y, k10);
}

/// ECB decryption undoes ECB encryption under the same round keys.
pub proof fn lemma_ecb_roundtrip(ks: Schedule, data: Seq<u8>)
    requires
        data.len() % 16 == 0,
    ensures
        ecb(ks, false, ecb(ks, true, data)) == data,
        ecb(ks, true, ecb(ks, false, data)) == data,
{
    let e = ecb(ks, true, data);
    let d = ecb(ks, false, data);
    assert forall|i: int| 0 <= i < data.len() implies #[trigger] ecb(ks, false, e)[i] == data[i] by {
        let k = i / 16;
        lemma_block_len(ks, block(data, k));
        assert forall|j: int| 0 <= j < 16 implies block(e, k)[j] == encrypt_block(ks, block(data, k))[j] by {
            assert((16 * k + j) / 16 == k);
            assert((16 * k + j) % 16 == j);
        }
        assert(block(e, k) =~= encrypt_block(ks, block(data, k)));
        lemma_decrypt_encrypt_block(ks, block(data, k));
    }
    assert forall|i: int| 0 <= i < data.len() implies #[trigger] ecb(ks, true, d)[i] == data[i] by {
        let k = i / 16;
        lemma_block_len(ks, block(data, k));
        assert forall|j: int| 0 <= j < 16 implies block(d, k)[j] == decrypt_block(ks, block(data, k))[j] by {
            assert((16 * k + j) / 16 == k);
            assert((16 * k + j) % 16 == j);
        }
        assert(block(d, k) =~= decrypt_block(ks, block(data, k)));
        lemma_encrypt_decrypt_block(ks, block(data, k));
    }
    assert(ecb(ks, false, e) =~= data);
    assert(ecb(ks, true, d) =~= data);
}

/// Block `k` of the CBC ciphertext is the CBC ciphertext block `k`.
pub proof fn lemma_cbc_encrypt_blocks(ks: Schedule, iv: Seq<u8>, data: Seq<u8>, k: int)
    requires
        data.len() % 16 == 0,
        0 <= k < data.len() / 16,
    ensures
        block(cbc_encrypt(ks, iv, data), k) == cbc_encrypt_block(ks, iv, data, k as nat),
{
    let c = cbc_encrypt(ks, iv, data);
    lemma_block_len(ks, xor_bytes(block(data, k), if k == 0 { iv } else { cbc_encrypt_block(ks, iv, data, (k - 1) as nat) }));
    assert forall|j: int| 0 <= j < 16 implies block(c, k)[j] == cbc_encrypt_block(ks, iv, data, k as nat)[j] by {
        assert((16 * k + j) / 16 == k);
        assert((16 * k + j) % 16 == j);
    }
    assert(block(c, k) =~= cbc_encrypt_block(ks, iv, data, k as nat));
}

/// CBC decryption undoes CBC encryption with the same round keys and IV.
pub proof fn lemma_cbc_roundtrip(ks: Schedule, iv: Seq<u8>, data: Seq<u8>)
    requires
        iv.len() == 16,
        data.len() % 16 == 0,
    ensures
        cbc_decrypt(ks, iv, cbc_encrypt(ks, iv, data)) == data,
{
    let c = cbc_encrypt(ks, iv, data);
    assert forall|i: int| 0 <= i < data.len() implies #[trigger] cbc_decrypt(ks, iv, c)[i] == data[i] by {
        let k = i / 16;
        let prev = cbc_prev(iv, c, k);
        lemma_cbc_encrypt_blocks(ks, iv, data, k);
        if k > 0 {
            lemma_cbc_encrypt_blocks(ks, iv, data, k - 1);
            lemma_block_len(ks, xor_bytes(block(data, k - 1), cbc_prev(iv, c, k - 1)));
            let p = if k - 1 == 0 { iv } else { cbc_encrypt_block(ks, iv, data, (k - 2) as nat) };
            lemma_block_len(ks, xor_bytes(block(data, k - 1), p));
        }
        assert(prev.len() == 16);
        let x = xor_bytes(block(data, k), prev);
        lemma_decrypt_encrypt_block(ks, x);
        lemma_add_round_key_twice(block(data, k), prev);
        assert(i % 16 < 16);
        assert(block(data, k)[i % 16] == data[i]);
    }
    assert(cbc_decrypt(ks, iv, c) =~= data);
}

/// The CBC ciphertext blocks of a prefix of whole blocks are those of the
/// whole input.
proof fn lemma_cbc_blocks_prefix(ks: Schedule, iv: Seq<u8>, p1: Seq<u8>, p2: Seq<u8>, k: nat)
    requires
        p1.len() % 16 == 0,
        k < p1.len() / 16,
    ensures
        cbc_encrypt_block(ks, iv, p1 + p2, k) == cbc_encrypt_block(ks, iv, p1, k),
    decreases k,
{
    assert(block(p1 + p2, k as int) =~= block(p1, k as int));
    if k > 0 {
        lemma_cbc_blocks_prefix(ks, iv, p1, p2, (k - 1) as nat);
    }
}

/// The CBC ciphertext blocks after a prefix of whole blocks are those of the
/// rest, chained from the last ciphertext block of the prefix.
proof fn lemma_cbc_blocks_suffix(ks: Schedule, iv: Seq<u8>, p1: Seq<u8>, p2: Seq<u8>, m: nat)
    requires
        p1.len() % 16 == 0,
        p2.len() % 16 == 0,
        m < p2.len() / 16,
    ensures
        cbc_encrypt_block(ks, iv, p1 + p2, (p1.len() / 16 + m) as nat)
            == cbc_encrypt_block(ks, cbc_next_iv(iv, cbc_encrypt(ks, iv, p1)), p2, m),
    decreases m,
{
    let n1 = p1.len() / 16;
    let k = (n1 + m) as nat;
    assert(block(p1 + p2, k as int) =~= block(p2, m as int));
    if m > 0 {
        lemma_cbc_blocks_suffix(ks, iv, p1, p2, (m - 1) as nat);
        assert((n1 + m - 1) as nat == (k - 1) as nat);
    } else if n1 > 0 {
        lemma_cbc_blocks_prefix(ks, iv, p1, p2, (n1 - 1) as nat);
        lemma_cbc_encrypt_blocks(ks, iv, p1, n1 - 1);
    }
}

/// CBC encryption in two calls, the second given the IV that the first leaves
/// (its last ciphertext block), gives what one call over both inputs gives.
pub proof fn lemma_cbc_encrypt_streaming(ks: Schedule, iv: Seq<u8>, p1: Seq<u8>, p2: Seq<u8>)
    requires
        p1.len() % 16 == 0,
        p2.len() % 16 == 0,
    ensures
        cbc_encrypt(ks, iv, p1 + p2) == cbc_encrypt(ks, iv, p1)
            + cbc_encrypt(ks, cbc_next_iv(iv, cbc_encrypt(ks, iv, p1)), p2),
{
    let n1 = p1.len() / 16;
    let iv2 = cbc_next_iv(iv, cbc_encrypt(ks, iv, p1));
    let whole = cbc_encrypt(ks, iv, p1 + p2);
    let parts = cbc_encrypt(ks, iv, p1) + cbc_encrypt(ks, iv2, p2);
    assert forall|i: int| 0 <= i < whole.len() implies whole[i] == parts[i] by {
        let k = i / 16;
        if i < p1.len() {
            lemma_cbc_blocks_prefix(ks, iv, p1, p2, k as nat);
        } else {
            let m = (i - p1.len()) / 16;
            assert(k == n1 + m);
            assert((i - p1.len()) % 16 == i % 16);
            lemma_cbc_blocks_suffix(ks, iv, p1, p2, m as nat);
        }
    }
    assert(whole =~= parts);
}

/// CBC decryption in two calls, the second given the IV that the first leaves
/// (its last input block), gives what one call over both inputs gives.
pub proof fn lemma_cbc_decrypt_streaming(ks: Schedule, iv: Seq<u8>, c1: Seq<u8>, c2: Seq<u8>)
    requires
        c1.len() % 16 == 0,
        c2.len() % 16 == 0,
    ensures
        cbc_decrypt(ks, iv, c1 + c2) == cbc_decrypt(ks, iv, c1)
            + cbc_decrypt(ks, cbc_next_iv(iv, c1), c2),
{
    let n1 = c1.len() / 16;
    let iv2 = cbc_next_iv(iv, c1);
    let c = c1 + c2;
    let whole = cbc_decrypt(ks, iv, c);
    let parts = cbc_decrypt(ks, iv, c1) + cbc_decrypt(ks, iv2, c2);
    assert forall|i: int| 0 <= i < whole.len() implies whole[i] == parts[i] by {
        let k = i / 16;
        if i < c1.len() {
            assert(block(c, k) =~= block(c1, k));
            if k > 0 {
                assert(block(c, k - 1) =~= block(c1, k - 1));
            }
        } else {
            let m = (i - c1.len()) / 16;
            assert(k == n1 + m);
            assert((i - c1.len()) % 16 == i % 16);
            assert(block(c, k) =~= block(c2, m));
            if m > 0 {
                assert(block(c, k - 1) =~= block(c2, m - 1));
            } else if n1 > 0 {
                assert(block(c, k - 1) =~= block(c1, n1 - 1));
            }
        }
    }
    assert(whole =~= parts);
}

/// OFB applied twice with the same IV and offset gives the data back: the
/// same call encrypts and decrypts.
pub proof fn lemma_ofb_involution(ks: Schedule, iv: Seq<u8>, off: nat, data: Seq<u8>)
    ensures
        ofb(ks, iv, off, ofb(ks, iv, off, data)) == data,
{
    let once = ofb(ks, iv, off, data);
    assert forall|i: int| 0 <= i < data.len() implies #[trigger] ofb(ks, iv, off, once)[i] == data[i] by {
        lemma_xor_cancel(data[i], ofb_key_byte(ks, iv, off, i as nat));
    }
    assert(ofb(ks, iv, off, once) =~= data);
}

/// Enciphering the IV `a` times, then `b` more times.
proof fn lemma_ofb_stream_split(ks: Schedule, iv: Seq<u8>, a: nat, b: nat)
    ensures
        ofb_stream(ks, iv, a + b) == ofb_stream(ks, ofb_stream(ks, iv, a), b),
    decreases b,
{
    if b > 0 {
        lemma_ofb_stream_split(ks, iv, a, (b - 1) as nat);
        assert((a + b - 1) as nat == a + (b - 1) as nat);
    }
}

/// Keystream byte `n1 + u` of a stream is keystream byte `u` of the stream
/// that a second call continues with, from the IV and offset that the first
/// `n1` bytes leave.
proof fn lemma_ofb_key_byte_split(ks: Schedule, iv: Seq<u8>, off: nat, n1: nat, u: nat)
    requires
        off < 16,
    ensures
        ofb_key_byte(ks, iv, off, n1 + u)
            == ofb_key_byte(ks, ofb_next_iv(ks, iv, off, n1), (off + n1) % 16, u),
{
    if n1 > 0 {
        let a = off + n1;
        let off2 = a % 16;
        let c1 = ofb_count(off, (n1 - 1) as nat);
        assert(ofb_count(off, n1 + u) == c1 + ofb_count(off2, u)) by {
            assert((a + u) / 16 == a / 16 + (off2 + u) / 16);
            assert(a / 16 == (a - 1) / 16 + if off2 == 0 { 1int } else { 0int });
        }
        assert((off + (n1 + u)) % 16 == (off2 + u) % 16);
        lemma_ofb_stream_split(ks, iv, c1, ofb_count(off2, u));
    } else {
        assert((off + n1) % 16 == off);
    }
}

/// OFB in two calls, the second given the IV and offset that the first
/// leaves, gives what one call over both inputs gives, and leaves the same IV
/// and offset.
pub proof fn lemma_ofb_streaming(ks: Schedule, iv: Seq<u8>, off: nat, d1: Seq<u8>, d2: Seq<u8>)
    requires
        off < 16,
    ensures
        ofb(ks, iv, off, d1 + d2) == ofb(ks, iv, off, d1) + ofb(
            ks,
            ofb_next_iv(ks, iv, off, d1.len()),
            (off + d1.len()) % 16,
            d2,
        ),
        ofb_next_iv(ks, iv, off, d1.len() + d2.len()) == ofb_next_iv(
            ks,
            ofb_next_iv(ks, iv, off, d1.len()),
            (off + d1.len()) % 16,
            d2.len(),
        ),
        (off + d1.len() + d2.len()) % 16 == ((off + d1.len()) % 16 + d2.len()) % 16,
{
    let n1 = d1.len();
    let iv2 = ofb_next_iv(ks, iv, off, n1);
    let off2 = (off + n1) % 16;
    let whole = ofb(ks, iv, off, d1 + d2);
    let parts = ofb(ks, iv, off, d1) + ofb(ks, iv2, off2, d2);
    assert forall|i: int| 0 <= i < whole.len() implies whole[i] == parts[i] by {
        if i >= n1 {
            lemma_ofb_key_byte_split(ks, iv, off, n1, (i - n1) as nat);
            assert(n1 + (i - n1) as nat == i);
        }
    }
    assert(whole =~= parts);
    if d2.len() > 0 {
        let u = (d2.len() - 1) as nat;
        if n1 > 0 {
            let a = off + n1;
            let c1 = ofb_count(off, (n1 - 1) as nat);
            assert(ofb_count(off, n1 + u) == c1 + ofb_count(off2, u)) by {
                assert((a + u) / 16 == a / 16 + (off2 + u) / 16);
                assert(a / 16 == (a - 1) / 16 + if off2 == 0 { 1int } else { 0int });
            }
            lemma_ofb_stream_split(ks, iv, c1, ofb_count(off2, u));
            assert((n1 + d2.len() - 1) as nat == n1 + u);
        } else {
            assert(off2 == off);
        }
    }
}

/// Splitting a word into its four bytes and joining them again gives the word.
proof fn lemma_word_bytes(n: u32)
    ensures
        be_u32(u32_to_be(n), 0) == n,
{
    let v = n as int;
    let b = u32_to_be(n);
    assert(v == (v / 0x1000000) * 0x1000000 + (v / 0x10000 % 0x100) * 0x10000 + (v / 0x100 % 0x100)
        * 0x100 + v % 0x100) by (nonlinear_arith);
}

/// Joining four bytes into a word and splitting it again gives the bytes.
proof fn lemma_bytes_word(b0: u8, b1: u8, b2: u8, b3: u8)
    ensures
        u32_to_be(be_u32(seq![b0, b1, b2, b3], 0)) == seq![b0, b1, b2, b3],
{
    let v = b0 as int * 0x1000000 + b1 as int * 0x10000 + b2 as int * 0x100 + b3 as int;
    assert(v / 0x1000000 == b0 && v / 0x10000 % 0x100 == b1 && v / 0x100 % 0x100 == b2 && v
        % 0x100 == b3) by (nonlinear_arith)
        requires
            v == b0 as int * 0x1000000 + b1 as int * 0x10000 + b2 as int * 0x100 + b3 as int,
            0 <= b0 < 256,
            0 <= b1 < 256,
            0 <= b2 < 256,
            0 <= b3 < 256,
    ;
    assert(u32_to_be(be_u32(seq![b0, b1, b2, b3], 0)) =~= seq![b0, b1, b2, b3]);
}

/// Reading the word that was just written at `i` gives it back
/// (`GET_UINT32_LE` after `PUT_UINT32_LE`).
pub proof fn lemma_load_store(s: Seq<u8>, i: int, n: u32)
    requires
        0 <= i,
        i + 4 <= s.len(),
    ensures
        be_u32(store_be(s, i, n), i) == n,
{
    lemma_word_bytes(n);
}

/// Writing back the word just read at `i` leaves the bytes as they were
/// (`PUT_UINT32_LE` after `GET_UINT32_LE`).
pub proof fn lemma_store_load(s: Seq<u8>, i: int)
    requires
        0 <= i,
        i + 4 <= s.len(),
    ensures
        store_be(s, i, be_u32(s, i)) == s,
{
    lemma_bytes_word(s[i], s[i + 1], s[i + 2], s[i + 3]);
    let w = u32_to_be(be_u32(seq![s[i], s[i + 1], s[i + 2], s[i + 3]], 0));
    assert(be_u32(seq![s[i], s[i + 1], s[i + 2], s[i + 3]], 0) == be_u32(s, i));
    assert(store_be(s, i, be_u32(s, i)) =~= s);
}

/// The words of the bytes of some words are those words.
pub proof fn lemma_words_of_bytes(w: Seq<u32>)
    ensures
        be_words(be_bytes(w)) == w,
{
    let b = be_bytes(w);
    assert forall|k: int| 0 <= k < w.len() implies #[trigger] be_words(b)[k] == w[k] by {
        assert((4 * k) / 4 == k && (4 * k + 1) / 4 == k && (4 * k + 2) / 4 == k && (4 * k + 3) / 4 == k);
        assert((4 * k) % 4 == 0 && (4 * k + 1) % 4 == 1 && (4 * k + 2) % 4 == 2 && (4 * k + 3) % 4 == 3);
        lemma_word_bytes(w[k]);
    }
    assert(be_words(b) =~= w);
}

/// The bytes of the words of some bytes, whole words of them, are those bytes.
pub proof fn lemma_bytes_of_words(b: Seq<u8>)
    requires
        b.len() % 4 == 0,
    ensures
        be_bytes(be_words(b)) == b,
{
    let w = be_words(b);
    assert forall|j: int| 0 <= j < b.len() implies #[trigger] be_bytes(w)[j] == b[j] by {
        let k = j / 4;
        lemma_bytes_word(b[4 * k], b[4 * k + 1], b[4 * k + 2], b[4 * k + 3]);
        assert(be_u32(seq![b[4 * k], b[4 * k + 1], b[4 * k + 2], b[4 * k + 3]], 0) == be_u32(b, 4 * k));
    }
    assert(be_bytes(w) =~= b);
}

/// SubBytes replaces each byte by the AES S-box image of that byte, which the
/// field fixes: byte 0 becomes 0x63, and any other byte `x` becomes the byte
/// that the inverse affine map takes to the inverse of `x`. InvSubBytes
/// replaces each byte `y` by the inverse of `inv_affine(y)` (0 if that is 0).
pub proof fn lemma_sub_bytes_field(s: Seq<u8>, i: int)
    requires
        0 <= i < s.len(),
    ensures
        sub_bytes(s).len() == s.len(),
        s[i] == 0 ==> sub_bytes(s)[i] == 0x63,
        s[i] != 0 ==> gf_mul(s[i], inv_affine(sub_bytes(s)[i])) == 1,
        inv_sub_bytes(s).len() == s.len(),
        inv_affine(s[i]) == 0 ==> inv_sub_bytes(s)[i] == 0,
        inv_affine(s[i]) != 0 ==> gf_mul(inv_affine(s[i]), inv_sub_bytes(s)[i]) == 1,
{
    lemma_sbox_field(s[i]);
}

/// ShiftRows in the row and column form of FIPS-197 (5.1.2): byte `r` of
/// column `c` comes from byte `r` of column `(c + r) % 4`. InvShiftRows takes
/// it back from column `(c - r) % 4`.
pub proof fn lemma_shift_rows_positions(s: Seq<u8>, r: int, c: int)
    requires
        0 <= r < 4,
        0 <= c < 4,
    ensures
        shift_rows(s)[4 * c + r] == s[4 * ((c + r) % 4) + r],
        inv_shift_rows(s)[4 * c + r] == s[4 * ((c + 4 - r) % 4) + r],
{
    assert((4 * c + r) % 4 == r);
    assert((4 * c + r + 4 * r) % 16 == 4 * ((c + r) % 4) + r);
    assert((4 * c + r + 12 * r) % 16 == 4 * ((c + 4 - r) % 4) + r);
}

/// ECB gives as many bytes as it is given, and each of its blocks is the block
/// cipher (or its inverse) of the input block in the same place, on its own.
pub proof fn lemma_ecb_blocks(ks: Schedule, data: Seq<u8>, k: int)
    requires
        data.len() % 16 == 0,
        0 <= k < data.len() / 16,
    ensures
        ecb(ks, true, data).len() == data.len(),
        ecb(ks, false, data).len() == data.len(),
        block(ecb(ks, true, data), k) == encrypt_block(ks, block(data, k)),
        block(ecb(ks, false, data), k) == decrypt_block(ks, block(data, k)),
{
    let e = ecb(ks, true, data);
    let d = ecb(ks, false, data);
    lemma_block_len(ks, block(data, k));
    assert forall|j: int| 0 <= j < 16 implies block(e, k)[j] == encrypt_block(ks, block(data, k))[j]
        && block(d, k)[j] == decrypt_block(ks, block(data, k))[j] by {
        assert((16 * k + j) / 16 == k);
        assert((16 * k + j) % 16 == j);
    }
    assert(block(e, k) =~= encrypt_block(ks, block(data, k)));
    assert(block(d, k) =~= decrypt_block(ks, block(data, k)));
}

/// CBC chains through the ciphertext: ciphertext block `k` is the cipher of
/// plaintext block `k` plus ciphertext block `k - 1` (the IV for the first),
/// and plaintext block `k` is the inverse cipher of ciphertext block `k` plus
/// ciphertext block `k - 1` (the IV for the first).
pub proof fn lemma_cbc_blocks(ks: Schedule, iv: Seq<u8>, data: Seq<u8>, k: int)
    requires
        data.len() % 16 == 0,
        0 <= k < data.len() / 16,
    ensures
        cbc_encrypt(ks, iv, data).len() == data.len(),
        cbc_decrypt(ks, iv, data).len() == data.len(),
        block(cbc_encrypt(ks, iv, data), k) == encrypt_block(
            ks,
            xor_bytes(block(data, k), if k == 0 { iv } else { block(cbc_encrypt(ks, iv, data), k - 1) }),
        ),
        iv.len() == 16 ==> block(cbc_decrypt(ks, iv, data), k) == xor_bytes(
            decrypt_block(ks, block(data, k)),
            if k == 0 { iv } else { block(data, k - 1) },
        ),
{
    let c = cbc_encrypt(ks, iv, data);
    lemma_cbc_encrypt_blocks(ks, iv, data, k);
    if k > 0 {
        lemma_cbc_encrypt_blocks(ks, iv, data, k - 1);
    }
    let p = cbc_decrypt(ks, iv, data);
    if iv.len() == 16 {
        let prev = cbc_prev(iv, data, k);
        lemma_block_len(ks, block(data, k));
        assert forall|j: int| 0 <= j < 16 implies block(p, k)[j] == xor_bytes(decrypt_block(ks, block(data, k)), prev)[j] by {
            assert((16 * k + j) / 16 == k);
            assert((16 * k + j) % 16 == j);
        }
        assert(block(p, k) =~= xor_bytes(decrypt_block(ks, block(data, k)), prev));
    }
}

/// The IV that OFB leaves after `n + 1` bytes is the one it leaves after `n`,
/// enciphered once more when byte `n` starts a new keystream block (its
/// offset `(off + n) % 16` is 0). After no bytes it is the IV given.
pub proof fn lemma_ofb_iv_step(ks: Schedule, iv: Seq<u8>, off: nat, n: nat)
    requires
        off < 16,
    ensures
        ofb_next_iv(ks, iv, off, 0) == iv,
        ofb_next_iv(ks, iv, off, n + 1) == if (off + n) % 16 == 0 {
            encrypt_block(ks, ofb_next_iv(ks, iv, off, n))
        } else {
            ofb_next_iv(ks, iv, off, n)
        },
{
    if n > 0 {
        let c = ofb_count(off, (n - 1) as nat);
        assert((off + n) / 16 == (off + n - 1) / 16 + if (off + n) % 16 == 0 { 1int } else { 0int });
        assert((n + 1 - 1) as nat == n);
        assert(ofb_next_iv(ks, iv, off, n) == ofb_stream(ks, iv, c));
        assert(ofb_next_iv(ks, iv, off, n + 1) == ofb_stream(ks, iv, ofb_count(off, n)));
        if (off + n) % 16 == 0 {
            assert(ofb_count(off, n) == c + 1);
            assert(ofb_stream(ks, iv, c + 1) == encrypt_block(ks, ofb_stream(ks, iv, c)));
        } else {
            assert(ofb_count(off, n) == c);
        }
    } else {
        assert(ofb_count(off, 0) == if off == 0 { 1nat } else { 0nat });
        assert(ofb_next_iv(ks, iv, off, 1) == ofb_stream(ks, iv, ofb_count(off, 0)));
        if off == 0 {
            assert(ofb_stream(ks, iv, 1) == encrypt_block(ks, ofb_stream(ks, iv, 0)));
        }
    }
}

/// Each OFB output byte is the input byte plus the keystream byte, and the
/// keystream byte for byte `t` is byte `(off + t) % 16` of the IV that OFB
/// leaves after `t + 1` bytes: the block that byte was read from.
pub proof fn lemma_ofb_bytes(ks: Schedule, iv: Seq<u8>, off: nat, data: Seq<u8>, t: int)
    requires
        0 <= t < data.len(),
    ensures
        ofb(ks, iv, off, data).len() == data.len(),
        ofb(ks, iv, off, data)[t] == data[t] ^ ofb_next_iv(ks, iv, off, (t + 1) as nat)[(off + t) % 16],
{
    assert((t + 1 - 1) as nat == t as nat);
}

} // verus!
