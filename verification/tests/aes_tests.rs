use lib::aes::{
    add_round_key, inv_mix_columns, inv_shift_rows, inv_sub_bytes, mix_columns, shift_rows,
    sub_bytes, inv_mix_single_column, mbedtls_aes_context, mbedtls_aes_crypt_cbc, mbedtls_aes_crypt_ecb,
    mbedtls_aes_crypt_ofb, mbedtls_aes_setkey_dec, mbedtls_aes_setkey_enc,
    mbedtls_internal_aes_decrypt, mbedtls_internal_aes_encrypt, mix_single_column,
    GET_UINT32_LE, MBEDTLS_AES_DECRYPT, MBEDTLS_AES_ENCRYPT, MBEDTLS_ERR_AES_BAD_INPUT_DATA,
    MBEDTLS_ERR_AES_INVALID_INPUT_LENGTH, MBEDTLS_ERR_AES_INVALID_KEY_LENGTH, PUT_UINT32_LE,
};

fn hex(s: &str) -> Vec<u8> {
    (0..s.len() / 2).map(|i| u8::from_str_radix(&s[2 * i..2 * i + 2], 16).unwrap()).collect()
}

fn hex16(s: &str) -> [u8; 16] {
    let v = hex(s);
    let mut a = [0u8; 16];
    a.copy_from_slice(&v);
    a
}

fn keyed(key: &str) -> mbedtls_aes_context {
    let mut ctx = mbedtls_aes_context::new();
    assert_eq!(mbedtls_aes_setkey_enc(&mut ctx, &hex16(key), 128), 0);
    ctx
}

const NIST_KEY: &str = "2b7e151628aed2a6abf7158809cf4f3c";
const NIST_IV: &str = "000102030405060708090a0b0c0d0e0f";
const NIST_PLAIN: &str = "6bc1bee22e409f96e93d7e117393172aae2d8a571e03ac9c9eb76fac45af8e51";

#[test]
fn fips197_block_encrypt() {
    let ctx = keyed("000102030405060708090a0b0c0d0e0f");
    let mut out = [0u8; 16];
    let r = mbedtls_internal_aes_encrypt(&ctx, &hex16("00112233445566778899aabbccddeeff"), &mut out);
    assert_eq!(r, 0);
    assert_eq!(out.to_vec(), hex("69c4e0d86a7b0430d8cdb78070b4c55a"));
}

#[test]
fn fips197_block_decrypt() {
    let mut ctx = mbedtls_aes_context::new();
    assert_eq!(mbedtls_aes_setkey_dec(&mut ctx, &hex16("000102030405060708090a0b0c0d0e0f"), 128), 0);
    let mut out = [0u8; 16];
    let r = mbedtls_internal_aes_decrypt(&ctx, &hex16("69c4e0d86a7b0430d8cdb78070b4c55a"), &mut out);
    assert_eq!(r, 0);
    assert_eq!(out.to_vec(), hex("00112233445566778899aabbccddeeff"));
}

#[test]
fn fips197_key_expansion() {
    let ctx = keyed(NIST_KEY);
    assert_eq!(ctx.nr, 10);
    assert_eq!(ctx.key8.to_vec(), hex(NIST_KEY));
    assert_eq!(ctx.key, [0x2b7e1516, 0x28aed2a6, 0xabf71588, 0x09cf4f3c]);
    assert_eq!(ctx.rk[4], 0xa0fafe17);
    assert_eq!(ctx.rk[5], 0x88542cb1);
    assert_eq!(ctx.rk[40..44], [0xd014f9a8, 0xc9ee2589, 0xe13f0cc8, 0xb6630ca6]);
    assert_eq!(ctx.expanded_key8[160..176].to_vec(), hex("d014f9a8c9ee2589e13f0cc8b6630ca6"));
    assert_eq!(ctx.expanded_key8[0..16].to_vec(), hex(NIST_KEY));
}

#[test]
fn key_expansion32_matches_key_expansion8() {
    let mut a = mbedtls_aes_context::new();
    a.key_expansion8(&hex16(NIST_KEY));
    let mut b = mbedtls_aes_context::new();
    b.key_expansion32(&[0x2b7e1516, 0x28aed2a6, 0xabf71588, 0x09cf4f3c]);
    assert_eq!(a.key8, b.key8);
    assert_eq!(a.key, b.key);
    assert_eq!(a.rk, b.rk);
    assert_eq!(a.expanded_key8.to_vec(), b.expanded_key8.to_vec());
}

#[test]
fn new_context_is_zero() {
    let ctx = mbedtls_aes_context::new();
    assert_eq!(ctx.nr, 10);
    assert!(ctx.rk.iter().all(|&w| w == 0));
    assert!(ctx.buf.iter().all(|&w| w == 0));
    assert!(ctx.key.iter().all(|&w| w == 0));
    assert!(ctx.key8.iter().all(|&b| b == 0));
    assert!(ctx.expanded_key8.iter().all(|&b| b == 0));
}

#[test]
fn setkey_refuses_other_sizes() {
    let mut ctx = mbedtls_aes_context::new();
    let before = format!("{:?}", ctx);
    assert_eq!(mbedtls_aes_setkey_enc(&mut ctx, &hex16(NIST_KEY), 192), MBEDTLS_ERR_AES_INVALID_KEY_LENGTH);
    assert_eq!(mbedtls_aes_setkey_dec(&mut ctx, &hex16(NIST_KEY), 256), MBEDTLS_ERR_AES_INVALID_KEY_LENGTH);
    assert_eq!(format!("{:?}", ctx), before);
}

#[test]
fn ecb_nist_vectors() {
    let ctx = keyed(NIST_KEY);
    let input = hex(NIST_PLAIN);
    let mut out = vec![0u8; 32];
    assert_eq!(mbedtls_aes_crypt_ecb(&ctx, MBEDTLS_AES_ENCRYPT, &input, &mut out), 0);
    assert_eq!(out, hex("3ad77bb40d7a3660a89ecaf32466ef97f5d3d58503b9699de785895a96fdbaaf"));
    let mut back = vec![0u8; 32];
    assert_eq!(mbedtls_aes_crypt_ecb(&ctx, MBEDTLS_AES_DECRYPT, &out, &mut back), 0);
    assert_eq!(back, input);
}

#[test]
fn ecb_any_other_mode_decrypts() {
    let ctx = keyed(NIST_KEY);
    let mut out = vec![0u8; 16];
    assert_eq!(mbedtls_aes_crypt_ecb(&ctx, 7, &hex("3ad77bb40d7a3660a89ecaf32466ef97"), &mut out), 0);
    assert_eq!(out, hex("6bc1bee22e409f96e93d7e117393172a"));
}

#[test]
fn ecb_leaves_the_rest_of_output() {
    let ctx = keyed(NIST_KEY);
    let mut out = vec![0xaau8; 20];
    assert_eq!(mbedtls_aes_crypt_ecb(&ctx, MBEDTLS_AES_ENCRYPT, &hex("6bc1bee22e409f96e93d7e117393172a"), &mut out), 0);
    assert_eq!(out[..16].to_vec(), hex("3ad77bb40d7a3660a89ecaf32466ef97"));
    assert_eq!(out[16..].to_vec(), vec![0xaau8; 4]);
}

#[test]
fn ecb_refuses_less_than_a_block() {
    let ctx = keyed(NIST_KEY);
    let mut out = vec![0x55u8; 16];
    assert_eq!(mbedtls_aes_crypt_ecb(&ctx, MBEDTLS_AES_ENCRYPT, &[0u8; 15], &mut out), MBEDTLS_ERR_AES_INVALID_INPUT_LENGTH);
    assert_eq!(out, vec![0x55u8; 16]);
}

#[test]
fn ecb_processes_whole_blocks_of_a_longer_input() {
    let ctx = keyed(NIST_KEY);
    let mut input = hex("6bc1bee22e409f96e93d7e117393172a");
    input.extend([1u8, 2, 3, 4]);
    let mut out = vec![0x66u8; 20];
    assert_eq!(mbedtls_aes_crypt_ecb(&ctx, MBEDTLS_AES_ENCRYPT, &input, &mut out), 0);
    assert_eq!(out[..16].to_vec(), hex("3ad77bb40d7a3660a89ecaf32466ef97"));
    assert_eq!(out[16..].to_vec(), vec![0x66u8; 4]);
}

#[test]
fn ecb_empty_input() {
    let ctx = mbedtls_aes_context::new();
    let mut out: Vec<u8> = vec![];
    assert_eq!(mbedtls_aes_crypt_ecb(&ctx, MBEDTLS_AES_ENCRYPT, &[], &mut out), 0);
}

#[test]
fn cbc_nist_vectors() {
    let ctx = keyed(NIST_KEY);
    let mut iv = hex16(NIST_IV);
    let input = hex(NIST_PLAIN);
    let mut out = vec![0u8; 32];
    assert_eq!(mbedtls_aes_crypt_cbc(&ctx, MBEDTLS_AES_ENCRYPT, 32, &mut iv, &input, &mut out), 0);
    assert_eq!(out, hex("7649abac8119b246cee98e9b12e9197d5086cb9b507219ee95db113a917678b2"));
    let mut iv = hex16(NIST_IV);
    let mut back = vec![0u8; 32];
    assert_eq!(mbedtls_aes_crypt_cbc(&ctx, MBEDTLS_AES_DECRYPT, 32, &mut iv, &out, &mut back), 0);
    assert_eq!(back, input);
}

#[test]
fn cbc_in_two_calls() {
    let ctx = keyed(NIST_KEY);
    let mut iv = hex16(NIST_IV);
    let input = hex(NIST_PLAIN);
    let mut first = vec![0u8; 16];
    assert_eq!(mbedtls_aes_crypt_cbc(&ctx, MBEDTLS_AES_ENCRYPT, 16, &mut iv, &input[..16], &mut first), 0);
    let mut second = vec![0u8; 16];
    assert_eq!(mbedtls_aes_crypt_cbc(&ctx, MBEDTLS_AES_ENCRYPT, 16, &mut iv, &input[16..], &mut second), 0);
    first.extend(second);
    assert_eq!(first, hex("7649abac8119b246cee98e9b12e9197d5086cb9b507219ee95db113a917678b2"));
}

#[test]
fn cbc_iv_holds_the_last_block() {
    let ctx = keyed(NIST_KEY);
    let mut iv = hex16(NIST_IV);
    let input = hex(NIST_PLAIN);
    let mut out = vec![0u8; 32];
    mbedtls_aes_crypt_cbc(&ctx, MBEDTLS_AES_ENCRYPT, 32, &mut iv, &input, &mut out);
    assert_eq!(iv.to_vec(), hex("5086cb9b507219ee95db113a917678b2"));
    let mut iv = hex16(NIST_IV);
    let mut back = vec![0u8; 32];
    mbedtls_aes_crypt_cbc(&ctx, MBEDTLS_AES_DECRYPT, 32, &mut iv, &out, &mut back);
    assert_eq!(iv.to_vec(), hex("5086cb9b507219ee95db113a917678b2"));
    let mut iv = hex16(NIST_IV);
    mbedtls_aes_crypt_cbc(&ctx, MBEDTLS_AES_ENCRYPT, 0, &mut iv, &[], &mut []);
    assert_eq!(iv, hex16(NIST_IV));
}

#[test]
fn cbc_reads_only_length_bytes() {
    let ctx = keyed(NIST_KEY);
    let mut iv = hex16(NIST_IV);
    let input = hex(NIST_PLAIN);
    let mut out = vec![0x11u8; 32];
    assert_eq!(mbedtls_aes_crypt_cbc(&ctx, MBEDTLS_AES_ENCRYPT, 16, &mut iv, &input, &mut out), 0);
    assert_eq!(out[..16].to_vec(), hex("7649abac8119b246cee98e9b12e9197d"));
    assert_eq!(out[16..].to_vec(), vec![0x11u8; 16]);
}

#[test]
fn cbc_refuses_partial_block() {
    let ctx = keyed(NIST_KEY);
    let mut iv = hex16(NIST_IV);
    let mut out = vec![0x22u8; 32];
    assert_eq!(mbedtls_aes_crypt_cbc(&ctx, MBEDTLS_AES_ENCRYPT, 17, &mut iv, &[0u8; 32], &mut out), MBEDTLS_ERR_AES_INVALID_INPUT_LENGTH);
    assert_eq!(mbedtls_aes_crypt_cbc(&ctx, MBEDTLS_AES_DECRYPT, 8, &mut iv, &[0u8; 32], &mut out), MBEDTLS_ERR_AES_INVALID_INPUT_LENGTH);
    assert_eq!(out, vec![0x22u8; 32]);
    assert_eq!(iv, hex16(NIST_IV));
}

#[test]
fn ofb_nist_vectors() {
    let ctx = keyed(NIST_KEY);
    let mut iv = hex16(NIST_IV);
    let mut off: usize = 0;
    let input = hex(NIST_PLAIN);
    let mut out = vec![0u8; 32];
    assert_eq!(mbedtls_aes_crypt_ofb(&ctx, 32, &mut off, &mut iv, &input, &mut out), 0);
    assert_eq!(out, hex("3b3fd92eb72dad20333449f8e83cfb4a7789508d16918f03f53c52dac54ed825"));
    assert_eq!(off, 0);
    // The IV left behind is the last keystream block: output block 2 plus input block 2.
    let last: Vec<u8> = (0..16).map(|j| out[16 + j] ^ input[16 + j]).collect();
    assert_eq!(iv.to_vec(), last);
}

#[test]
fn ofb_is_its_own_inverse() {
    let ctx = keyed(NIST_KEY);
    let input = hex(NIST_PLAIN);
    let mut iv = hex16(NIST_IV);
    let mut off: usize = 0;
    let mut out = vec![0u8; 32];
    mbedtls_aes_crypt_ofb(&ctx, 32, &mut off, &mut iv, &input, &mut out);
    let mut iv = hex16(NIST_IV);
    let mut off: usize = 0;
    let mut back = vec![0u8; 32];
    mbedtls_aes_crypt_ofb(&ctx, 32, &mut off, &mut iv, &out, &mut back);
    assert_eq!(back, input);
}

#[test]
fn ofb_in_two_calls() {
    let ctx = keyed(NIST_KEY);
    let input = hex(NIST_PLAIN);
    let mut iv = hex16(NIST_IV);
    let mut off: usize = 0;
    let mut first = vec![0u8; 16];
    let mut second = vec![0u8; 16];
    mbedtls_aes_crypt_ofb(&ctx, 16, &mut off, &mut iv, &input[..16], &mut first);
    mbedtls_aes_crypt_ofb(&ctx, 16, &mut off, &mut iv, &input[16..], &mut second);
    first.extend(second);
    assert_eq!(first, hex("3b3fd92eb72dad20333449f8e83cfb4a7789508d16918f03f53c52dac54ed825"));
}

#[test]
fn ofb_resumes_in_the_middle_of_a_block() {
    let ctx = keyed(NIST_KEY);
    let input = hex(NIST_PLAIN);
    let expected = hex("3b3fd92eb72dad20333449f8e83cfb4a7789508d16918f03f53c52dac54ed825");
    for cut in [1usize, 5, 15, 16, 17, 27, 31] {
        let mut iv = hex16(NIST_IV);
        let mut off: usize = 0;
        let mut first = vec![0u8; cut];
        let mut second = vec![0u8; 32 - cut];
        assert_eq!(mbedtls_aes_crypt_ofb(&ctx, cut, &mut off, &mut iv, &input[..cut], &mut first), 0);
        assert_eq!(off, cut % 16);
        assert_eq!(mbedtls_aes_crypt_ofb(&ctx, 32 - cut, &mut off, &mut iv, &input[cut..], &mut second), 0);
        assert_eq!(off, 0);
        first.extend(second);
        assert_eq!(first, expected);
    }
}

#[test]
fn ofb_any_length() {
    let ctx = keyed(NIST_KEY);
    let input = hex(NIST_PLAIN);
    let mut iv = hex16(NIST_IV);
    let mut off: usize = 0;
    let mut out = vec![0u8; 5];
    assert_eq!(mbedtls_aes_crypt_ofb(&ctx, 5, &mut off, &mut iv, &input[..5], &mut out), 0);
    assert_eq!(out, hex("3b3fd92eb7"));
    assert_eq!(off, 5);
    // The IV now holds the first keystream block.
    let stream: Vec<u8> = (0..16).map(|j| input[j] ^ hex("3b3fd92eb72dad20333449f8e83cfb4a")[j]).collect();
    assert_eq!(iv.to_vec(), stream);
}

#[test]
fn ofb_refuses_bad_offset() {
    let ctx = keyed(NIST_KEY);
    let mut iv = hex16(NIST_IV);
    let mut off: usize = 16;
    let mut out = vec![0x33u8; 16];
    assert_eq!(mbedtls_aes_crypt_ofb(&ctx, 16, &mut off, &mut iv, &[0u8; 16], &mut out), MBEDTLS_ERR_AES_BAD_INPUT_DATA);
    assert_eq!(off, 16);
    assert_eq!(iv, hex16(NIST_IV));
    assert_eq!(out, vec![0x33u8; 16]);
}

#[test]
fn block_roundtrip_under_any_round_count() {
    let mut ctx = keyed(NIST_KEY);
    ctx.nr = 4;
    let input = hex16("00112233445566778899aabbccddeeff");
    let mut c = [0u8; 16];
    let mut p = [0u8; 16];
    mbedtls_internal_aes_encrypt(&ctx, &input, &mut c);
    mbedtls_internal_aes_decrypt(&ctx, &c, &mut p);
    assert_eq!(p, input);
    let mut e = [0u8; 16];
    mbedtls_internal_aes_decrypt(&ctx, &input, &mut p);
    mbedtls_internal_aes_encrypt(&ctx, &p, &mut e);
    assert_eq!(e, input);
}

#[test]
fn get_uint32_reads_big_endian() {
    let mut n: u32 = 0;
    GET_UINT32_LE(&mut n, &[9, 0x01, 0x02, 0x03, 0x04], 1);
    assert_eq!(n, 0x01020304);
}

#[test]
fn put_uint32_writes_big_endian() {
    let mut b = [0xffu8; 6];
    PUT_UINT32_LE(0xdeadbeef, &mut b, 1);
    assert_eq!(b, [0xff, 0xde, 0xad, 0xbe, 0xef, 0xff]);
    let mut n: u32 = 0;
    GET_UINT32_LE(&mut n, &b, 1);
    assert_eq!(n, 0xdeadbeef);
}

#[test]
fn mix_column_known_values() {
    let mut col = [0xdbu8, 0x13, 0x53, 0x45, 0x77];
    mix_single_column(&mut col);
    assert_eq!(col, [0x8e, 0x4d, 0xa1, 0xbc, 0x77]);
    inv_mix_single_column(&mut col);
    assert_eq!(col, [0xdb, 0x13, 0x53, 0x45, 0x77]);
    let mut col = [0xf2u8, 0x0a, 0x22, 0x5c];
    mix_single_column(&mut col);
    assert_eq!(col, [0x9f, 0xdc, 0x58, 0x9d]);
}

#[test]
fn cbc_decrypt_in_two_calls() {
    let ctx = keyed(NIST_KEY);
    let mut iv = hex16(NIST_IV);
    let cipher = hex("7649abac8119b246cee98e9b12e9197d5086cb9b507219ee95db113a917678b2");
    let mut first = vec![0u8; 16];
    assert_eq!(mbedtls_aes_crypt_cbc(&ctx, MBEDTLS_AES_DECRYPT, 16, &mut iv, &cipher[..16], &mut first), 0);
    let mut second = vec![0u8; 16];
    assert_eq!(mbedtls_aes_crypt_cbc(&ctx, MBEDTLS_AES_DECRYPT, 16, &mut iv, &cipher[16..], &mut second), 0);
    first.extend(second);
    assert_eq!(first, hex(NIST_PLAIN));
}

#[test]
fn put_then_get_at_every_offset() {
    for i in 0..5usize {
        let mut b = [0x5au8; 8];
        PUT_UINT32_LE(0x0a0b0c0d, &mut b, i);
        let mut n: u32 = 0;
        GET_UINT32_LE(&mut n, &b, i);
        assert_eq!(n, 0x0a0b0c0d);
        for j in 0..8 {
            if j < i || j >= i + 4 {
                assert_eq!(b[j], 0x5a);
            }
        }
    }
}

#[test]
fn ecb_other_lengths_are_a_single_block() {
    let ctx = keyed(NIST_KEY);
    let mut input = hex(NIST_PLAIN);
    input.extend([9u8; 8]);
    let mut out = vec![0x77u8; 40];
    assert_eq!(mbedtls_aes_crypt_ecb(&ctx, MBEDTLS_AES_ENCRYPT, &input, &mut out), 0);
    assert_eq!(out[..16].to_vec(), hex("3ad77bb40d7a3660a89ecaf32466ef97"));
    assert_eq!(out[16..].to_vec(), vec![0x77u8; 24]);
}

#[test]
fn round_steps_undo_each_other() {
    let s0 = hex16("00112233445566778899aabbccddeeff");
    let k = hex16(NIST_KEY);
    let mut s = s0;
    shift_rows(&mut s);
    assert_eq!(s.to_vec(), hex("0055aaff4499ee3388dd2277cc1166bb"));
    inv_shift_rows(&mut s);
    assert_eq!(s, s0);
    sub_bytes(&mut s);
    assert_ne!(s, s0);
    inv_sub_bytes(&mut s);
    assert_eq!(s, s0);
    mix_columns(&mut s);
    inv_mix_columns(&mut s);
    assert_eq!(s, s0);
    add_round_key(&mut s, &k);
    add_round_key(&mut s, &k);
    assert_eq!(s, s0);
}
