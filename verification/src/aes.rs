//! AES-128 in ECB, CBC and OFB modes, with the context and key schedule of mbed TLS.
use vstd::prelude::*;
use crate::gf::{inv_sbox, sbox};
use crate::spec;
use crate::spec::{
    be_bytes, be_u32, be_words, cipher_rounds, column, decrypt_block, encrypt_block, expand_key,
    inv_cipher_rounds, inv_mix_column, key_schedule_byte, lemma_key_schedule_key,
    lemma_key_schedule_plain_word, lemma_key_schedule_rot_word, lemma_pack_be, lemma_unpack_be,
    mix_column, store_be, xor_bytes, Schedule, aes128, block, ecb, cbc_encrypt,
    cbc_encrypt_block, cbc_decrypt, cbc_next_iv, cbc_prev, ofb, ofb_count, ofb_stream, ofb_next_iv,
    lemma_block_len, lemma_mix_column_len,
};
use crate::laws::{lemma_cbc_encrypt_blocks, lemma_words_of_bytes};
use crate::tables::{fsbox, mul11, mul13, mul14, mul2, mul3, mul9, rcon_entry, rsbox};

verus! {

/// Mode value that selects encryption.
pub const MBEDTLS_AES_ENCRYPT: isize = 1;

/// Mode value that selects decryption.
pub const MBEDTLS_AES_DECRYPT: isize = 0;

/// Invalid key length.
pub const MBEDTLS_ERR_AES_INVALID_KEY_LENGTH: isize = -0x0020;

/// Invalid data input length.
pub const MBEDTLS_ERR_AES_INVALID_INPUT_LENGTH: isize = -0x0022;

/// Invalid input data.
pub const MBEDTLS_ERR_AES_BAD_INPUT_DATA: isize = -0x0021;

/// Feature not available (no longer returned).
pub const MBEDTLS_ERR_AES_FEATURE_UNAVAILABLE: isize = -0x0023;

/// Hardware accelerator failed (no longer returned).
pub const MBEDTLS_ERR_AES_HW_ACCEL_FAILED: isize = -0x0025;

/// Reads the big-endian word at `b[i..i + 4]` into `n`.
pub fn GET_UINT32_LE(n: &mut u32, b: &[u8], i: usize)
    requires
        i + 4 <= b@.len(),
    ensures
        *final(n) == be_u32(b@, i as int),
{
    *n = (b[i] as u32) << 24;
    *n = ((b[i + 1] as u32) << 16) | *n;
    *n = ((b[i + 2] as u32) << 8) | *n;
    *n = (b[i + 3] as u32) | *n;
    proof {
        lemma_pack_be(b@[i as int], b@[i + 1], b@[i + 2], b@[i + 3]);
    }
}

/// Writes `n` to `b[i..i + 4]`, most significant byte first.
pub fn PUT_UINT32_LE(n: u32, b: &mut [u8], i: usize)
    requires
        i + 4 <= old(b)@.len(),
    ensures
        final(b)@ == store_be(old(b)@, i as int, n),
{
    proof {
        lemma_unpack_be(n);
    }
    b[i] = (n >> 24) as u8;
    b[i + 1] = (n >> 16) as u8;
    b[i + 2] = (n >> 8) as u8;
    b[i + 3] = n as u8;
    assert(b@ =~= store_be(old(b)@, i as int, n));
}

/// The AES context: the number of rounds and the round keys, both as words
/// and as bytes.
#[derive(Debug)]
pub struct mbedtls_aes_context {
    /// The number of rounds.
    pub nr: usize,
    /// The round keys as big-endian words.
    pub rk: [u32; 44],
    /// Spare room, as in mbed TLS; nothing here reads or writes it.
    pub buf: [u32; 68],
    /// The key as big-endian words.
    pub key: [u32; 4],
    /// The key as bytes.
    pub key8: [u8; 16],
    /// The round keys as bytes.
    pub expanded_key8: [u8; 176],
}

/// Replaces every byte of the state by its image under the S-box.
pub fn sub_bytes(state: &mut [u8; 16])
    ensures
        final(state)@ == spec::sub_bytes(old(state)@),
{
    for i in 0..16
        invariant
            forall|j: int| 0 <= j < i ==> state@[j] == sbox(old(state)@[j]),
            forall|j: int| i <= j < 16 ==> state@[j] == old(state)@[j],
    {
        state[i] = fsbox(state[i]);
    }
    assert(state@ =~= spec::sub_bytes(old(state)@));
}

/// Rotates row `r` of the state left by `r` places.
pub fn shift_rows(state: &mut [u8; 16])
    ensures
        final(state)@ == spec::shift_rows(old(state)@),
{
    let mut tmp: [u8; 16] = [0; 16];
    tmp[0] = state[0];
    tmp[1] = state[5];
    tmp[2] = state[10];
    tmp[3] = state[15];

    tmp[4] = state[4];
    tmp[5] = state[9];
    tmp[6] = state[14];
    tmp[7] = state[3];

    tmp[8] = state[8];
    tmp[9] = state[13];
    tmp[10] = state[2];
    tmp[11] = state[7];

    tmp[12] = state[12];
    tmp[13] = state[1];
    tmp[14] = state[6];
    tmp[15] = state[11];

    assert(tmp@ =~= spec::shift_rows(old(state)@));
    for i in 0..16
        invariant
            tmp@ == spec::shift_rows(old(state)@),
            forall|j: int| 0 <= j < i ==> state@[j] == tmp@[j],
    {
        state[i] = tmp[i];
    }
    assert(state@ =~= tmp@);
}

/// Mixes every column of the state.
#[verifier::rlimit(50)]
pub fn mix_columns(state: &mut [u8; 16])
    ensures
        final(state)@ == spec::mix_columns(old(state)@),
{
    for i in 0..4
        invariant
            forall|j: int| 0 <= j < 4 * i ==> state@[j] == spec::mix_columns(old(state)@)[j],
            forall|j: int| 4 * i <= j < 16 ==> state@[j] == old(state)@[j],
    {
        let mut col: [u8; 4] = [state[4 * i], state[4 * i + 1], state[4 * i + 2], state[4 * i + 3]];
        assert(col@ =~= column(old(state)@, i as int));
        assert(col@.take(4) =~= col@);
        proof {
            lemma_mix_column_len(col@);
        }
        mix_single_column(&mut col);
        state[4 * i] = col[0];
        state[4 * i + 1] = col[1];
        state[4 * i + 2] = col[2];
        state[4 * i + 3] = col[3];
        assert forall|j: int| 4 * i <= j < 4 * i + 4 implies state@[j] == spec::mix_columns(old(state)@)[j] by {
            assert(j / 4 == i as int);
            assert(j % 4 == j - 4 * i);
        }
    }
    assert(state@ =~= spec::mix_columns(old(state)@));
}

/// Mixes the column held in the first four bytes of `state`.
pub fn mix_single_column(state: &mut [u8])
    requires
        old(state)@.len() >= 4,
    ensures
        final(state)@ == mix_column(old(state)@.take(4)) + old(state)@.skip(4),
{
    reveal(mix_column);
    let mut tmp: [u8; 4] = [0; 4];
    tmp[0] = mul2(state[0]) ^ mul3(state[1]) ^ state[2] ^ state[3];
    tmp[1] = state[0] ^ mul2(state[1]) ^ mul3(state[2]) ^ state[3];
    tmp[2] = state[0] ^ state[1] ^ mul2(state[2]) ^ mul3(state[3]);
    tmp[3] = mul3(state[0]) ^ state[1] ^ state[2] ^ mul2(state[3]);
    assert(tmp@ =~= mix_column(old(state)@.take(4)));

    for i in 0..4
        invariant
            tmp@ == mix_column(old(state)@.take(4)),
            state@.len() == old(state)@.len(),
            old(state)@.len() >= 4,
            forall|j: int| 0 <= j < i ==> state@[j] == tmp@[j],
            forall|j: int| 4 <= j < state@.len() ==> state@[j] == old(state)@[j],
    {
        state[i] = tmp[i];
    }
    assert(state@ =~= mix_column(old(state)@.take(4)) + old(state)@.skip(4));
}

/// Adds the round key to the state.
pub fn add_round_key(state: &mut [u8; 16], round_key: &[u8; 16])
    ensures
        final(state)@ == xor_bytes(old(state)@, round_key@),
{
    for i in 0..16
        invariant
            forall|j: int| 0 <= j < i ==> state@[j] == old(state)@[j] ^ round_key@[j],
            forall|j: int| i <= j < 16 ==> state@[j] == old(state)@[j],
    {
        state[i] ^= round_key[i];
    }
    assert(state@ =~= xor_bytes(old(state)@, round_key@));
}

/// Rotates a word left by one byte.
pub fn rot_word(word: [u8; 4]) -> (r: [u8; 4])
    ensures
        r@ == seq![word@[1], word@[2], word@[3], word@[0]],
{
    let r = [word[1], word[2], word[3], word[0]];
    assert(r@ =~= seq![word@[1], word@[2], word@[3], word@[0]]);
    r
}

/// Applies the S-box to every byte of a word.
pub fn sub_word(word: [u8; 4]) -> (r: [u8; 4])
    ensures
        r@ == spec::sub_bytes(word@),
{
    let r = [fsbox(word[0]), fsbox(word[1]), fsbox(word[2]), fsbox(word[3])];
    assert(r@ =~= spec::sub_bytes(word@));
    r
}

/// Rotates row `r` of the state right by `r` places.
pub fn inv_shift_rows(state: &mut [u8; 16])
    ensures
        final(state)@ == spec::inv_shift_rows(old(state)@),
{
    let mut tmp: [u8; 16] = [0; 16];
    tmp[0] = state[0];
    tmp[1] = state[13];
    tmp[2] = state[10];
    tmp[3] = state[7];

    tmp[4] = state[4];
    tmp[5] = state[1];
    tmp[6] = state[14];
    tmp[7] = state[11];

    tmp[8] = state[8];
    tmp[9] = state[5];
    tmp[10] = state[2];
    tmp[11] = state[15];

    tmp[12] = state[12];
    tmp[13] = state[9];
    tmp[14] = state[6];
    tmp[15] = state[3];

    assert(tmp@ =~= spec::inv_shift_rows(old(state)@));
    for i in 0..16
        invariant
            tmp@ == spec::inv_shift_rows(old(state)@),
            forall|j: int| 0 <= j < i ==> state@[j] == tmp@[j],
    {
        state[i] = tmp[i];
    }
    assert(state@ =~= tmp@);
}

/// Replaces every byte of the state by its image under the inverse S-box.
pub fn inv_sub_bytes(state: &mut [u8; 16])
    ensures
        final(state)@ == spec::inv_sub_bytes(old(state)@),
{
    for i in 0..16
        invariant
            forall|j: int| 0 <= j < i ==> state@[j] == inv_sbox(old(state)@[j]),
            forall|j: int| i <= j < 16 ==> state@[j] == old(state)@[j],
    {
        state[i] = rsbox(state[i]);
    }
    assert(state@ =~= spec::inv_sub_bytes(old(state)@));
}

/// Unmixes every column of the state.
pub fn inv_mix_columns(state: &mut [u8; 16])
    ensures
        final(state)@ == spec::inv_mix_columns(old(state)@),
{
    for i in 0..4
        invariant
            forall|j: int| 0 <= j < 4 * i ==> state@[j] == spec::inv_mix_columns(old(state)@)[j],
            forall|j: int| 4 * i <= j < 16 ==> state@[j] == old(state)@[j],
    {
        let mut col: [u8; 4] = [state[4 * i], state[4 * i + 1], state[4 * i + 2], state[4 * i + 3]];
        assert(col@ =~= column(old(state)@, i as int));
        assert(col@.take(4) =~= col@);
        proof {
            lemma_mix_column_len(col@);
        }
        inv_mix_single_column(&mut col);
        state[4 * i] = col[0];
        state[4 * i + 1] = col[1];
        state[4 * i + 2] = col[2];
        state[4 * i + 3] = col[3];
        assert forall|j: int| 4 * i <= j < 4 * i + 4 implies state@[j] == spec::inv_mix_columns(old(state)@)[j] by {
            assert(j / 4 == i as int);
            assert(j % 4 == j - 4 * i);
        }
    }
    assert(state@ =~= spec::inv_mix_columns(old(state)@));
}

/// Unmixes the column held in the first four bytes of `state`.
pub fn inv_mix_single_column(state: &mut [u8])
    requires
        old(state)@.len() >= 4,
    ensures
        final(state)@ == inv_mix_column(old(state)@.take(4)) + old(state)@.skip(4),
{
    reveal(inv_mix_column);
    let mut tmp: [u8; 4] = [0; 4];
    tmp[0] = mul14(state[0]) ^ mul9(state[3]) ^ mul13(state[2]) ^ mul11(state[1]);
    tmp[1] = mul14(state[1]) ^ mul9(state[0]) ^ mul13(state[3]) ^ mul11(state[2]);
    tmp[2] = mul14(state[2]) ^ mul9(state[1]) ^ mul13(state[0]) ^ mul11(state[3]);
    tmp[3] = mul14(state[3]) ^ mul9(state[2]) ^ mul13(state[1]) ^ mul11(state[0]);
    assert(tmp@ =~= inv_mix_column(old(state)@.take(4)));

    for i in 0..4
        invariant
            tmp@ == inv_mix_column(old(state)@.take(4)),
            state@.len() == old(state)@.len(),
            old(state)@.len() >= 4,
            forall|j: int| 0 <= j < i ==> state@[j] == tmp@[j],
            forall|j: int| 4 <= j < state@.len() ==> state@[j] == old(state)@[j],
    {
        state[i] = tmp[i];
    }
    assert(state@ =~= inv_mix_column(old(state)@.take(4)) + old(state)@.skip(4));
}

/// Words in an AES-128 key.
const N: usize = 4;

/// Round keys in the AES-128 key schedule.
const R: usize = 11;

impl mbedtls_aes_context {
    /// What the block functions read of the context.
    pub open spec fn schedule(&self) -> Schedule {
        Schedule { nr: self.nr as nat, first: self.key8@, expanded: self.expanded_key8@ }
    }

    /// The context holds `key` and its key schedule, as bytes and as words.
    pub open spec fn holds_key(&self, key: Seq<u8>) -> bool {
        &&& self.key8@ == key
        &&& self.expanded_key8@ == expand_key(key)
        &&& self.key@ == be_words(key)
        &&& self.rk@ == be_words(expand_key(key))
    }

    /// A context for ten rounds, with every key byte and word zero.
    pub fn new() -> (ctx: mbedtls_aes_context)
        ensures
            ctx.nr == 10,
            ctx.rk@ == Seq::new(44, |i: int| 0u32),
            ctx.buf@ == Seq::new(68, |i: int| 0u32),
            ctx.key@ == Seq::new(4, |i: int| 0u32),
            ctx.key8@ == Seq::new(16, |i: int| 0u8),
            ctx.expanded_key8@ == Seq::new(176, |i: int| 0u8),
    {
        let ctx = mbedtls_aes_context {
            nr: 10,
            rk: [0u32; 44],
            buf: [0u32; 68],
            key: [0u32; 4],
            key8: [0; 16],
            expanded_key8: [0; 176],
        };
        assert(ctx.rk@ =~= Seq::new(44, |i: int| 0u32));
        assert(ctx.buf@ =~= Seq::new(68, |i: int| 0u32));
        assert(ctx.key@ =~= Seq::new(4, |i: int| 0u32));
        assert(ctx.key8@ =~= Seq::new(16, |i: int| 0u8));
        assert(ctx.expanded_key8@ =~= Seq::new(176, |i: int| 0u8));
        ctx
    }

    /// Expands a key given as four big-endian words.
    pub fn key_expansion32(&mut self, input32: &[u32; 4])
        ensures
            final(self).holds_key(be_bytes(input32@)),
            final(self).key@ == input32@,
            final(self).nr == old(self).nr,
            final(self).buf == old(self).buf,
    {
        let mut input8: [u8; 16] = [0; 16];
        for i in 0..4
            invariant
                forall|j: int| 0 <= j < 4 * i ==> input8@[j] == be_bytes(input32@)[j],
        {
            PUT_UINT32_LE(input32[i], &mut input8, 4 * i);
        }
        assert(input8@ =~= be_bytes(input32@));
        self.key_expansion8(&input8);
        proof {
            lemma_words_of_bytes(input32@);
        }
    }

    /// Expands a 16-byte key into the 11 round keys of AES-128, and stores
    /// the key and its expansion both as bytes and as big-endian words.
    pub fn key_expansion8(&mut self, input_key: &[u8; 16])
        ensures
            final(self).holds_key(input_key@),
            final(self).nr == old(self).nr,
            final(self).buf == old(self).buf,
    {
        for i in 0..16
            invariant
                forall|j: int| 0 <= j < i ==> self.key8@[j] == input_key@[j],
                self.nr == old(self).nr,
                self.buf == old(self).buf,
        {
            self.key8[i] = input_key[i];
        }
        assert(self.key8@ =~= input_key@);

        let ghost key = input_key@;
        for i in 0..(4 * R)
            invariant
                self.key8@ == key,
                key == input_key@,
                self.nr == old(self).nr,
                self.buf == old(self).buf,
                forall|j: int| 0 <= j < 4 * i ==> self.expanded_key8@[j] == key_schedule_byte(key, j as nat),
        {
            let ghost before = self.expanded_key8@;
            if i < N {
                proof {
                    lemma_key_schedule_key(key, (4 * i) as nat);
                    lemma_key_schedule_key(key, (4 * i + 1) as nat);
                    lemma_key_schedule_key(key, (4 * i + 2) as nat);
                    lemma_key_schedule_key(key, (4 * i + 3) as nat);
                }
                self.expanded_key8[4 * i + 0] = input_key[4 * i];
                self.expanded_key8[4 * i + 1] = input_key[4 * i + 1];
                self.expanded_key8[4 * i + 2] = input_key[4 * i + 2];
                self.expanded_key8[4 * i + 3] = input_key[4 * i + 3];
            } else if i >= N && i % N == 0 {
                let last: [u8; 4] = [
                    self.expanded_key8[4 * (i - 1)],
                    self.expanded_key8[4 * (i - 1) + 1],
                    self.expanded_key8[4 * (i - 1) + 2],
                    self.expanded_key8[4 * (i - 1) + 3],
                ];
                let sub_rot: [u8; 4] = sub_word(rot_word(last));
                let rc = rcon_entry(i / N);
                proof {
                    lemma_key_schedule_rot_word(key, i as nat);
                }
                self.expanded_key8[4 * i + 0] = self.expanded_key8[4 * (i - N)] ^ sub_rot[0] ^ rc;
                self.expanded_key8[4 * i + 1] = self.expanded_key8[4 * (i - N) + 1] ^ sub_rot[1];
                self.expanded_key8[4 * i + 2] = self.expanded_key8[4 * (i - N) + 2] ^ sub_rot[2];
                self.expanded_key8[4 * i + 3] = self.expanded_key8[4 * (i - N) + 3] ^ sub_rot[3];
            } else {
                proof {
                    lemma_key_schedule_plain_word(key, i as nat);
                }
                self.expanded_key8[4 * i + 0] = self.expanded_key8[4 * (i - N) + 0] ^ self.expanded_key8[4 * (i - 1) + 0];
                self.expanded_key8[4 * i + 1] = self.expanded_key8[4 * (i - N) + 1] ^ self.expanded_key8[4 * (i - 1) + 1];
                self.expanded_key8[4 * i + 2] = self.expanded_key8[4 * (i - N) + 2] ^ self.expanded_key8[4 * (i - 1) + 2];
                self.expanded_key8[4 * i + 3] = self.expanded_key8[4 * (i - N) + 3] ^ self.expanded_key8[4 * (i - 1) + 3];
            }
            assert forall|j: int| 0 <= j < 4 * i + 4 implies self.expanded_key8@[j] == key_schedule_byte(key, j as nat) by {
                if j < 4 * i {
                    assert(self.expanded_key8@[j] == before[j]);
                }
            }
        }
        assert(self.expanded_key8@ =~= expand_key(key));

        let mut i: usize = 0;
        while i < 16
            invariant
                i % 4 == 0,
                i <= 16,
                self.key8@ == key,
                self.expanded_key8@ == expand_key(key),
                self.nr == old(self).nr,
                self.buf == old(self).buf,
                forall|k: int| 0 <= k < i / 4 ==> self.key@[k] == be_u32(key, 4 * k),
            decreases 16 - i,
        {
            let mut w: u32 = 0;
            GET_UINT32_LE(&mut w, &self.key8, i);
            self.key[i / 4] = w;
            i += 4;
        }
        assert(self.key@ =~= be_words(key));

        let mut i: usize = 0;
        while i < 176
            invariant
                i % 4 == 0,
                i <= 176,
                self.key8@ == key,
                self.expanded_key8@ == expand_key(key),
                self.key@ == be_words(key),
                self.nr == old(self).nr,
                self.buf == old(self).buf,
                forall|k: int| 0 <= k < i / 4 ==> self.rk@[k] == be_u32(expand_key(key), 4 * k),
            decreases 176 - i,
        {
            let mut w: u32 = 0;
            GET_UINT32_LE(&mut w, &self.expanded_key8, i);
            self.rk[i / 4] = w;
            i += 4;
        }
        assert(self.rk@ =~= be_words(expand_key(key)));
    }
}

/// Binds a 128-bit key to the context: ten rounds, and the key with its
/// schedule. Any other key size is refused and leaves the context as it was.
pub fn mbedtls_aes_setkey_enc(ctx: &mut mbedtls_aes_context, key: &[u8; 16], keybits: usize) -> (r: isize)
    ensures
        keybits != 128 ==> r == MBEDTLS_ERR_AES_INVALID_KEY_LENGTH && *final(ctx) == *old(ctx),
        keybits == 128 ==> {
            &&& r == 0
            &&& final(ctx).nr == 10
            &&& final(ctx).holds_key(key@)
            &&& final(ctx).schedule() == aes128(key@)
            &&& final(ctx).buf == old(ctx).buf
        },
{
    if keybits == 128 {
        ctx.nr = 10;
    } else {
        return MBEDTLS_ERR_AES_INVALID_KEY_LENGTH;
    }

    for i in 0..4
        invariant
            ctx.nr == 10,
            ctx.buf == old(ctx).buf,
            forall|k: int| 0 <= k < i ==> ctx.key@[k] == be_u32(key@, 4 * k),
    {
        let mut w: u32 = 0;
        let word: &[u8] = &key[4 * i..4 * i + 4];
        GET_UINT32_LE(&mut w, word, 0);
        ctx.key[i] = w;
    }
    ctx.key_expansion8(key);
    0
}

/// The same as `mbedtls_aes_setkey_enc`: one schedule serves both directions.
pub fn mbedtls_aes_setkey_dec(ctx: &mut mbedtls_aes_context, key: &[u8; 16], keybits: usize) -> (r: isize)
    ensures
        keybits != 128 ==> r == MBEDTLS_ERR_AES_INVALID_KEY_LENGTH && *final(ctx) == *old(ctx),
        keybits == 128 ==> {
            &&& r == 0
            &&& final(ctx).nr == 10
            &&& final(ctx).holds_key(key@)
            &&& final(ctx).schedule() == aes128(key@)
            &&& final(ctx).buf == old(ctx).buf
        },
{
    mbedtls_aes_setkey_enc(ctx, &key, keybits)
}

/// Enciphers one block with the round keys of the context.
pub fn mbedtls_internal_aes_encrypt(
    ctx: &mbedtls_aes_context,
    input: &[u8; 16],
    output: &mut [u8; 16],
) -> (r: isize)
    requires
        1 <= ctx.nr <= 11,
    ensures
        r == 0,
        final(output)@ == encrypt_block(ctx.schedule(), input@),
{
    let mut round_key: [u8; 16] = [0; 16];
    for i in 0..16
        invariant
            forall|j: int| 0 <= j < i ==> output@[j] == input@[j] && round_key@[j] == ctx.key8@[j],
    {
        output[i] = input[i];
        round_key[i] = ctx.key8[i];
    }
    assert(output@ =~= input@);
    assert(round_key@ =~= ctx.key8@);

    add_round_key(output, &round_key);
    let ghost start = output@;
    let ghost ek = ctx.expanded_key8@;

    for i in 0..(ctx.nr - 1)
        invariant
            1 <= ctx.nr <= 11,
            ek == ctx.expanded_key8@,
            output@ == cipher_rounds(start, ek, i as nat),
    {
        sub_bytes(output);
        shift_rows(output);
        mix_columns(output);

        for j in 0..16
            invariant
                i + 1 < 11,
                ek == ctx.expanded_key8@,
                forall|k: int| 0 <= k < j ==> round_key@[k] == spec::round_key(ek, i + 1)[k],
        {
            round_key[j] = ctx.expanded_key8[16 * (i + 1) + j];
        }
        assert(round_key@ =~= spec::round_key(ek, i + 1));

        add_round_key(output, &round_key);
    }

    // Final round
    reveal(encrypt_block);
    sub_bytes(output);
    shift_rows(output);
    for j in 0..16
        invariant
            ek == ctx.expanded_key8@,
            forall|k: int| 0 <= k < j ==> round_key@[k] == spec::round_key(ek, 10)[k],
    {
        round_key[j] = ctx.expanded_key8[160 + j];
    }
    assert(round_key@ =~= spec::round_key(ek, 10));
    add_round_key(output, &round_key);
    0
}

/// Deciphers one block with the round keys of the context.
pub fn mbedtls_internal_aes_decrypt(
    ctx: &mbedtls_aes_context,
    input: &[u8; 16],
    output: &mut [u8; 16],
) -> (r: isize)
    requires
        1 <= ctx.nr <= 11,
    ensures
        r == 0,
        final(output)@ == decrypt_block(ctx.schedule(), input@),
{
    let ghost ek = ctx.expanded_key8@;
    let mut round_key: [u8; 16] = [0; 16];

    for i in 0..16
        invariant
            ek == ctx.expanded_key8@,
            forall|j: int| 0 <= j < i ==> output@[j] == input@[j] && round_key@[j] == spec::round_key(ek, 10)[j],
    {
        output[i] = input[i];
        round_key[i] = ctx.expanded_key8[160 + i];
    }
    assert(output@ =~= input@);
    assert(round_key@ =~= spec::round_key(ek, 10));

    add_round_key(output, &round_key);
    inv_shift_rows(output);
    inv_sub_bytes(output);
    let ghost start = output@;

    let mut i: usize = ctx.nr - 1;
    while i > 0
        invariant
            1 <= ctx.nr <= 11,
            i <= ctx.nr - 1,
            ek == ctx.expanded_key8@,
            inv_cipher_rounds(output@, ek, i as nat) == inv_cipher_rounds(start, ek, (ctx.nr - 1) as nat),
        decreases i,
    {
        i = i - 1;
        for j in 16 * (i + 1)..16 * (i + 2)
            invariant
                i + 1 < 11,
                ek == ctx.expanded_key8@,
                forall|k: int| 16 * (i + 1) <= k < j ==> round_key@[k - 16 * (i + 1)] == ek[k],
        {
            round_key[j - 16 * (i + 1)] = ctx.expanded_key8[j];
        }
        assert(round_key@ =~= spec::round_key(ek, i + 1));
        add_round_key(output, &round_key);
        inv_mix_columns(output);
        inv_shift_rows(output);
        inv_sub_bytes(output);
    }

    reveal(decrypt_block);
    add_round_key(output, &ctx.key8);
    0
}

/// ECB: enciphers (when `mode` is `MBEDTLS_AES_ENCRYPT`) or deciphers (for
/// any other mode) 16-byte blocks of `input` into the same place of `output`.
/// An input whose length is a multiple of 16 is processed block by block,
/// every block of it; any other input of at least 16 bytes is a single-block
/// operation on its first 16 bytes. Bytes of `output` after those written are
/// left alone. An input of 1 to 15 bytes, shorter than one block, is refused;
/// an empty one is a no-op.
pub fn mbedtls_aes_crypt_ecb(
    ctx: &mbedtls_aes_context,
    mode: isize,
    input: &[u8],
    output: &mut [u8],
) -> (r: isize)
    requires
        input@.len() % 16 == 0 ==> old(output)@.len() >= input@.len(),
        input@.len() % 16 != 0 && input@.len() >= 16 ==> old(output)@.len() >= 16,
        input@.len() >= 16 ==> 1 <= ctx.nr <= 11,
    ensures
        0 < input@.len() < 16 ==> r == MBEDTLS_ERR_AES_INVALID_INPUT_LENGTH
            && final(output)@ == old(output)@,
        input@.len() == 0 || input@.len() >= 16 ==> {
            let whole = if input@.len() % 16 == 0 { input@.len() as int } else { 16 };
            &&& r == 0
            &&& final(output)@ == ecb(
                ctx.schedule(),
                mode == MBEDTLS_AES_ENCRYPT,
                input@.take(whole),
            ) + old(output)@.skip(whole)
        },
{
    let mut temp_input: [u8; 16] = [0; 16];
    let mut temp_output: [u8; 16] = [0; 16];
    let length = input.len();

    if length % 16 != 0 && length < 16 {
        return MBEDTLS_ERR_AES_INVALID_INPUT_LENGTH;
    }

    let whole = if length % 16 == 0 {
        length
    } else {
        16
    };
    let ghost data = input@.take(whole as int);
    let ghost expected = ecb(ctx.schedule(), mode == MBEDTLS_AES_ENCRYPT, data);
    let mut i: usize = 0;
    while i < whole
        invariant
            length == input@.len(),
            whole <= length,
            whole % 16 == 0,
            i % 16 == 0,
            i <= whole,
            whole > 0 ==> 1 <= ctx.nr <= 11,
            data == input@.take(whole as int),
            expected == ecb(ctx.schedule(), mode == MBEDTLS_AES_ENCRYPT, data),
            output@.len() == old(output)@.len(),
            old(output)@.len() >= whole,
            forall|k: int| 0 <= k < i ==> output@[k] == expected[k],
            forall|k: int| whole <= k < output@.len() ==> output@[k] == old(output)@[k],
        decreases whole - i,
    {
        for j in 0..16
            invariant
                i + 16 <= whole,
                whole <= length,
                length == input@.len(),
                forall|k: int| 0 <= k < j ==> temp_input@[k] == input@[i + k],
        {
            temp_input[j] = input[i + j];
        }
        assert(temp_input@ =~= block(data, i as int / 16));

        if mode == MBEDTLS_AES_ENCRYPT {
            mbedtls_internal_aes_encrypt(&ctx, &temp_input, &mut temp_output);
        } else {
            mbedtls_internal_aes_decrypt(&ctx, &temp_input, &mut temp_output);
        }

        let ghost before = output@;
        for j in 0..16
            invariant
                i + 16 <= whole,
                output@.len() == before.len(),
                before.len() >= whole,
                forall|k: int| 0 <= k < i + j ==> output@[k] == if k < i { before[k] } else { temp_output@[k - i] },
                forall|k: int| i + j <= k < output@.len() ==> output@[k] == before[k],
        {
            output[i + j] = temp_output[j];
        }
        assert forall|k: int| i <= k < i + 16 implies output@[k] == expected[k] by {
            assert(k / 16 == i as int / 16);
            assert(k % 16 == k - i);
        }
        i = i + 16;
    }
    assert(output@ =~= expected + old(output)@.skip(whole as int));
    0
}

/// CBC over the first `length` bytes of `input`. Encryption (mode
/// `MBEDTLS_AES_ENCRYPT`) enciphers each block plus the ciphertext block before
/// it (the IV before the first); decryption (any other mode) deciphers each
/// block and adds the ciphertext block before it. On exit the IV holds the
/// last ciphertext block, so that a further call continues the chain as if
/// both inputs had been given to one call. A length that is not a multiple of
/// 16 is refused, and leaves the IV and the output as they were.
pub fn mbedtls_aes_crypt_cbc(
    ctx: &mbedtls_aes_context,
    mode: isize,
    length: usize,
    iv: &mut [u8; 16],
    input: &[u8],
    output: &mut [u8],
) -> (r: isize)
    requires
        length % 16 == 0 ==> input@.len() >= length && old(output)@.len() >= length,
        length % 16 == 0 && length > 0 ==> 1 <= ctx.nr <= 11,
    ensures
        length % 16 != 0 ==> r == MBEDTLS_ERR_AES_INVALID_INPUT_LENGTH
            && final(output)@ == old(output)@ && *final(iv) == *old(iv),
        length % 16 == 0 ==> r == 0 && final(output)@ == (if mode == MBEDTLS_AES_ENCRYPT {
            cbc_encrypt(ctx.schedule(), old(iv)@, input@.take(length as int))
        } else {
            cbc_decrypt(ctx.schedule(), old(iv)@, input@.take(length as int))
        }) + old(output)@.skip(length as int),
        length % 16 == 0 ==> final(iv)@ == if mode == MBEDTLS_AES_ENCRYPT {
            cbc_next_iv(old(iv)@, cbc_encrypt(ctx.schedule(), old(iv)@, input@.take(length as int)))
        } else {
            cbc_next_iv(old(iv)@, input@.take(length as int))
        },
{
    let mut temp_input: [u8; 16] = [0; 16];
    let mut temp_output: [u8; 16] = [0; 16];
    let mut temp_iv: [u8; 16] = [0; 16];

    for i in 0..16
        invariant
            forall|j: int| 0 <= j < i ==> temp_iv@[j] == iv@[j],
    {
        temp_iv[i] = iv[i];
    }
    assert(temp_iv@ =~= iv@);

    if length % 16 != 0 {
        return MBEDTLS_ERR_AES_INVALID_INPUT_LENGTH;
    }

    let ghost iv0 = iv@;
    let ghost data = input@.take(length as int);
    let ghost ks = ctx.schedule();
    if mode == MBEDTLS_AES_ENCRYPT {
        let ghost expected = cbc_encrypt(ks, iv0, data);
        let mut i: usize = 0;
        while i < length
            invariant
                length % 16 == 0,
                i % 16 == 0,
                i <= length,
                input@.len() >= length,
                data == input@.take(length as int),
                length > 0 ==> 1 <= ctx.nr <= 11,
                ks == ctx.schedule(),
                expected == cbc_encrypt(ks, iv0, data),
                i == 0 ==> temp_iv@ == iv0,
                i > 0 ==> temp_iv@ == cbc_encrypt_block(ks, iv0, data, (i / 16 - 1) as nat),
                output@.len() == old(output)@.len(),
                old(output)@.len() >= length,
                forall|k: int| 0 <= k < i ==> output@[k] == expected[k],
                forall|k: int| length <= k < output@.len() ==> output@[k] == old(output)@[k],
            decreases length - i,
        {
            for j in 0..16
                invariant
                    i + 16 <= length,
                    input@.len() >= length,
                    forall|k: int| 0 <= k < j ==> temp_input@[k] == input@[i + k] ^ temp_iv@[k],
            {
                temp_input[j] = input[i + j] ^ temp_iv[j];
            }
            proof {
                let k = (i / 16) as nat;
                assert(block(data, k as int) =~= block(input@, k as int));
                assert(temp_input@ =~= xor_bytes(block(data, k as int), temp_iv@));
            }
            mbedtls_internal_aes_encrypt(&ctx, &temp_input, &mut temp_output);
            assert(temp_output@ == cbc_encrypt_block(ks, iv0, data, (i / 16) as nat));

            let ghost before = output@;
            for j in 0..16
                invariant
                    i + 16 <= length,
                    output@.len() == before.len(),
                    before.len() >= length,
                    forall|k: int| 0 <= k < i + j ==> output@[k] == if k < i { before[k] } else { temp_output@[k - i] },
                    forall|k: int| i + j <= k < output@.len() ==> output@[k] == before[k],
                    forall|k: int| 0 <= k < j ==> temp_iv@[k] == temp_output@[k],
            {
                output[i + j] = temp_output[j];
                temp_iv[j] = temp_output[j];
            }
            assert(temp_iv@ =~= temp_output@);
            assert forall|k: int| i <= k < i + 16 implies output@[k] == expected[k] by {
                assert(k / 16 == i as int / 16);
                assert(k % 16 == k - i);
            }
            i = i + 16;
        }
        assert(output@ =~= expected + old(output)@.skip(length as int));
    } else {
        let ghost expected = cbc_decrypt(ks, iv0, data);
        let mut i: usize = 0;
        while i < length
            invariant
                length % 16 == 0,
                i % 16 == 0,
                i <= length,
                input@.len() >= length,
                data == input@.take(length as int),
                length > 0 ==> 1 <= ctx.nr <= 11,
                ks == ctx.schedule(),
                expected == cbc_decrypt(ks, iv0, data),
                temp_iv@ == cbc_prev(iv0, data, i as int / 16),
                output@.len() == old(output)@.len(),
                old(output)@.len() >= length,
                forall|k: int| 0 <= k < i ==> output@[k] == expected[k],
                forall|k: int| length <= k < output@.len() ==> output@[k] == old(output)@[k],
            decreases length - i,
        {
            for j in 0..16
                invariant
                    i + 16 <= length,
                    input@.len() >= length,
                    forall|k: int| 0 <= k < j ==> temp_input@[k] == input@[i + k],
            {
                temp_input[j] = input[i + j];
            }
            proof {
                let k = (i / 16) as nat;
                assert(block(data, k as int) =~= block(input@, k as int));
                assert(temp_input@ =~= block(data, k as int));
            }

            mbedtls_internal_aes_decrypt(&ctx, &temp_input, &mut temp_output);
            let ghost before = output@;
            let ghost prev = temp_iv@;
            for j in 0..16
                invariant
                    i + 16 <= length,
                    output@.len() == before.len(),
                    before.len() >= length,
                    forall|k: int| 0 <= k < i + j ==> output@[k] == if k < i { before[k] } else { temp_output@[k - i] ^ prev[k - i] },
                    forall|k: int| i + j <= k < output@.len() ==> output@[k] == before[k],
                    forall|k: int| 0 <= k < j ==> temp_iv@[k] == temp_input@[k],
                    forall|k: int| j <= k < 16 ==> temp_iv@[k] == prev[k],
            {
                output[i + j] = temp_output[j] ^ temp_iv[j];
                temp_iv[j] = temp_input[j];
            }
            assert(temp_iv@ =~= cbc_prev(iv0, data, (i + 16) as int / 16));
            assert forall|k: int| i <= k < i + 16 implies output@[k] == expected[k] by {
                assert(k / 16 == i as int / 16);
                assert(k % 16 == k - i);
            }
            i = i + 16;
        }
        assert(output@ =~= expected + old(output)@.skip(length as int));
    }
    proof {
        if mode == MBEDTLS_AES_ENCRYPT && length > 0 {
            lemma_cbc_encrypt_blocks(ks, iv0, data, length as int / 16 - 1);
        }
    }
    for i in 0..16
        invariant
            forall|j: int| 0 <= j < i ==> iv@[j] == temp_iv@[j],
    {
        iv[i] = temp_iv[i];
    }
    assert(iv@ =~= temp_iv@);
    0
}

/// Adding one to an offset below 16 and masking with 15 counts modulo 16.
proof fn lemma_offset_step(x: usize)
    by (bit_vector)
    requires
        x < 16,
    ensures
        ((x + 1) as usize) & 0x0F == ((x + 1) as usize) % 16,
{
}

/// The number of times the IV has been enciphered before keystream byte `i`
/// of a call that starts at offset `off` is read.
pub open spec fn ofb_count_before(off: nat, i: nat) -> nat {
    if i == 0 {
        0
    } else {
        ofb_count(off, (i - 1) as nat)
    }
}

/// OFB over the first `length` bytes of `input`: each byte is added to a byte
/// of the keystream, so encryption and decryption are the same. The IV holds
/// the keystream block in use and `iv_off` the next byte of it to read;
/// whenever that offset is 0 the IV is enciphered again to give the next
/// block. On exit the IV and the offset are where the stream stopped, so that
/// a further call continues it. An offset above 15 is refused, and leaves the
/// IV, the offset and the output as they were.
#[verifier::rlimit(50)]
pub fn mbedtls_aes_crypt_ofb(
    ctx: &mbedtls_aes_context,
    length: usize,
    iv_off: &mut usize,
    iv: &mut [u8; 16],
    input: &[u8],
    output: &mut [u8],
) -> (r: isize)
    requires
        *old(iv_off) <= 15 ==> input@.len() >= length && old(output)@.len() >= length,
        *old(iv_off) <= 15 && length > 0 && (*old(iv_off) == 0 || *old(iv_off) + length > 16)
            ==> 1 <= ctx.nr <= 11,
    ensures
        *old(iv_off) > 15 ==> {
            &&& r == MBEDTLS_ERR_AES_BAD_INPUT_DATA
            &&& final(output)@ == old(output)@
            &&& *final(iv) == *old(iv)
            &&& *final(iv_off) == *old(iv_off)
        },
        *old(iv_off) <= 15 ==> {
            &&& r == 0
            &&& *final(iv_off) == (*old(iv_off) + length) % 16
            &&& final(iv)@ == ofb_next_iv(ctx.schedule(), old(iv)@, *old(iv_off) as nat, length as nat)
            &&& final(output)@ == ofb(ctx.schedule(), old(iv)@, *old(iv_off) as nat, input@.take(length as int))
                + old(output)@.skip(length as int)
        },
{
    let mut temp_iv_input: [u8; 16] = [0; 16];

    if *iv_off > 15 {
        return MBEDTLS_ERR_AES_BAD_INPUT_DATA;
    }

    let ghost data = input@.take(length as int);
    let ghost ks = ctx.schedule();
    let ghost iv0 = iv@;
    let ghost off = *iv_off;
    let ghost expected = ofb(ks, iv0, off as nat, data);
    let mut n: usize = *iv_off;
    let mut i: usize = 0;
    while i < length
        invariant
            i <= length,
            input@.len() >= length,
            data == input@.take(length as int),
            off <= 15,
            n == (off + i) % 16,
            length > 0 && (off == 0 || off + length > 16) ==> 1 <= ctx.nr <= 11,
            ks == ctx.schedule(),
            expected == ofb(ks, iv0, off as nat, data),
            iv@ == ofb_stream(ks, iv0, ofb_count_before(off as nat, i as nat)),
            output@.len() == old(output)@.len(),
            old(output)@.len() >= length,
            forall|k: int| 0 <= k < i ==> output@[k] == expected[k],
            forall|k: int| i <= k < output@.len() ==> output@[k] == old(output)@[k],
        decreases length - i,
    {
        proof {
            if i > 0 {
                assert((off + i) / 16 == (off + i - 1) / 16 + if n == 0 { 1int } else { 0int });
            }
        }
        if n == 0 {
            for j in 0..16
                invariant
                    forall|k: int| 0 <= k < j ==> temp_iv_input@[k] == iv@[k],
            {
                temp_iv_input[j] = iv[j];
            }
            assert(temp_iv_input@ =~= iv@);
            let ghost pad_in = temp_iv_input@;
            let ret = mbedtls_aes_crypt_ecb(&ctx, MBEDTLS_AES_ENCRYPT, &temp_iv_input, iv);
            if ret != 0 {
                return ret;
            }
            assert(pad_in.take(16) =~= pad_in);
            assert(block(pad_in, 0) =~= pad_in);
            proof {
                lemma_block_len(ks, pad_in);
            }
            assert forall|k: int| 0 <= k < 16 implies iv@[k] == encrypt_block(ks, pad_in)[k] by {
                assert(k / 16 == 0);
                assert(k % 16 == k);
                assert(iv@[k] == ecb(ks, true, pad_in)[k]);
            }
            assert(iv@ =~= encrypt_block(ks, pad_in));
        }
        assert(iv@ == ofb_stream(ks, iv0, ofb_count(off as nat, i as nat)));
        output[i] = input[i] ^ iv[n];
        proof {
            lemma_offset_step(n);
            assert(data[i as int] == input@[i as int]);
        }
        n = (n + 1) & 0x0F;
        i = i + 1;
    }
    *iv_off = n;
    assert(output@ =~= expected + old(output)@.skip(length as int));
    0
}

} // verus!
