use vstd::prelude::*;

use crate::cipher::Blowfish;
use crate::model::{
    bytes_of_word, decrypt_block_bytes, decrypt_rounds, decrypt_words, encrypt_block_bytes,
    encrypt_rounds, encrypt_words, feistel_pair, key_schedule, round_fn, valid_key_len,
    word_at, word_of_bytes, Tables,
};

verus! {

/// Reading back the big-endian bytes of a word gives the word.
pub proof fn lemma_word_of_bytes_of_word(w: u32)
    ensures
        word_of_bytes(bytes_of_word(w)[0], bytes_of_word(w)[1], bytes_of_word(w)[2], bytes_of_word(w)[3]) == w,
{
    assert((((((w >> 24u32) as u8) as u32) << 24u32) | ((((w >> 16u32) as u8) as u32) << 16u32)
        | ((((w >> 8u32) as u8) as u32) << 8u32) | ((w as u8) as u32)) == w) by (bit_vector);
}

/// The big-endian bytes of the word read from four bytes are those bytes.
pub proof fn lemma_bytes_of_word_of_bytes(b0: u8, b1: u8, b2: u8, b3: u8)
    ensures
        bytes_of_word(word_of_bytes(b0, b1, b2, b3)) == seq![b0, b1, b2, b3],
{
    let w = word_of_bytes(b0, b1, b2, b3);
    assert((((((b0 as u32) << 24u32) | ((b1 as u32) << 16u32) | ((b2 as u32) << 8u32) | (b3 as u32))
        >> 24u32) as u8) == b0) by (bit_vector);
    assert((((((b0 as u32) << 24u32) | ((b1 as u32) << 16u32) | ((b2 as u32) << 8u32) | (b3 as u32))
        >> 16u32) as u8) == b1) by (bit_vector);
    assert((((((b0 as u32) << 24u32) | ((b1 as u32) << 16u32) | ((b2 as u32) << 8u32) | (b3 as u32))
        >> 8u32) as u8) == b2) by (bit_vector);
    assert(((((b0 as u32) << 24u32) | ((b1 as u32) << 16u32) | ((b2 as u32) << 8u32) | (b3 as u32))
        as u8) == b3) by (bit_vector);
    assert(bytes_of_word(w) =~= seq![b0, b1, b2, b3]);
}

/// A decryption round pair with the P-box words `u`, `v` undoes an encryption round pair with
/// `x`, `y` once the whitening by `u` and `v` is taken into account.
proof fn lemma_feistel_pair_undone(sbox: Seq<Seq<u32>>, x: u32, y: u32, u: u32, v: u32, a: u32, b: u32)
    ensures
        ({
            let (a2, b2) = feistel_pair(sbox, x, y, a, b);
            feistel_pair(sbox, u, v, b2 ^ u, a2 ^ v) == (b ^ y, a ^ x)
        }),
{
    let l1 = a ^ x;
    let f1 = round_fn(sbox, l1);
    let r1 = b ^ f1 ^ y;
    let f2 = round_fn(sbox, r1);
    let a2 = l1 ^ f2;
    assert(r1 ^ u ^ u == r1) by (bit_vector);
    assert(a2 ^ v ^ f2 ^ v == l1) by (bit_vector)
        requires
            a2 == l1 ^ f2,
    ;
    assert(r1 ^ f1 == b ^ y) by (bit_vector)
        requires
            r1 == b ^ f1 ^ y,
    ;
}

/// After `j` round pairs, decryption of a ciphertext stands where encryption stood after
/// `8 - j` round pairs, up to the whitening by the P-box pair that comes next.
proof fn lemma_decrypt_rounds_retrace(t: Tables, l: u32, r: u32, j: nat)
    requires
        j <= 8,
    ensures
        ({
            let (cl, cr) = encrypt_words(t, l, r);
            let m = 8 - j;
            let (a, b) = encrypt_rounds(t, l, r, m as nat);
            decrypt_rounds(t, cl, cr, j) == (b ^ t.pbox[2 * m + 1], a ^ t.pbox[2 * m])
        }),
    decreases j,
{
    if j > 0 {
        lemma_decrypt_rounds_retrace(t, l, r, (j - 1) as nat);
        let m = 8 - j;
        let (a, b) = encrypt_rounds(t, l, r, m as nat);
        lemma_feistel_pair_undone(
            t.sbox,
            t.pbox[2 * m],
            t.pbox[2 * m + 1],
            t.pbox[2 * m + 3],
            t.pbox[2 * m + 2],
            a,
            b,
        );
    }
}

/// Decryption undoes encryption of a word pair under any tables.
pub proof fn lemma_decrypt_words_inverts(t: Tables, l: u32, r: u32)
    ensures
        ({
            let (cl, cr) = encrypt_words(t, l, r);
            decrypt_words(t, cl, cr) == (l, r)
        }),
{
    lemma_decrypt_rounds_retrace(t, l, r, 8);
    let p0 = t.pbox[0];
    let p1 = t.pbox[1];
    assert(l ^ p0 ^ p0 == l) by (bit_vector);
    assert(r ^ p1 ^ p1 == r) by (bit_vector);
}

/// Decryption undoes encryption of a word pair: for a valid key and any pair `(l, r)`,
/// decrypting the encryption of `(l, r)` gives back `(l, r)`.
pub proof fn lemma_word_pair_round_trip(key: Seq<u8>, l: u32, r: u32)
    requires
        valid_key_len(key.len() as int),
    ensures
        ({
            let t = key_schedule(key);
            let (cl, cr) = encrypt_words(t, l, r);
            decrypt_words(t, cl, cr) == (l, r)
        }),
{
    lemma_decrypt_words_inverts(key_schedule(key), l, r);
}

/// Decryption undoes encryption of a block: for a valid key and any 8-byte block, decrypting
/// the encryption of the block gives back the block.
pub proof fn lemma_block_round_trip(key: Seq<u8>, block: Seq<u8>)
    requires
        valid_key_len(key.len() as int),
        block.len() == 8,
    ensures
        decrypt_block_bytes(key_schedule(key), encrypt_block_bytes(key_schedule(key), block))
            == block,
{
    let t = key_schedule(key);
    let l = word_at(block, 0);
    let r = word_at(block, 4);
    let (cl, cr) = encrypt_words(t, l, r);
    let c = encrypt_block_bytes(t, block);
    lemma_word_of_bytes_of_word(cl);
    lemma_word_of_bytes_of_word(cr);
    assert(word_at(c, 0) == cl);
    assert(word_at(c, 4) == cr);
    lemma_decrypt_words_inverts(t, l, r);
    lemma_bytes_of_word_of_bytes(block[0], block[1], block[2], block[3]);
    lemma_bytes_of_word_of_bytes(block[4], block[5], block[6], block[7]);
    assert(decrypt_block_bytes(t, c) =~= block);
}

/// Encryption is determined by the key: two ciphers built from the same key encrypt every
/// block and every word pair alike.
pub proof fn lemma_same_key_same_ciphertext(
    a: &Blowfish,
    b: &Blowfish,
    key: Seq<u8>,
    block: Seq<u8>,
    l: u32,
    r: u32,
)
    requires
        a@ == key_schedule(key),
        b@ == key_schedule(key),
    ensures
        encrypt_block_bytes(a@, block) == encrypt_block_bytes(b@, block),
        encrypt_words(a@, l, r) == encrypt_words(b@, l, r),
{
}

} // verus!
