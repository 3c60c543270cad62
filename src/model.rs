use vstd::prelude::*;

use crate::tables::{INITIAL_PBOX, INITIAL_SBOX};

verus! {

/// The mathematical state of a cipher: the P-box and the four S-boxes.
pub struct Tables {
    pub pbox: Seq<u32>,
    pub sbox: Seq<Seq<u32>>,
}

impl Tables {
    /// 18 P-box words and four S-boxes of 256 words each.
    pub open spec fn wf(self) -> bool {
        &&& self.pbox.len() == 18
        &&& self.sbox.len() == 4
        &&& forall|i: int| 0 <= i < 4 ==> (#[trigger] self.sbox[i]).len() == 256
    }
}

/// The word whose big-endian bytes are `b0 b1 b2 b3`.
pub open spec fn word_of_bytes(b0: u8, b1: u8, b2: u8, b3: u8) -> u32 {
    ((b0 as u32) << 24u32) | ((b1 as u32) << 16u32) | ((b2 as u32) << 8u32) | (b3 as u32)
}

/// The four big-endian bytes of `w`.
pub open spec fn bytes_of_word(w: u32) -> Seq<u8> {
    seq![(w >> 24u32) as u8, (w >> 16u32) as u8, (w >> 8u32) as u8, w as u8]
}

/// The word read big-endian from `b[i..i + 4]`.
pub open spec fn word_at(b: Seq<u8>, i: int) -> u32 {
    word_of_bytes(b[i], b[i + 1], b[i + 2], b[i + 3])
}

/// The round function F: S-box 0 is indexed by the most significant byte of `x`, S-box 3 by
/// the least significant one, and the four words are combined as `d + (c ^ (b + a))` modulo 2^32.
pub open spec fn round_fn(sbox: Seq<Seq<u32>>, x: u32) -> u32 {
    let a = sbox[0][(x >> 24u32) as int];
    let b = sbox[1][((x >> 16u32) & 0xffu32) as int];
    let c = sbox[2][((x >> 8u32) & 0xffu32) as int];
    let d = sbox[3][(x & 0xffu32) as int];
    d.wrapping_add(c ^ b.wrapping_add(a))
}

/// One pair of Feistel rounds keyed by the P-box words `first` and `second`.
pub open spec fn feistel_pair(sbox: Seq<Seq<u32>>, first: u32, second: u32, l: u32, r: u32) -> (
    u32,
    u32,
) {
    let l1 = l ^ first;
    let r1 = r ^ round_fn(sbox, l1) ^ second;
    (l1 ^ round_fn(sbox, r1), r1)
}

/// `(l, r)` after the first `n` round pairs of encryption: pair `k` uses `pbox[2k]`, `pbox[2k + 1]`.
pub open spec fn encrypt_rounds(t: Tables, l: u32, r: u32, n: nat) -> (u32, u32)
    decreases n,
{
    if n == 0 {
        (l, r)
    } else {
        let (a, b) = encrypt_rounds(t, l, r, (n - 1) as nat);
        let k = n - 1;
        feistel_pair(t.sbox, t.pbox[2 * k], t.pbox[2 * k + 1], a, b)
    }
}

/// `(l, r)` after the first `n` round pairs of decryption: these take the P-box pairs from
/// `(16, 17)` downwards, pair `k` with `pbox[2k + 1]` first and `pbox[2k]` second.
pub open spec fn decrypt_rounds(t: Tables, l: u32, r: u32, n: nat) -> (u32, u32)
    decreases n,
{
    if n == 0 {
        (l, r)
    } else {
        let (a, b) = decrypt_rounds(t, l, r, (n - 1) as nat);
        let k = 9 - n;
        feistel_pair(t.sbox, t.pbox[2 * k + 1], t.pbox[2 * k], a, b)
    }
}

/// Encryption of the word pair `(l, r)`: eight round pairs, whitening with `pbox[16]` and
/// `pbox[17]`, and a swap of the halves.
pub open spec fn encrypt_words(t: Tables, l: u32, r: u32) -> (u32, u32) {
    let (a, b) = encrypt_rounds(t, l, r, 8);
    (b ^ t.pbox[17], a ^ t.pbox[16])
}

/// Decryption of the word pair `(l, r)`: eight round pairs in reverse, whitening with `pbox[1]`
/// and `pbox[0]`, and a swap of the halves.
pub open spec fn decrypt_words(t: Tables, l: u32, r: u32) -> (u32, u32) {
    let (a, b) = decrypt_rounds(t, l, r, 8);
    (b ^ t.pbox[0], a ^ t.pbox[1])
}

/// The 8-byte block whose halves are the big-endian bytes of `w.0` and of `w.1`.
pub open spec fn block_of_words(w: (u32, u32)) -> Seq<u8> {
    bytes_of_word(w.0) + bytes_of_word(w.1)
}

/// Encryption of an 8-byte block read as two big-endian words.
pub open spec fn encrypt_block_bytes(t: Tables, block: Seq<u8>) -> Seq<u8> {
    block_of_words(encrypt_words(t, word_at(block, 0), word_at(block, 4)))
}

/// Decryption of an 8-byte block read as two big-endian words.
pub open spec fn decrypt_block_bytes(t: Tables, block: Seq<u8>) -> Seq<u8> {
    block_of_words(decrypt_words(t, word_at(block, 0), word_at(block, 4)))
}

/// Key lengths in bytes that a cipher accepts.
pub open spec fn valid_key_len(n: int) -> bool {
    4 <= n <= 56
}

/// Byte `i` of the key repeated without end.
pub open spec fn key_stream_byte(key: Seq<u8>, i: int) -> u8 {
    key[i % key.len() as int]
}

/// Word `i` of the repeated key, read big-endian.
pub open spec fn key_stream_word(key: Seq<u8>, i: int) -> u32 {
    word_of_bytes(
        key_stream_byte(key, 4 * i),
        key_stream_byte(key, 4 * i + 1),
        key_stream_byte(key, 4 * i + 2),
        key_stream_byte(key, 4 * i + 3),
    )
}

/// The initial S-boxes as sequences.
pub open spec fn initial_sbox() -> Seq<Seq<u32>> {
    Seq::new(4, |i: int| INITIAL_SBOX@[i]@)
}

/// The initial tables with the key stream XORed into the P-box.
pub open spec fn mixed_tables(key: Seq<u8>) -> Tables {
    Tables {
        pbox: Seq::new(18, |i: int| INITIAL_PBOX@[i] ^ key_stream_word(key, i)),
        sbox: initial_sbox(),
    }
}

/// The state of the key schedule: the tables and the carried word pair.
pub struct ScheduleState {
    pub tables: Tables,
    pub l: u32,
    pub r: u32,
}

/// Encrypts the carried pair with the current tables and writes the result to `pbox[2k]`,
/// `pbox[2k + 1]`.
pub open spec fn pbox_step(s: ScheduleState, k: int) -> ScheduleState {
    let (l, r) = encrypt_words(s.tables, s.l, s.r);
    ScheduleState {
        tables: Tables {
            pbox: s.tables.pbox.update(2 * k, l).update(2 * k + 1, r),
            sbox: s.tables.sbox,
        },
        l,
        r,
    }
}

/// Encrypts the carried pair with the current tables and writes the result to entries `2k`,
/// `2k + 1` of S-box `i`.
pub open spec fn sbox_step(s: ScheduleState, i: int, k: int) -> ScheduleState {
    let (l, r) = encrypt_words(s.tables, s.l, s.r);
    ScheduleState {
        tables: Tables {
            pbox: s.tables.pbox,
            sbox: s.tables.sbox.update(i, s.tables.sbox[i].update(2 * k, l).update(2 * k + 1, r)),
        },
        l,
        r,
    }
}

/// The key schedule after the first `n` pairs of the P-box have been rewritten.
pub open spec fn schedule_pbox(key: Seq<u8>, n: nat) -> ScheduleState
    decreases n,
{
    if n == 0 {
        ScheduleState { tables: mixed_tables(key), l: 0, r: 0 }
    } else {
        pbox_step(schedule_pbox(key, (n - 1) as nat), n - 1)
    }
}

/// The key schedule after the whole P-box, the S-boxes before `i`, and the first `n` pairs of
/// S-box `i` have been rewritten.
pub open spec fn schedule_sbox(key: Seq<u8>, i: nat, n: nat) -> ScheduleState
    decreases i, n,
{
    if n == 0 {
        if i == 0 {
            schedule_pbox(key, 9)
        } else {
            schedule_sbox(key, (i - 1) as nat, 128)
        }
    } else {
        sbox_step(schedule_sbox(key, i, (n - 1) as nat), i as int, n - 1)
    }
}

/// The tables that the key schedule derives from `key`.
pub open spec fn key_schedule(key: Seq<u8>) -> Tables {
    schedule_sbox(key, 3, 128).tables
}

} // verus!
