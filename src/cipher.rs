use vstd::prelude::*;

use crate::error::BlowfishError;
use crate::model::{
    block_of_words, bytes_of_word, decrypt_block_bytes, decrypt_rounds, decrypt_words,
    encrypt_block_bytes, encrypt_rounds, encrypt_words, key_schedule, key_stream_word,
    mixed_tables, pbox_step, round_fn, sbox_step, schedule_pbox, schedule_sbox, valid_key_len,
    word_of_bytes, ScheduleState, Tables,
};
use crate::tables::{INITIAL_PBOX, INITIAL_SBOX};

verus! {

/// A Blowfish cipher keyed by its P-box and S-boxes. The tables are fixed once `new` returns.
pub struct Blowfish {
    pbox: [u32; 18],
    sbox: [[u32; 256]; 4],
}

impl View for Blowfish {
    type V = Tables;

    closed spec fn view(&self) -> Tables {
        Tables { pbox: self.pbox@, sbox: Seq::new(4, |i: int| self.sbox@[i]@) }
    }
}

/// The word whose big-endian bytes are `b0 b1 b2 b3`.
fn word_from_bytes(b0: u8, b1: u8, b2: u8, b3: u8) -> (w: u32)
    ensures
        w == word_of_bytes(b0, b1, b2, b3),
{
    ((b0 as u32) << 24u32) | ((b1 as u32) << 16u32) | ((b2 as u32) << 8u32) | (b3 as u32)
}

/// Writes the big-endian bytes of `w` to `block[i..i + 4]`.
fn store_word(block: &mut [u8; 8], i: usize, w: u32)
    requires
        i <= 4,
    ensures
        final(block)@ == old(block)@.update(i as int, bytes_of_word(w)[0]).update(
            i + 1,
            bytes_of_word(w)[1],
        ).update(i + 2, bytes_of_word(w)[2]).update(i + 3, bytes_of_word(w)[3]),
{
    block[i] = (w >> 24u32) as u8;
    block[i + 1] = (w >> 16u32) as u8;
    block[i + 2] = (w >> 8u32) as u8;
    block[i + 3] = w as u8;
}

impl Blowfish {
    /// The view of a cipher always has the shape of Blowfish tables.
    pub proof fn lemma_wf(&self)
        ensures
            self@.wf(),
    {
    }

    /// Builds a cipher from `key`, which must be 4 to 56 bytes long.
    pub fn new(key: &[u8]) -> (r: Result<Self, BlowfishError>)
        ensures
            r is Err <==> !valid_key_len(key@.len() as int),
            r matches Err(e) ==> e == BlowfishError::Keysize,
            r matches Ok(bf) ==> bf@ == key_schedule(key@),
    {
        if key.len() < 4 || key.len() > 56 {
            return Err(BlowfishError::Keysize);
        }
        let mut bf = Blowfish { pbox: INITIAL_PBOX, sbox: INITIAL_SBOX };
        bf.key_schedule(key);
        Ok(bf)
    }

    /// The round function F.
    fn round(&self, x: u32) -> (r: u32)
        ensures
            r == round_fn(self@.sbox, x),
    {
        let i0 = (x >> 24u32) as usize;
        let i1 = ((x >> 16u32) & 0xffu32) as usize;
        let i2 = ((x >> 8u32) & 0xffu32) as usize;
        let i3 = (x & 0xffu32) as usize;
        assert(x >> 24u32 < 256) by (bit_vector);
        assert((x >> 16u32) & 0xffu32 < 256) by (bit_vector);
        assert((x >> 8u32) & 0xffu32 < 256) by (bit_vector);
        assert(x & 0xffu32 < 256) by (bit_vector);
        let a = self.sbox[0][i0];
        let b = self.sbox[1][i1];
        let c = self.sbox[2][i2];
        let d = self.sbox[3][i3];
        d.wrapping_add(c ^ b.wrapping_add(a))
    }

    /// Encrypts the word pair `(l, r)` in place.
    pub fn encrypt_lr(&self, l: &mut u32, r: &mut u32)
        ensures
            (*final(l), *final(r)) == encrypt_words(self@, *old(l), *old(r)),
    {
        let ghost l0 = *l;
        let ghost r0 = *r;
        let mut a: u32 = *l;
        let mut b: u32 = *r;
        let mut k: usize = 0;
        while k < 8
            invariant
                k <= 8,
                (a, b) == encrypt_rounds(self@, l0, r0, k as nat),
            decreases 8 - k,
        {
            a = a ^ self.pbox[2 * k];
            b = b ^ self.round(a);
            b = b ^ self.pbox[2 * k + 1];
            a = a ^ self.round(b);
            k = k + 1;
        }
        *l = b ^ self.pbox[17];
        *r = a ^ self.pbox[16];
    }

    /// Decrypts the word pair `(l, r)` in place.
    pub fn decrypt_lr(&self, l: &mut u32, r: &mut u32)
        ensures
            (*final(l), *final(r)) == decrypt_words(self@, *old(l), *old(r)),
    {
        let ghost l0 = *l;
        let ghost r0 = *r;
        let mut a: u32 = *l;
        let mut b: u32 = *r;
        let mut k: usize = 0;
        while k < 8
            invariant
                k <= 8,
                (a, b) == decrypt_rounds(self@, l0, r0, k as nat),
            decreases 8 - k,
        {
            let m: usize = 8 - k;
            a = a ^ self.pbox[2 * m + 1];
            b = b ^ self.round(a);
            b = b ^ self.pbox[2 * m];
            a = a ^ self.round(b);
            k = k + 1;
        }
        *l = b ^ self.pbox[0];
        *r = a ^ self.pbox[1];
    }

    /// Encrypts one 8-byte block in place.
    pub fn encrypt_block(&self, block: &mut [u8; 8])
        ensures
            final(block)@ == encrypt_block_bytes(self@, old(block)@),
    {
        let mut l = word_from_bytes(block[0], block[1], block[2], block[3]);
        let mut r = word_from_bytes(block[4], block[5], block[6], block[7]);
        self.encrypt_lr(&mut l, &mut r);
        store_word(block, 0, l);
        store_word(block, 4, r);
        assert(block@ =~= block_of_words((l, r)));
    }

    /// Decrypts one 8-byte block in place.
    pub fn decrypt_block(&self, block: &mut [u8; 8])
        ensures
            final(block)@ == decrypt_block_bytes(self@, old(block)@),
    {
        let mut l = word_from_bytes(block[0], block[1], block[2], block[3]);
        let mut r = word_from_bytes(block[4], block[5], block[6], block[7]);
        self.decrypt_lr(&mut l, &mut r);
        store_word(block, 0, l);
        store_word(block, 4, r);
        assert(block@ =~= block_of_words((l, r)));
    }

    /// Mixes `key` into the initial tables and then rewrites every table entry, pair by pair,
    /// with the encryption of the pair carried from the previous step.
    fn key_schedule(&mut self, key: &[u8])
        requires
            valid_key_len(key@.len() as int),
            old(self).pbox == INITIAL_PBOX,
            old(self).sbox == INITIAL_SBOX,
        ensures
            final(self)@ == key_schedule(key@),
    {
        let n = key.len();
        let mut i: usize = 0;
        while i < 18
            invariant
                i <= 18,
                n == key@.len(),
                valid_key_len(n as int),
                self.sbox == INITIAL_SBOX,
                forall|j: int| 0 <= j < i ==> self.pbox@[j] == INITIAL_PBOX@[j] ^ key_stream_word(key@, j),
                forall|j: int| i <= j < 18 ==> self.pbox@[j] == INITIAL_PBOX@[j],
            decreases 18 - i,
        {
            let w = word_from_bytes(
                key[(4 * i) % n],
                key[(4 * i + 1) % n],
                key[(4 * i + 2) % n],
                key[(4 * i + 3) % n],
            );
            self.pbox[i] = self.pbox[i] ^ w;
            i = i + 1;
        }
        assert(self@.pbox =~= mixed_tables(key@).pbox);

        let mut l: u32 = 0;
        let mut r: u32 = 0;
        let mut k: usize = 0;
        while k < 9
            invariant
                k <= 9,
                (ScheduleState { tables: self@, l, r }) == schedule_pbox(key@, k as nat),
            decreases 9 - k,
        {
            let ghost before = ScheduleState { tables: self@, l, r };
            self.encrypt_lr(&mut l, &mut r);
            self.pbox[2 * k] = l;
            self.pbox[2 * k + 1] = r;
            assert(self@.pbox =~= pbox_step(before, k as int).tables.pbox);
            assert(self@.sbox =~= pbox_step(before, k as int).tables.sbox);
            k = k + 1;
        }

        let mut i: usize = 0;
        while i < 4
            invariant
                i <= 4,
                (ScheduleState { tables: self@, l, r }) == if i == 0 {
                    schedule_pbox(key@, 9)
                } else {
                    schedule_sbox(key@, (i - 1) as nat, 128)
                },
            decreases 4 - i,
        {
            let mut k: usize = 0;
            while k < 128
                invariant
                    i < 4,
                    k <= 128,
                    (ScheduleState { tables: self@, l, r }) == schedule_sbox(key@, i as nat, k as nat),
                decreases 128 - k,
            {
                let ghost before = ScheduleState { tables: self@, l, r };
                self.encrypt_lr(&mut l, &mut r);
                self.sbox[i][2 * k] = l;
                self.sbox[i][2 * k + 1] = r;
                let ghost after = sbox_step(before, i as int, k as int);
                assert(self@.sbox[i as int] =~= after.tables.sbox[i as int]);
                assert(self@.sbox =~= after.tables.sbox);
                assert(self@.pbox =~= after.tables.pbox);
                k = k + 1;
            }
            i = i + 1;
        }
    }
}

} // verus!
