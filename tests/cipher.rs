use blowfish::{Blowfish, BlowfishError};

const KEY: [u8; 16] = [
    0x00, 0x11, 0x22, 0x33, 0x44, 0x55, 0x66, 0x77, 0x88, 0x99, 0xaa, 0xbb, 0xcc, 0xdd, 0xee, 0xff,
];

fn encrypt(key: &[u8], block: [u8; 8]) -> [u8; 8] {
    let bf = Blowfish::new(key).unwrap();
    let mut out = block;
    bf.encrypt_block(&mut out);
    out
}

#[test]
fn test_roundtrip_single_block_lr() {
    let bf = Blowfish::new(&[
        0x00, 0x11, 0x22, 0x33, 0x44, 0x55, 0x66, 0x77, 0x88, 0x99, 0xaa, 0xbb, 0xcc, 0xdd, 0xee,
        0xff,
    ])
    .unwrap();

    let l_orig = 0x6518a1f5;
    let r_orig = 0xc8d9b63c;

    let mut l = l_orig;
    let mut r = r_orig;
    bf.encrypt_lr(&mut l, &mut r);

    assert_eq!(l, 0xdac63686);
    assert_eq!(r, 0x1d70bd8a);

    bf.decrypt_lr(&mut l, &mut r);

    assert_eq!(l, l_orig);
    assert_eq!(r, r_orig);
}

#[test]
fn test_roundtrip_single_block() {
    let bf = Blowfish::new(&[
        0x00, 0x11, 0x22, 0x33, 0x44, 0x55, 0x66, 0x77, 0x88, 0x99, 0xaa, 0xbb, 0xcc, 0xdd, 0xee,
        0xff,
    ])
    .unwrap();

    let plaintext_orig = [0x65, 0x18, 0xa1, 0xf5, 0xc8, 0xd9, 0xb6, 0x3c];

    let mut ciphertext = plaintext_orig.clone();
    bf.encrypt_block(&mut ciphertext);

    assert_eq!(ciphertext, [0xda, 0xc6, 0x36, 0x86, 0x1d, 0x70, 0xbd, 0x8a]);

    bf.decrypt_block(&mut ciphertext);

    assert_eq!(ciphertext, plaintext_orig);
}

#[test]
fn key_of_three_bytes_is_refused() {
    assert_eq!(Blowfish::new(&[1, 2, 3]).err(), Some(BlowfishError::Keysize));
}

#[test]
fn key_of_four_bytes_is_accepted() {
    assert!(Blowfish::new(&[1, 2, 3, 4]).is_ok());
}

#[test]
fn key_of_fifty_six_bytes_is_accepted() {
    assert!(Blowfish::new(&[7u8; 56]).is_ok());
}

#[test]
fn key_of_fifty_seven_bytes_is_refused() {
    assert_eq!(Blowfish::new(&[7u8; 57]).err(), Some(BlowfishError::Keysize));
}

#[test]
fn empty_key_is_refused() {
    assert_eq!(Blowfish::new(&[]).err(), Some(BlowfishError::Keysize));
}

#[test]
fn keysize_error_describes_itself() {
    assert_eq!(BlowfishError::Keysize.description(), "Invalid keysize");
}

#[test]
fn zero_key_zero_block_vector() {
    assert_eq!(encrypt(&[0u8; 8], [0u8; 8]), [0x4e, 0xf9, 0x97, 0x45, 0x61, 0x98, 0xdd, 0x78]);
}

#[test]
fn all_ones_key_and_block_vector() {
    assert_eq!(
        encrypt(&[0xffu8; 8], [0xffu8; 8]),
        [0x51, 0x86, 0x6f, 0xd5, 0xb8, 0x5e, 0xcb, 0x8a]
    );
}

#[test]
fn shortest_key_vector() {
    assert_eq!(
        encrypt(&[1, 2, 3, 4], [0x01, 0x23, 0x45, 0x67, 0x89, 0xab, 0xcd, 0xef]),
        [0x23, 0x3f, 0x5e, 0xe1, 0xe4, 0x84, 0xee, 0x26]
    );
}

#[test]
fn longest_key_vector() {
    let key: Vec<u8> = (1..=56).collect();
    assert_eq!(encrypt(&key, [0u8; 8]), [0xad, 0x9f, 0x57, 0xf8, 0x7c, 0x88, 0x55, 0xc1]);
}

#[test]
fn text_key_and_block_vector() {
    assert_eq!(
        encrypt(b"verysecretpasswd", *b"abcd1234"),
        [0x05, 0xae, 0xb2, 0xb5, 0x4b, 0x4a, 0x3a, 0x74]
    );
}

#[test]
fn block_form_matches_word_form() {
    let bf = Blowfish::new(&KEY).unwrap();
    let mut block = [0x01, 0x23, 0x45, 0x67, 0x89, 0xab, 0xcd, 0xef];
    bf.encrypt_block(&mut block);
    let mut l = 0x01234567u32;
    let mut r = 0x89abcdefu32;
    bf.encrypt_lr(&mut l, &mut r);
    assert_eq!(block[..4], l.to_be_bytes());
    assert_eq!(block[4..], r.to_be_bytes());
}

#[test]
fn block_round_trip_over_several_keys_and_blocks() {
    let keys: [&[u8]; 4] = [&[9, 8, 7, 6], &KEY, b"0123456789abcdef0123456789abcdef", &[0xa5u8; 56]];
    let blocks = [[0u8; 8], [0xffu8; 8], *b"abcd1234", [1, 2, 4, 8, 16, 32, 64, 128]];
    for key in keys {
        let bf = Blowfish::new(key).unwrap();
        for block in blocks {
            let mut b = block;
            bf.encrypt_block(&mut b);
            assert_ne!(b, block);
            bf.decrypt_block(&mut b);
            assert_eq!(b, block);
        }
    }
}

#[test]
fn word_pair_round_trip_over_several_pairs() {
    let bf = Blowfish::new(b"a key of some length").unwrap();
    for (l0, r0) in [(0u32, 0u32), (u32::MAX, 0), (0, u32::MAX), (0xdeadbeef, 0x01234567)] {
        let mut l = l0;
        let mut r = r0;
        bf.encrypt_lr(&mut l, &mut r);
        assert_ne!((l, r), (l0, r0));
        bf.decrypt_lr(&mut l, &mut r);
        assert_eq!((l, r), (l0, r0));
    }
}

#[test]
fn same_key_gives_same_ciphertext() {
    let a = Blowfish::new(&KEY).unwrap();
    let b = Blowfish::new(&KEY).unwrap();
    let mut x = *b"blockone";
    let mut y = *b"blockone";
    a.encrypt_block(&mut x);
    b.encrypt_block(&mut y);
    assert_eq!(x, y);
    let (mut l1, mut r1) = (0x11111111u32, 0x22222222u32);
    let (mut l2, mut r2) = (0x11111111u32, 0x22222222u32);
    a.encrypt_lr(&mut l1, &mut r1);
    b.encrypt_lr(&mut l2, &mut r2);
    assert_eq!((l1, r1), (l2, r2));
}

#[test]
fn different_keys_give_different_ciphertext() {
    let mut x = [0u8; 8];
    let mut y = [0u8; 8];
    Blowfish::new(&[1, 2, 3, 4]).unwrap().encrypt_block(&mut x);
    Blowfish::new(&[1, 2, 3, 5]).unwrap().encrypt_block(&mut y);
    assert_ne!(x, y);
}

#[test]
fn key_repeats_cyclically() {
    // A key and the same key written twice give the same tables.
    assert_eq!(encrypt(&[1, 2, 3, 4], *b"cyclical"), encrypt(&[1, 2, 3, 4, 1, 2, 3, 4], *b"cyclical"));
}
