use chacha20::cipher::Cipher;

fn rfc_key() -> [u8; 32] {
    let mut key = [0u8; 32];
    let mut i = 0;
    while i < 32 {
        key[i] = i as u8;
        i += 1;
    }
    key
}

const RFC_NONCE: [u8; 12] = [
    0x00, 0x00, 0x00, 0x00, 0x00, 0x00, 0x00, 0x4a, 0x00, 0x00, 0x00, 0x00,
];

const RFC_PLAINTEXT: &[u8] = b"Ladies and Gentlemen of the class of '99: \
If I could offer you only one tip for the future, sunscreen would be it.";

const RFC_CIPHERTEXT: [u8; 114] = [
    0x6e, 0x2e, 0x35, 0x9a, 0x25, 0x68, 0xf9, 0x80, 0x41, 0xba, 0x07, 0x28, 0xdd, 0x0d, 0x69,
    0x81, 0xe9, 0x7e, 0x7a, 0xec, 0x1d, 0x43, 0x60, 0xc2, 0x0a, 0x27, 0xaf, 0xcc, 0xfd, 0x9f,
    0xae, 0x0b, 0xf9, 0x1b, 0x65, 0xc5, 0x52, 0x47, 0x33, 0xab, 0x8f, 0x59, 0x3d, 0xab, 0xcd,
    0x62, 0xb3, 0x57, 0x16, 0x39, 0xd6, 0x24, 0xe6, 0x51, 0x52, 0xab, 0x8f, 0x53, 0x0c, 0x35,
    0x9f, 0x08, 0x61, 0xd8, 0x07, 0xca, 0x0d, 0xbf, 0x50, 0x0d, 0x6a, 0x61, 0x56, 0xa3, 0x8e,
    0x08, 0x8a, 0x22, 0xb6, 0x5e, 0x52, 0xbc, 0x51, 0x4d, 0x16, 0xcc, 0xf8, 0x06, 0x81, 0x8c,
    0xe9, 0x1a, 0xb7, 0x79, 0x37, 0x36, 0x5a, 0xf9, 0x0b, 0xbf, 0x74, 0xa3, 0x5b, 0xe6, 0xb4,
    0x0b, 0x8e, 0xed, 0xf2, 0x78, 0x5e, 0x42, 0x87, 0x4d,
];

const ZERO_KEYSTREAM: [u8; 64] = [
    0x76, 0xb8, 0xe0, 0xad, 0xa0, 0xf1, 0x3d, 0x90, 0x40, 0x5d, 0x6a, 0xe5, 0x53, 0x86, 0xbd,
    0x28, 0xbd, 0xd2, 0x19, 0xb8, 0xa0, 0x8d, 0xed, 0x1a, 0xa8, 0x36, 0xef, 0xcc, 0x8b, 0x77,
    0x0d, 0xc7, 0xda, 0x41, 0x59, 0x7c, 0x51, 0x57, 0x48, 0x8d, 0x77, 0x24, 0xe0, 0x3f, 0xb8,
    0xd8, 0x4a, 0x37, 0x6a, 0x43, 0xb8, 0xf4, 0x15, 0x18, 0xa1, 0x1c, 0xc3, 0x87, 0xb6, 0x69,
    0xb2, 0xee, 0x65, 0x86,
];

#[test]
fn test_rfc8439_encrypt() {
    let cipher = Cipher::new(rfc_key(), RFC_NONCE);
    let mut buf = RFC_PLAINTEXT.to_vec();
    assert_eq!(buf.len(), 114);
    cipher.encrypt(&mut buf, 1);
    assert_eq!(buf, RFC_CIPHERTEXT.to_vec());
}

#[test]
fn test_rfc8439_decrypt() {
    let cipher = Cipher::new(rfc_key(), RFC_NONCE);
    let mut buf = RFC_CIPHERTEXT.to_vec();
    cipher.encrypt(&mut buf, 1);
    assert_eq!(buf, RFC_PLAINTEXT.to_vec());
}

#[test]
fn test_zero_key_keystream() {
    let cipher = Cipher::new([0u8; 32], [0u8; 12]);
    let mut buf = vec![0u8; 64];
    cipher.encrypt(&mut buf, 0);
    assert_eq!(buf, ZERO_KEYSTREAM.to_vec());
}

#[test]
fn test_encrypt_round_trip() {
    let key = [0xa5u8; 32];
    let nonce = [0x5au8; 12];
    let cipher = Cipher::new(key, nonce);
    let original: Vec<u8> = (0..150u32).map(|i| (i * 7 + 3) as u8).collect();
    let mut buf = original.clone();
    cipher.encrypt(&mut buf, 42);
    assert_ne!(buf, original);
    cipher.encrypt(&mut buf, 42);
    assert_eq!(buf, original);
}

#[test]
fn test_encrypt_empty() {
    let cipher = Cipher::new([0x13u8; 32], [0x37u8; 12]);
    let mut buf: Vec<u8> = Vec::new();
    cipher.encrypt(&mut buf, 9);
    assert_eq!(buf, Vec::<u8>::new());
}

#[test]
fn test_encrypt_partial_block() {
    // 70 zero bytes: the first 64 are the counter-0 block, the last 6 the
    // start of the counter-1 block, and the length stays 70.
    let cipher = Cipher::new([0u8; 32], [0u8; 12]);
    let mut buf = vec![0u8; 70];
    cipher.encrypt(&mut buf, 0);
    assert_eq!(buf.len(), 70);
    assert_eq!(&buf[..64], &ZERO_KEYSTREAM[..]);
    assert_eq!(&buf[64..], &[0x9f, 0x07, 0xe7, 0xbe, 0x55, 0x51][..]);
}

#[test]
fn test_encrypt_counter_wraps() {
    // A keystream that starts at the largest counter wraps to counter 0 for
    // its second block: the second block here equals the zero-counter block.
    let cipher = Cipher::new([0u8; 32], [0u8; 12]);
    let mut buf = vec![0u8; 128];
    cipher.encrypt(&mut buf, 0xffff_ffff);
    assert_eq!(&buf[64..], &ZERO_KEYSTREAM[..]);
}
