//! Mathematical model of ChaCha20: the quarter round, the double round, the
//! block function with its feed-forward, little-endian (de)serialization, and
//! the counter-mode keystream, all as spec functions over sequences of words
//! and bytes.

use vstd::prelude::*;

verus! {

/// First word of the constant row, the ASCII of "expa" read little-endian.
pub const CONSTANT_0: u32 = 0x61707865;

/// Second word of the constant row, the ASCII of "nd 3" read little-endian.
pub const CONSTANT_1: u32 = 0x3320646e;

/// Third word of the constant row, the ASCII of "2-by" read little-endian.
pub const CONSTANT_2: u32 = 0x79622d32;

/// Fourth word of the constant row, the ASCII of "te k" read little-endian.
pub const CONSTANT_3: u32 = 0x6b206574;

/// Left rotation of a 32-bit word by `n` bits, for `1 <= n < 32`.
pub open spec fn rotl(x: u32, n: u32) -> u32
    recommends
        1 <= n < 32,
{
    (x << n) | (x >> ((32 - n) as u32))
}

/// One quarter round: four add-rotate-xor steps over four words, with all
/// additions wrapping modulo 2^32 and the fixed rotation amounts 16, 12, 8, 7.
pub open spec fn quarter_round_words(a: u32, b: u32, c: u32, d: u32) -> (u32, u32, u32, u32) {
    let a1 = a.wrapping_add(b);
    let d1 = rotl(d ^ a1, 16);
    let c1 = c.wrapping_add(d1);
    let b1 = rotl(b ^ c1, 12);
    let a2 = a1.wrapping_add(b1);
    let d2 = rotl(d1 ^ a2, 8);
    let c2 = c1.wrapping_add(d2);
    let b2 = rotl(b1 ^ c2, 7);
    (a2, b2, c2, d2)
}

/// A quarter round applied in place to the state words at indices
/// `ai`, `bi`, `ci`, `di`.
pub open spec fn state_quarter_round(s: Seq<u32>, ai: int, bi: int, ci: int, di: int) -> Seq<u32>
    recommends
        s.len() == 16,
        0 <= ai < 16,
        0 <= bi < 16,
        0 <= ci < 16,
        0 <= di < 16,
{
    let (a, b, c, d) = quarter_round_words(s[ai], s[bi], s[ci], s[di]);
    s.update(ai, a).update(bi, b).update(ci, c).update(di, d)
}

/// One double round: the four column quarter rounds followed by the four
/// diagonal quarter rounds.
pub open spec fn double_round(s: Seq<u32>) -> Seq<u32>
    recommends
        s.len() == 16,
{
    let s = state_quarter_round(s, 0, 4, 8, 12);
    let s = state_quarter_round(s, 1, 5, 9, 13);
    let s = state_quarter_round(s, 2, 6, 10, 14);
    let s = state_quarter_round(s, 3, 7, 11, 15);
    let s = state_quarter_round(s, 0, 5, 10, 15);
    let s = state_quarter_round(s, 1, 6, 11, 12);
    let s = state_quarter_round(s, 2, 7, 8, 13);
    state_quarter_round(s, 3, 4, 9, 14)
}

/// `n` double rounds in a row; ten of them make the 20 rounds of ChaCha20.
pub open spec fn double_rounds(s: Seq<u32>, n: nat) -> Seq<u32>
    recommends
        s.len() == 16,
    decreases n,
{
    if n == 0 {
        s
    } else {
        double_round(double_rounds(s, (n - 1) as nat))
    }
}

/// Word-wise sum of two 16-word states, each addition wrapping modulo 2^32.
pub open spec fn add_words(s: Seq<u32>, t: Seq<u32>) -> Seq<u32>
    recommends
        s.len() == 16,
        t.len() == 16,
{
    Seq::new(16, |i: int| s[i].wrapping_add(t[i]))
}

/// Byte `j` (0 = least significant) of a word written little-endian.
pub open spec fn word_le_byte(w: u32, j: int) -> u8
    recommends
        0 <= j < 4,
{
    if j == 0 {
        (w & 0xff) as u8
    } else if j == 1 {
        ((w >> 8u32) & 0xff) as u8
    } else if j == 2 {
        ((w >> 16u32) & 0xff) as u8
    } else {
        ((w >> 24u32) & 0xff) as u8
    }
}

/// The 64 bytes of a 16-word state: each word written little-endian, in
/// index order.
pub open spec fn serialize_words(s: Seq<u32>) -> Seq<u8>
    recommends
        s.len() == 16,
{
    Seq::new(64, |i: int| word_le_byte(s[i / 4], i % 4))
}

/// A 32-bit word assembled from four bytes in little-endian order.
pub open spec fn word_from_le_bytes(b0: u8, b1: u8, b2: u8, b3: u8) -> u32 {
    (b0 as u32) | ((b1 as u32) << 8u32) | ((b2 as u32) << 16u32) | ((b3 as u32) << 24u32)
}

/// Word `i` of a byte string read as little-endian 32-bit words.
pub open spec fn le_word_at(bytes: Seq<u8>, i: int) -> u32
    recommends
        0 <= i,
        4 * i + 4 <= bytes.len(),
{
    word_from_le_bytes(bytes[4 * i], bytes[4 * i + 1], bytes[4 * i + 2], bytes[4 * i + 3])
}

/// The initial 16-word state for a key, nonce, and block counter: the four
/// constants, the key as eight little-endian words, the counter, and the
/// nonce as three little-endian words.
pub open spec fn init_words(key: Seq<u8>, nonce: Seq<u8>, counter: u32) -> Seq<u32>
    recommends
        key.len() == 32,
        nonce.len() == 12,
{
    seq![
        CONSTANT_0,
        CONSTANT_1,
        CONSTANT_2,
        CONSTANT_3,
        le_word_at(key, 0),
        le_word_at(key, 1),
        le_word_at(key, 2),
        le_word_at(key, 3),
        le_word_at(key, 4),
        le_word_at(key, 5),
        le_word_at(key, 6),
        le_word_at(key, 7),
        counter,
        le_word_at(nonce, 0),
        le_word_at(nonce, 1),
        le_word_at(nonce, 2),
    ]
}

/// The words a state holds after the block function: ten double rounds,
/// then the original state added back in word-wise (the feed-forward).
pub open spec fn block_words(s: Seq<u32>) -> Seq<u32>
    recommends
        s.len() == 16,
{
    add_words(s, double_rounds(s, 10))
}

/// The 64 keystream bytes produced from one state.
pub open spec fn block_bytes_of_state(s: Seq<u32>) -> Seq<u8>
    recommends
        s.len() == 16,
{
    serialize_words(block_words(s))
}

/// The 64 keystream bytes for a key, nonce, and block counter.
pub open spec fn block_bytes(key: Seq<u8>, nonce: Seq<u8>, counter: u32) -> Seq<u8>
    recommends
        key.len() == 32,
        nonce.len() == 12,
{
    block_bytes_of_state(init_words(key, nonce, counter))
}

/// The counter for block `k` of a keystream that starts at `start`:
/// the counter word wraps modulo 2^32.
pub open spec fn counter_for(start: u32, k: nat) -> u32 {
    ((start + k) % 0x1_0000_0000) as u32
}

/// `len` bytes of keystream: byte `i` is byte `i % 64` of the block whose
/// counter is `start + i / 64`, wrapping modulo 2^32.
pub open spec fn keystream(key: Seq<u8>, nonce: Seq<u8>, start: u32, len: nat) -> Seq<u8>
    recommends
        key.len() == 32,
        nonce.len() == 12,
{
    Seq::new(len, |i: int| block_bytes(key, nonce, counter_for(start, (i / 64) as nat))[i % 64])
}

/// Byte-wise XOR of two equal-length byte strings.
pub open spec fn xor_bytes(a: Seq<u8>, b: Seq<u8>) -> Seq<u8>
    recommends
        a.len() == b.len(),
{
    Seq::new(a.len(), |i: int| a[i] ^ b[i])
}

} // verus!
