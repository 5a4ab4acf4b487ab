//! The ChaCha20 working state and its transforms: the quarter round, the
//! double round (`inner_block`), the feed-forward addition, and the block
//! function that turns one state into 64 keystream bytes.

use crate::model::{
    add_words, block_bytes_of_state, block_words, double_round, double_rounds, init_words,
    quarter_round_words, rotl, serialize_words, state_quarter_round, word_from_le_bytes,
    word_le_byte, CONSTANT_0, CONSTANT_1, CONSTANT_2, CONSTANT_3,
};
use vstd::prelude::*;

verus! {

/// The 16-word ChaCha20 register: four constants, eight key words, the block
/// counter, and three nonce words. Any sixteen words form a valid state, so
/// the register is public.
#[derive(Clone, Copy, Debug, PartialEq, Eq)]
pub struct State {
    pub x: [u32; 16],
}

/// Left rotation of `x` by `n` bits, `1 <= n < 32`.
pub fn rotation_n(n: usize, x: u32) -> (r: u32)
    requires
        1 <= n < 32,
    ensures
        r == rotl(x, n as u32),
{
    let m: u32 = n as u32;
    (x << m) | (x >> (32 - m))
}

/// One quarter round over four words: four add-rotate-xor steps, additions
/// wrapping modulo 2^32, rotations by 16, 12, 8, and 7 bits.
pub fn quarter_round(a: u32, b: u32, c: u32, d: u32) -> (r: (u32, u32, u32, u32))
    ensures
        r == quarter_round_words(a, b, c, d),
{
    let a = a.wrapping_add(b);
    let d = rotation_n(16, d ^ a);

    let c = c.wrapping_add(d);
    let b = rotation_n(12, b ^ c);

    let a = a.wrapping_add(b);
    let d = rotation_n(8, d ^ a);

    let c = c.wrapping_add(d);
    let b = rotation_n(7, b ^ c);

    (a, b, c, d)
}

/// A 32-bit word assembled from four bytes in little-endian order: an
/// explicit decode, so the layout is the same on any host byte order.
pub fn word_from_le(b0: u8, b1: u8, b2: u8, b3: u8) -> (w: u32)
    ensures
        w == word_from_le_bytes(b0, b1, b2, b3),
{
    (b0 as u32) | ((b1 as u32) << 8u32) | ((b2 as u32) << 16u32) | ((b3 as u32) << 24u32)
}

impl State {
    /// The initial state for a key, nonce, and block counter: the four
    /// constants, the key as eight little-endian words, the counter, and
    /// the nonce as three little-endian words.
    pub fn new(key: [u8; 32], nonce: [u8; 12], counter: u32) -> (s: State)
        ensures
            s.x@ == init_words(key@, nonce@, counter),
    {
        let x: [u32; 16] = [
            CONSTANT_0,
            CONSTANT_1,
            CONSTANT_2,
            CONSTANT_3,
            word_from_le(key[0], key[1], key[2], key[3]),
            word_from_le(key[4], key[5], key[6], key[7]),
            word_from_le(key[8], key[9], key[10], key[11]),
            word_from_le(key[12], key[13], key[14], key[15]),
            word_from_le(key[16], key[17], key[18], key[19]),
            word_from_le(key[20], key[21], key[22], key[23]),
            word_from_le(key[24], key[25], key[26], key[27]),
            word_from_le(key[28], key[29], key[30], key[31]),
            counter,
            word_from_le(nonce[0], nonce[1], nonce[2], nonce[3]),
            word_from_le(nonce[4], nonce[5], nonce[6], nonce[7]),
            word_from_le(nonce[8], nonce[9], nonce[10], nonce[11]),
        ];
        proof {
            assert(x@ =~= init_words(key@, nonce@, counter));
        }
        State { x }
    }

    /// A quarter round applied in place to the words at indices
    /// `ai`, `bi`, `ci`, `di`.
    pub fn quarter_round(&mut self, ai: usize, bi: usize, ci: usize, di: usize)
        requires
            ai < 16,
            bi < 16,
            ci < 16,
            di < 16,
        ensures
            final(self).x@ == state_quarter_round(
                old(self).x@,
                ai as int,
                bi as int,
                ci as int,
                di as int,
            ),
    {
        let a = self.x[ai];
        let b = self.x[bi];
        let c = self.x[ci];
        let d = self.x[di];

        let (a, b, c, d) = quarter_round(a, b, c, d);

        self.x[ai] = a;
        self.x[bi] = b;
        self.x[ci] = c;
        self.x[di] = d;
    }

    /// One double round: the four column quarter rounds, then the four
    /// diagonal quarter rounds.
    pub fn inner_block(&mut self)
        ensures
            final(self).x@ == double_round(old(self).x@),
    {
        // column rounds
        self.quarter_round(0, 4, 8, 12);
        self.quarter_round(1, 5, 9, 13);
        self.quarter_round(2, 6, 10, 14);
        self.quarter_round(3, 7, 11, 15);

        // diagonal rounds
        self.quarter_round(0, 5, 10, 15);
        self.quarter_round(1, 6, 11, 12);
        self.quarter_round(2, 7, 8, 13);
        self.quarter_round(3, 4, 9, 14);
    }

    /// Word-wise addition of another state into this one, each addition
    /// wrapping modulo 2^32 (the feed-forward step of the block function).
    pub fn add(&mut self, other: &State)
        ensures
            final(self).x@ == add_words(old(self).x@, other.x@),
    {
        let mut i: usize = 0;
        while i < 16
            invariant
                i <= 16,
                forall|j: int| 0 <= j < i ==> self.x@[j] == old(self).x@[j].wrapping_add(other.x@[j]),
                forall|j: int| i <= j < 16 ==> self.x@[j] == old(self).x@[j],
            decreases 16 - i,
        {
            self.x[i] = self.x[i].wrapping_add(other.x[i]);
            i += 1;
        }
        proof {
            assert(self.x@ =~= add_words(old(self).x@, other.x@));
        }
    }

    /// The 64 bytes of this state: each word written little-endian, in
    /// index order.
    pub fn serialize(&self) -> (out: [u8; 64])
        ensures
            out@ == serialize_words(self.x@),
    {
        let mut out: [u8; 64] = [0u8; 64];
        let mut i: usize = 0;
        while i < 16
            invariant
                i <= 16,
                forall|j: int| 0 <= j < 4 * i ==> out@[j] == word_le_byte(self.x@[j / 4], j % 4),
            decreases 16 - i,
        {
            let w = self.x[i];
            out[4 * i] = (w & 0xff) as u8;
            out[4 * i + 1] = ((w >> 8u32) & 0xff) as u8;
            out[4 * i + 2] = ((w >> 16u32) & 0xff) as u8;
            out[4 * i + 3] = ((w >> 24u32) & 0xff) as u8;
            i += 1;
        }
        proof {
            assert(out@ =~= serialize_words(self.x@));
        }
        out
    }

    /// The block function: run ten double rounds on a copy of this state,
    /// add the copy back into this state word-wise (the feed-forward), and
    /// return the result as 64 little-endian bytes.
    pub fn block(&mut self) -> (out: [u8; 64])
        ensures
            final(self).x@ == block_words(old(self).x@),
            out@ == block_bytes_of_state(old(self).x@),
    {
        let mut state = self.clone();
        let mut i: usize = 0;
        while i < 10
            invariant
                i <= 10,
                state.x@ == double_rounds(old(self).x@, i as nat),
                *self == *old(self),
            decreases 10 - i,
        {
            state.inner_block();
            i += 1;
        }
        self.add(&state);

        self.serialize()
    }
}

} // verus!
