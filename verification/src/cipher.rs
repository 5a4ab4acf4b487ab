//! The counter-mode keystream driver: a `Cipher` holds an immutable key and
//! nonce, derives a fresh state per 64-byte block, and XORs the keystream
//! into a byte buffer in place. Encryption and decryption are the same
//! operation, since XOR is self-inverse.

use crate::chacha::State;
use crate::model::{block_bytes_of_state, counter_for, keystream, xor_bytes};
use vstd::arithmetic::div_mod::{
    lemma_add_mod_noop, lemma_div_multiples_vanish, lemma_div_multiples_vanish_fancy,
    lemma_fundamental_div_mod, lemma_mod_bound, lemma_mod_multiples_vanish, lemma_small_mod,
};
use vstd::prelude::*;

verus! {

/// Incrementing the counter word of block `k` with a wrapping add yields the
/// counter word of block `k + 1`.
proof fn lemma_counter_step(start: u32, k: nat)
    ensures
        counter_for(start, k).wrapping_add(1) == counter_for(start, k + 1),
{
    let m: int = 0x1_0000_0000;
    lemma_mod_bound(start + k, m);
    lemma_small_mod(1, m as nat);
    lemma_add_mod_noop(start + k, 1, m);
    let c: int = (start + k) % m;
    if c + 1 == m {
        assert((c + 1) % m == 0) by {
            lemma_mod_multiples_vanish(1, 0, m);
        }
    } else {
        assert((c + 1) % m == c + 1) by {
            lemma_small_mod((c + 1) as nat, m as nat);
        }
    }
}

/// A byte index in the half-open range of one block splits as expected:
/// when `pos` is a multiple of 64 and `pos <= t < pos + 64`, byte `t` lies
/// in block `pos / 64` at offset `t - pos`.
proof fn lemma_block_index(pos: int, t: int)
    requires
        0 <= pos,
        pos % 64 == 0,
        pos <= t < pos + 64,
    ensures
        t / 64 == pos / 64,
        t % 64 == t - pos,
{
    let q = pos / 64;
    let r = t - pos;
    lemma_fundamental_div_mod(pos, 64);
    lemma_div_multiples_vanish_fancy(q, r, 64);
    lemma_mod_multiples_vanish(q, r, 64);
    lemma_small_mod(r as nat, 64);
}

/// A ChaCha20 cipher instance: an immutable 256-bit key and 96-bit nonce.
/// A fresh state is derived from them for every block request.
pub struct Cipher {
    pub key: [u8; 32],
    pub nonce: [u8; 12],
}

impl Cipher {
    /// A cipher holding the given key and nonce.
    pub fn new(key: [u8; 32], nonce: [u8; 12]) -> (c: Cipher)
        ensures
            c.key@ == key@,
            c.nonce@ == nonce@,
    {
        Cipher { key, nonce }
    }

    /// XOR the keystream for `(key, nonce, start_counter)` into `buf` in
    /// place. Running the same call again restores the buffer, so this one
    /// routine both encrypts and decrypts.
    ///
    /// The block counter wraps modulo 2^32. It is the caller's obligation
    /// never to let one `(key, nonce, counter)` triple produce keystream
    /// twice — neither by reusing the triple across calls nor by encrypting
    /// more than 2^32 blocks in one call — since a repeated keystream breaks
    /// confidentiality. The primitive itself cannot detect such reuse.
    pub fn encrypt(&self, buf: &mut Vec<u8>, start_counter: u32)
        ensures
            final(buf)@ == xor_bytes(
                old(buf)@,
                keystream(self.key@, self.nonce@, start_counter, old(buf)@.len()),
            ),
    {
        let ghost ks = keystream(self.key@, self.nonce@, start_counter, old(buf)@.len());
        let len = buf.len();
        let mut pos: usize = 0;
        let mut counter: u32 = start_counter;
        while pos < len
            invariant
                buf@.len() == len,
                len == old(buf)@.len(),
                ks == keystream(self.key@, self.nonce@, start_counter, old(buf)@.len()),
                pos <= len,
                pos % 64 == 0 || pos == len,
                counter == counter_for(start_counter, (pos / 64) as nat) || pos == len,
                forall|t: int| 0 <= t < pos ==> buf@[t] == (old(buf)@[t] ^ ks[t]),
                forall|t: int| pos <= t < len ==> buf@[t] == old(buf)@[t],
            decreases len - pos,
        {
            let mut st = State::new(self.key, self.nonce, counter);
            let ks_block = st.block();
            let remaining = len - pos;
            let n = if remaining < 64 {
                remaining
            } else {
                64
            };
            let mut j: usize = 0;
            while j < n
                invariant
                    j <= n,
                    n <= 64,
                    pos + n <= len,
                    buf@.len() == len,
                    forall|t: int| 0 <= t < pos ==> buf@[t] == (old(buf)@[t] ^ ks[t]),
                    forall|t: int| 0 <= t < j ==> buf@[pos + t] == (old(buf)@[pos + t]
                        ^ ks_block@[t]),
                    forall|t: int| pos + j <= t < len ==> buf@[t] == old(buf)@[t],
                decreases n - j,
            {
                let b = buf[pos + j];
                buf[pos + j] = b ^ ks_block[j];
                j += 1;
            }
            proof {
                assert forall|t: int| pos <= t < pos + n implies ks[t] == ks_block@[t - pos] by {
                    lemma_block_index(pos as int, t);
                }
                lemma_counter_step(start_counter, (pos / 64) as nat);
                if n == 64 {
                    assert(pos + 64 == 64 * (pos / 64 + 1)) by {
                        lemma_fundamental_div_mod(pos as int, 64);
                    }
                    assert((pos + 64) / 64 == pos / 64 + 1) by {
                        lemma_div_multiples_vanish(pos / 64 + 1, 64);
                    }
                    assert((pos + 64) % 64 == 0) by {
                        lemma_mod_multiples_vanish(pos / 64 + 1, 0, 64);
                        lemma_small_mod(0, 64);
                    }
                }
            }
            pos += n;
            counter = counter.wrapping_add(1);
        }
        proof {
            assert(buf@ =~= xor_bytes(old(buf)@, ks));
        }
    }
}

/// Round-trip law: XORing a buffer with a keystream twice restores the
/// buffer, for every key, nonce, starting counter, and buffer. Together with
/// `Cipher::encrypt`'s contract, this says that encrypting a buffer and then
/// encrypting the result with the same key, nonce, and starting counter
/// yields the original buffer.
pub proof fn lemma_encrypt_round_trip(key: Seq<u8>, nonce: Seq<u8>, start: u32, buf: Seq<u8>)
    ensures
        xor_bytes(
            xor_bytes(buf, keystream(key, nonce, start, buf.len())),
            keystream(key, nonce, start, buf.len()),
        ) == buf,
{
    let ks = keystream(key, nonce, start, buf.len());
    let twice = xor_bytes(xor_bytes(buf, ks), ks);
    assert forall|i: int| 0 <= i < buf.len() implies twice[i] == buf[i] by {
        let b = buf[i];
        let k = ks[i];
        assert((b ^ k) ^ k == b) by (bit_vector);
    }
    assert(twice =~= buf);
}

/// Block determinism: two states holding the same sixteen words produce the
/// same 64 output bytes, as `State::block` has no hidden state or
/// randomness — its output is pinned to a function of the input words.
pub proof fn lemma_block_deterministic(s1: Seq<u32>, s2: Seq<u32>)
    requires
        s1 == s2,
    ensures
        block_bytes_of_state(s1) == block_bytes_of_state(s2),
{
}

/// Boundary law: the keystream for an empty buffer is empty, so encrypting
/// a buffer of length 0 is a no-op.
pub proof fn lemma_encrypt_empty(key: Seq<u8>, nonce: Seq<u8>, start: u32, buf: Seq<u8>)
    requires
        buf.len() == 0,
    ensures
        xor_bytes(buf, keystream(key, nonce, start, buf.len())) == buf,
{
    assert(xor_bytes(buf, keystream(key, nonce, start, buf.len())) =~= buf);
}

/// Boundary law: an encryption's result has exactly the buffer's length,
/// whatever the length — the final block is consumed only as far as the
/// buffer reaches, and no trailing bytes are produced or kept.
pub proof fn lemma_encrypt_preserves_len(key: Seq<u8>, nonce: Seq<u8>, start: u32, buf: Seq<u8>)
    ensures
        xor_bytes(buf, keystream(key, nonce, start, buf.len())).len() == buf.len(),
{
}

} // verus!
