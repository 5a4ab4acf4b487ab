//! ChaCha20 stream cipher: the quarter-round mixing primitive, the 16-word
//! state with its 20-round block transform, and the counter-mode keystream
//! driver that encrypts (and, being an XOR, equally decrypts) a byte buffer
//! in place.

pub mod chacha;
pub mod cipher;
pub mod model;
