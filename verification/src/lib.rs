//! A seedable, reproducible random number source together with a small
//! obfuscation scheme for the seed.
//!
//! The crate has two layers. The byte transform layer ([`mask`]) offers a keyed
//! XOR mask and a position shuffle on top of it, so that a numeric seed travels
//! masked rather than in the clear. The generator layer ([`rng`]) owns one
//! ChaCha12 generator, seeded from a plain or a masked seed ([`seed`]), and
//! hands out its words one after another.
//!
//! Every function carries a contract over `Seq<u8>` models of its byte
//! arguments and over the stream of words that a generator holds; the laws
//! that relate the functions to each other are public proof functions in
//! [`laws`].

pub mod error;
pub mod laws;
pub mod mask;
pub mod rng;
pub mod seed;

pub use crate::error::XorError;
pub use crate::mask::{
    confuse, xor_encrypt, xor_encrypt_confusion, xor_unencrypt_clarity, MIN_KEY_LEN,
};
pub use crate::rng::SecureRng;
pub use crate::seed::{clock_seed, seed_from_le_bytes};
