//! The plain seed: a 64-bit number that travels as eight bytes, least
//! significant byte first, and is recovered from a masked payload or taken
//! from a reading of the clock.

use vstd::prelude::*;
use vstd::bytes::{
    lemma_auto_spec_u64_to_from_le_bytes, spec_u64_from_le_bytes, spec_u64_to_le_bytes_open,
    spec_u64_to_le_bytes_to_open, u64_from_le_bytes,
};
use crate::error::XorError;
use crate::mask::{xor_encrypt_spec, xor_unencrypt_clarity_spec};

verus! {

/// The eight bytes that spell `seed`, least significant byte first.
pub open spec fn le_bytes(seed: u64) -> Seq<u8> {
    seq![
        (seed % 0x100) as u8,
        (seed / 0x100 % 0x100) as u8,
        (seed / 0x1_0000 % 0x100) as u8,
        (seed / 0x100_0000 % 0x100) as u8,
        (seed / 0x1_0000_0000 % 0x100) as u8,
        (seed / 0x100_0000_0000 % 0x100) as u8,
        (seed / 0x1_0000_0000_0000 % 0x100) as u8,
        (seed / 0x100_0000_0000_0000 % 0x100) as u8,
    ]
}

/// The number that eight bytes spell, least significant byte first.
pub open spec fn le_value(bytes: Seq<u8>) -> nat
    recommends
        bytes.len() == 8,
{
    (bytes[0] + bytes[1] * 0x100 + bytes[2] * 0x1_0000 + bytes[3] * 0x100_0000 + bytes[4]
        * 0x1_0000_0000 + bytes[5] * 0x100_0000_0000 + bytes[6] * 0x1_0000_0000_0000 + bytes[7]
        * 0x100_0000_0000_0000) as nat
}

/// The seed that unmasked bytes stand for: the number that they spell if
/// there are exactly eight of them.
pub open spec fn seed_of_bytes(bytes: Seq<u8>) -> Result<u64, XorError> {
    if bytes.len() == 8 {
        Ok(le_value(bytes) as u64)
    } else {
        Err(XorError::LengthMismatch)
    }
}

/// The seed that the result of an unmasking stands for; a failure of the
/// unmasking is passed on as it is.
pub open spec fn seed_of_outcome(unmasked: Result<Seq<u8>, XorError>) -> Result<u64, XorError> {
    match unmasked {
        Ok(bytes) => seed_of_bytes(bytes),
        Err(e) => Err(e),
    }
}

/// The seed that [`crate::rng::SecureRng::with_safe_seed`] recovers.
pub open spec fn safe_seed_spec(encrypted: Seq<u8>, key: Seq<u8>) -> Result<u64, XorError> {
    seed_of_outcome(xor_encrypt_spec(encrypted, key))
}

/// The seed that [`crate::rng::SecureRng::with_confusion_seed`] recovers.
pub open spec fn confusion_seed_spec(encrypted: Seq<u8>, key: Seq<u8>) -> Result<u64, XorError> {
    seed_of_outcome(xor_unencrypt_clarity_spec(encrypted, key))
}

/// The little-endian reading of vstd agrees with [`le_value`].
proof fn lemma_le_value_matches(bytes: Seq<u8>)
    requires
        bytes.len() == 8,
    ensures
        spec_u64_from_le_bytes(bytes) == le_value(bytes),
{
    let x = spec_u64_from_le_bytes(bytes);
    lemma_auto_spec_u64_to_from_le_bytes();
    spec_u64_to_le_bytes_to_open(x);
    let s = spec_u64_to_le_bytes_open(x);
    assert(s == bytes);
    assert(x == (x & 0xff) + ((x >> 8) & 0xff) * 0x100 + ((x >> 16) & 0xff) * 0x1_0000 + ((x >> 24)
        & 0xff) * 0x100_0000 + ((x >> 32) & 0xff) * 0x1_0000_0000 + ((x >> 40) & 0xff)
        * 0x100_0000_0000 + ((x >> 48) & 0xff) * 0x1_0000_0000_0000 + ((x >> 56) & 0xff)
        * 0x100_0000_0000_0000) by (bit_vector);
    assert(s[0] == (x & 0xff) as u8);
    assert(s[1] == ((x >> 8) & 0xff) as u8);
    assert(s[2] == ((x >> 16) & 0xff) as u8);
    assert(s[3] == ((x >> 24) & 0xff) as u8);
    assert(s[4] == ((x >> 32) & 0xff) as u8);
    assert(s[5] == ((x >> 40) & 0xff) as u8);
    assert(s[6] == ((x >> 48) & 0xff) as u8);
    assert(s[7] == ((x >> 56) & 0xff) as u8);
    assert({
        &&& x & 0xff < 256
        &&& (x >> 8) & 0xff < 256
        &&& (x >> 16) & 0xff < 256
        &&& (x >> 24) & 0xff < 256
        &&& (x >> 32) & 0xff < 256
        &&& (x >> 40) & 0xff < 256
        &&& (x >> 48) & 0xff < 256
        &&& (x >> 56) & 0xff < 256
    }) by (bit_vector);
}

/// Reads a seed from unmasked bytes: exactly eight of them, least significant
/// first.
pub fn seed_from_le_bytes(bytes: &[u8]) -> (r: Result<u64, XorError>)
    ensures
        r == seed_of_bytes(bytes@),
{
    if bytes.len() != 8 {
        return Err(XorError::LengthMismatch);
    }
    let seed: u64 = u64_from_le_bytes(bytes);
    proof {
        lemma_le_value_matches(bytes@);
    }
    Ok(seed)
}

/// The seed that a reading of the clock gives: the milliseconds since the
/// epoch cut to their low 64 bits, and zero where the clock gave no reading.
pub open spec fn clock_seed_spec(millis: Option<u128>) -> u64 {
    match millis {
        Some(count) => (count % 0x1_0000_0000_0000_0000) as u64,
        None => 0,
    }
}

/// Turns a reading of the clock, in milliseconds since the epoch, into a
/// seed. `None` stands for a clock that reads earlier than the epoch.
pub fn clock_seed(millis: Option<u128>) -> (seed: u64)
    ensures
        seed == clock_seed_spec(millis),
{
    match millis {
        Some(count) => (count % 0x1_0000_0000_0000_0000) as u64,
        None => 0,
    }
}

/// Spelling a seed as bytes and reading the bytes gives the seed back.
pub proof fn lemma_le_bytes_round_trip(seed: u64)
    ensures
        le_bytes(seed).len() == 8,
        le_value(le_bytes(seed)) == seed,
        seed_of_bytes(le_bytes(seed)) == Ok::<u64, XorError>(seed),
{
    let b = le_bytes(seed);
    assert(b[0] == seed % 0x100);
    assert(b[1] == seed / 0x100 % 0x100);
    assert(b[2] == seed / 0x1_0000 % 0x100);
    assert(b[3] == seed / 0x100_0000 % 0x100);
    assert(b[4] == seed / 0x1_0000_0000 % 0x100);
    assert(b[5] == seed / 0x100_0000_0000 % 0x100);
    assert(b[6] == seed / 0x1_0000_0000_0000 % 0x100);
    assert(b[7] == seed / 0x100_0000_0000_0000 % 0x100);
    assert(seed == seed % 0x100 + (seed / 0x100 % 0x100) * 0x100 + (seed / 0x1_0000 % 0x100)
        * 0x1_0000 + (seed / 0x100_0000 % 0x100) * 0x100_0000 + (seed / 0x1_0000_0000 % 0x100)
        * 0x1_0000_0000 + (seed / 0x100_0000_0000 % 0x100) * 0x100_0000_0000 + (seed
        / 0x1_0000_0000_0000 % 0x100) * 0x1_0000_0000_0000 + (seed / 0x100_0000_0000_0000 % 0x100)
        * 0x100_0000_0000_0000) by (bit_vector);
}

} // verus!
