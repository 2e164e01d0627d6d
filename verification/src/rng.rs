//! The seeded generator: one ChaCha12 generator, owned by a [`SecureRng`] and
//! advanced by every draw.
//!
//! The generator itself is not verified here. What the contracts say of it is
//! stated over the stream of 32-bit words that it has yet to give out, and is
//! taken on trust from the `rand_chacha` and `rand_core` crates.

use vstd::prelude::*;
use rand_chacha::ChaCha12Rng;
use rand_core::{RngCore, SeedableRng};
use crate::error::XorError;
use crate::mask::{xor_encrypt, xor_unencrypt_clarity};
use crate::seed::{
    clock_seed, clock_seed_spec, confusion_seed_spec, safe_seed_spec, seed_from_le_bytes,
};

verus! {

/// `rand_chacha::ChaCha12Rng`, the ChaCha generator with twelve rounds. The
/// verifier sees nothing inside it.
#[verifier::external_type_specification]
#[verifier::external_body]
pub struct ExChaCha12Rng(rand_chacha::ChaCha12Rng);

/// The words that a generator has yet to give out, in the order in which it
/// will give them: word `0` is the next one. The generator never runs dry, so
/// every index holds a word.
pub uninterp spec fn upcoming_words(generator: ChaCha12Rng) -> Map<nat, u32>;

/// The words that a generator gives out from the moment it was seeded with
/// `seed`. They depend on the seed alone: the same on every run and machine.
pub uninterp spec fn seeded_words(seed: u64) -> Map<nat, u32>;

/// The stream `words` with its first `n` words gone: word `i` of the result
/// is word `i + n` of `words`.
pub open spec fn words_after(words: Map<nat, u32>, n: nat) -> Map<nat, u32> {
    if n == 0 {
        words
    } else {
        Map::total(|i: nat| words[i + n])
    }
}

/// The 32-bit value that a draw from `words` yields: the first word.
pub open spec fn leading_u32(words: Map<nat, u32>) -> u32 {
    words[0]
}

/// The 64-bit value that a draw from `words` yields: the first two words, the
/// first one in the low half.
pub open spec fn leading_u64(words: Map<nat, u32>) -> u64 {
    ((words[1] as u64) << 32) | (words[0] as u64)
}

/// The stream that is left of `words` after `n` draws of 64 bits each.
pub open spec fn after_u64_draws(words: Map<nat, u32>, n: nat) -> Map<nat, u32>
    decreases n,
{
    if n == 0 {
        words
    } else {
        words_after(after_u64_draws(words, (n - 1) as nat), 2)
    }
}

/// The value of draw number `n`, counted from zero, in a run of 64-bit draws
/// from `words`.
pub open spec fn nth_u64(words: Map<nat, u32>, n: nat) -> u64 {
    leading_u64(after_u64_draws(words, n))
}

/// `SeedableRng::seed_from_u64` of `rand_core`, called for `ChaCha12Rng`: it
/// stretches `seed` to a 32-byte key and starts the generator at the head of
/// that key's stream. Trusted: the words that the new generator will give out
/// are those that belong to `seed`, whatever else happened before.
#[verifier::external_body]
fn chacha12_seed_from_u64(seed: u64) -> (generator: ChaCha12Rng)
    ensures
        upcoming_words(generator) == seeded_words(seed),
{
    ChaCha12Rng::seed_from_u64(seed)
}

/// `RngCore::next_u32` of `ChaCha12Rng`. Trusted: it returns the next word of
/// the stream and moves the generator past that one word.
#[verifier::external_body]
fn chacha12_next_u32(generator: &mut ChaCha12Rng) -> (value: u32)
    ensures
        value == leading_u32(upcoming_words(*old(generator))),
        upcoming_words(*final(generator)) == words_after(upcoming_words(*old(generator)), 1),
{
    generator.next_u32()
}

/// `RngCore::next_u64` of `ChaCha12Rng`. Trusted: it joins the next two words
/// of the stream, the earlier one in the low half, and moves the generator
/// past both, also where the two lie on either side of a refill of its
/// buffer.
#[verifier::external_body]
fn chacha12_next_u64(generator: &mut ChaCha12Rng) -> (value: u64)
    ensures
        value == leading_u64(upcoming_words(*old(generator))),
        upcoming_words(*final(generator)) == words_after(upcoming_words(*old(generator)), 2),
{
    generator.next_u64()
}

/// `SystemTime::elapsed` of std, called on the Unix epoch: the time that has
/// passed since the epoch by the wall clock, or `None` where the clock reads
/// earlier than the epoch. Nothing is promised of the reading.
#[verifier::external_body]
fn elapsed_since_unix_epoch() -> Option<std::time::Duration> {
    match std::time::UNIX_EPOCH.elapsed() {
        Ok(elapsed) => Some(elapsed),
        Err(_) => None,
    }
}

/// `Duration::as_millis` of std: the whole milliseconds in a span. Nothing is
/// promised of the count.
#[verifier::external_body]
fn whole_millis(elapsed: &std::time::Duration) -> u128 {
    elapsed.as_millis()
}

/// A reproducible random number generator: the same seed gives the same
/// sequence of draws, on every run.
pub struct SecureRng(ChaCha12Rng);

impl View for SecureRng {
    type V = Map<nat, u32>;

    /// The words that this generator has yet to give out.
    closed spec fn view(&self) -> Map<nat, u32> {
        upcoming_words(self.0)
    }
}

impl SecureRng {
    /// A generator at the start of the stream that belongs to `seed`.
    pub fn with_seed(seed: u64) -> (rng: SecureRng)
        ensures
            rng@ == seeded_words(seed),
    {
        let inner = chacha12_seed_from_u64(seed);
        SecureRng(inner)
    }

    /// A generator seeded with the seed that `encrypted` hides under the
    /// plain mask of `key`.
    ///
    /// Fails as [`xor_encrypt`] does, and with [`XorError::LengthMismatch`]
    /// when the unmasked seed is not exactly eight bytes long.
    pub fn with_safe_seed(encrypted: &[u8], key: &[u8]) -> (r: Result<SecureRng, XorError>)
        ensures
            match r {
                Ok(rng) => {
                    &&& safe_seed_spec(encrypted@, key@) matches Ok(seed)
                    &&& rng@ == seeded_words(seed)
                },
                Err(e) => safe_seed_spec(encrypted@, key@) == Err::<u64, XorError>(e),
            },
    {
        let unencrypted = match xor_encrypt(encrypted, key) {
            Ok(bytes) => bytes,
            Err(e) => {
                return Err(e);
            },
        };
        match seed_from_le_bytes(unencrypted.as_slice()) {
            Ok(seed) => Ok(SecureRng::with_seed(seed)),
            Err(e) => Err(e),
        }
    }

    /// A generator seeded with the seed that `encrypted` hides under the
    /// shuffled mask of `key`.
    ///
    /// Fails as [`xor_unencrypt_clarity`] does, and with
    /// [`XorError::LengthMismatch`] when the unmasked seed is not exactly
    /// eight bytes long.
    pub fn with_confusion_seed(encrypted: &[u8], key: &[u8]) -> (r: Result<SecureRng, XorError>)
        ensures
            match r {
                Ok(rng) => {
                    &&& confusion_seed_spec(encrypted@, key@) matches Ok(seed)
                    &&& rng@ == seeded_words(seed)
                },
                Err(e) => confusion_seed_spec(encrypted@, key@) == Err::<u64, XorError>(e),
            },
    {
        let unencrypted = match xor_unencrypt_clarity(encrypted, key) {
            Ok(bytes) => bytes,
            Err(e) => {
                return Err(e);
            },
        };
        match seed_from_le_bytes(unencrypted.as_slice()) {
            Ok(seed) => Ok(SecureRng::with_seed(seed)),
            Err(e) => Err(e),
        }
    }

    /// The next 32-bit value; the generator moves on by one word.
    pub fn get_u32(&mut self) -> (value: u32)
        ensures
            value == leading_u32(old(self)@),
            final(self)@ == words_after(old(self)@, 1),
    {
        chacha12_next_u32(&mut self.0)
    }

    /// The next 64-bit value; the generator moves on by two words.
    pub fn get_u64(&mut self) -> (value: u64)
        ensures
            value == leading_u64(old(self)@),
            final(self)@ == words_after(old(self)@, 2),
    {
        chacha12_next_u64(&mut self.0)
    }
}

impl Default for SecureRng {
    /// A generator seeded from the wall clock, as [`clock_seed`] turns its
    /// reading into a seed. What the clock reads cannot be told in advance:
    /// use [`SecureRng::with_seed`] where the draws must be reproducible.
    fn default() -> (rng: SecureRng)
        ensures
            exists|millis: Option<u128>| rng@ == seeded_words(clock_seed_spec(millis)),
    {
        let millis: Option<u128> = match elapsed_since_unix_epoch() {
            Some(elapsed) => Some(whole_millis(&elapsed)),
            None => None,
        };
        SecureRng::with_seed(clock_seed(millis))
    }
}

} // verus!
