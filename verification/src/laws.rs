//! The laws of the library, each proved once and for all inputs: the algebra
//! of the byte transforms, the recovery of a masked seed, and the determinism
//! of the generator.

use vstd::prelude::*;
use crate::error::XorError;
use crate::mask::{
    confuse_spec, xor_encrypt_confusion_spec, xor_encrypt_spec, xor_mask,
    xor_unencrypt_clarity_spec, MIN_KEY_LEN,
};
use crate::rng::{after_u64_draws, nth_u64, seeded_words, words_after, SecureRng};
use crate::seed::{confusion_seed_spec, le_bytes, lemma_le_bytes_round_trip, safe_seed_spec};

verus! {

/// XOR-ing a byte twice with the same key byte gives the byte back.
proof fn lemma_xor_twice(b: u8, k: u8)
    ensures
        (b ^ k) ^ k == b,
{
    assert((b ^ k) ^ k == b) by (bit_vector);
}

/// Masking twice with one non-empty key is the identity.
pub proof fn lemma_xor_mask_involution(d: Seq<u8>, k: Seq<u8>)
    requires
        k.len() > 0,
    ensures
        xor_mask(xor_mask(d, k), k) == d,
{
    let twice = xor_mask(xor_mask(d, k), k);
    assert forall|i: int| 0 <= i < d.len() implies twice[i] == d[i] by {
        lemma_xor_twice(d[i], k[i % (k.len() as int)]);
    }
    assert(twice =~= d);
}

/// Round trip of the plain mask: for every byte sequence `d` and every key `k`
/// of at least [`MIN_KEY_LEN`] bytes, masking `d` succeeds, and masking the
/// result again with `k` returns `d`.
pub proof fn lemma_xor_encrypt_round_trip(d: Seq<u8>, k: Seq<u8>)
    requires
        k.len() >= MIN_KEY_LEN,
    ensures
        xor_encrypt_spec(d, k) == Ok::<Seq<u8>, XorError>(xor_mask(d, k)),
        xor_encrypt_spec(xor_mask(d, k), k) == Ok::<Seq<u8>, XorError>(d),
{
    lemma_xor_mask_involution(d, k);
}

/// The shuffle is its own inverse on every buffer whose length is a multiple
/// of four, and on every other even-length buffer that the shuffle leaves as
/// it is.
pub proof fn lemma_confuse_involution(b: Seq<u8>)
    requires
        b.len() % 2 == 0,
        b.len() % 4 == 0 || confuse_spec(b) == b,
    ensures
        confuse_spec(confuse_spec(b)) == b,
{
    if b.len() % 4 == 0 {
        assert(confuse_spec(confuse_spec(b)) =~= b);
    }
}

/// On an even-length buffer whose length is no multiple of four the shuffle
/// loses bytes: shuffling a second time changes nothing any more, so the
/// buffer comes back only if the first shuffle left it as it was.
pub proof fn lemma_confuse_odd_half(b: Seq<u8>)
    requires
        b.len() % 4 == 2,
    ensures
        confuse_spec(confuse_spec(b)) == confuse_spec(b),
        confuse_spec(confuse_spec(b)) == b <==> confuse_spec(b) == b,
{
    assert(confuse_spec(confuse_spec(b)) =~= confuse_spec(b));
}

/// Round trip of the shuffled mask: for every key `k` of at least
/// [`MIN_KEY_LEN`] bytes and every byte sequence `d` whose length is a
/// multiple of four (or whose masked form the shuffle leaves as it is),
/// shuffled masking succeeds, and undoing it with `k` returns `d`.
pub proof fn lemma_confusion_round_trip(d: Seq<u8>, k: Seq<u8>)
    requires
        k.len() >= MIN_KEY_LEN,
        d.len() % 2 == 0,
        d.len() % 4 == 0 || confuse_spec(xor_mask(d, k)) == xor_mask(d, k),
    ensures
        xor_encrypt_confusion_spec(d, k) == Ok::<Seq<u8>, XorError>(
            confuse_spec(xor_mask(d, k)),
        ),
        xor_unencrypt_clarity_spec(confuse_spec(xor_mask(d, k)), k) == Ok::<Seq<u8>, XorError>(d),
{
    let m = xor_mask(d, k);
    lemma_confuse_involution(m);
    lemma_xor_mask_involution(d, k);
}

/// Where the length of the data is even but no multiple of four, the round
/// trip of the shuffled mask returns the data exactly if the shuffle leaves
/// the masked data as it is; on all other such data it returns other bytes.
pub proof fn lemma_confusion_round_trip_odd_half(d: Seq<u8>, k: Seq<u8>)
    requires
        k.len() >= MIN_KEY_LEN,
        d.len() % 4 == 2,
    ensures
        xor_unencrypt_clarity_spec(confuse_spec(xor_mask(d, k)), k) == Ok::<Seq<u8>, XorError>(d)
            <==> confuse_spec(xor_mask(d, k)) == xor_mask(d, k),
{
    let m = xor_mask(d, k);
    lemma_confuse_odd_half(m);
    lemma_xor_mask_involution(d, k);
    lemma_xor_mask_involution(confuse_spec(m), k);
}

/// A key of fewer than [`MIN_KEY_LEN`] bytes is rejected whatever the data:
/// by the plain mask and by the shuffled mask always, and by the inverse of
/// the shuffled mask on every even-length input (an odd length is reported
/// first there).
pub proof fn lemma_short_key_rejected(d: Seq<u8>, k: Seq<u8>)
    requires
        k.len() < MIN_KEY_LEN,
    ensures
        xor_encrypt_spec(d, k) == Err::<Seq<u8>, XorError>(XorError::KeyTooShort),
        xor_encrypt_confusion_spec(d, k) == Err::<Seq<u8>, XorError>(XorError::KeyTooShort),
        d.len() % 2 == 0 ==> xor_unencrypt_clarity_spec(d, k) == Err::<Seq<u8>, XorError>(
            XorError::KeyTooShort,
        ),
{
}

/// Data of odd length is rejected: by the inverse of the shuffled mask
/// whatever the key, and by the shuffled mask under every key of at least
/// [`MIN_KEY_LEN`] bytes (a short key is reported first there).
pub proof fn lemma_odd_length_rejected(d: Seq<u8>, k: Seq<u8>)
    requires
        d.len() % 2 == 1,
    ensures
        xor_unencrypt_clarity_spec(d, k) == Err::<Seq<u8>, XorError>(XorError::OddLength),
        k.len() >= MIN_KEY_LEN ==> xor_encrypt_confusion_spec(d, k) == Err::<Seq<u8>, XorError>(
            XorError::OddLength,
        ),
{
}

/// Empty data passes through all three transforms as empty data, under every
/// key of at least [`MIN_KEY_LEN`] bytes.
pub proof fn lemma_empty_data(k: Seq<u8>)
    requires
        k.len() >= MIN_KEY_LEN,
    ensures
        xor_encrypt_spec(Seq::<u8>::empty(), k) == Ok::<Seq<u8>, XorError>(Seq::<u8>::empty()),
        xor_encrypt_confusion_spec(Seq::<u8>::empty(), k) == Ok::<Seq<u8>, XorError>(
            Seq::<u8>::empty(),
        ),
        xor_unencrypt_clarity_spec(Seq::<u8>::empty(), k) == Ok::<Seq<u8>, XorError>(
            Seq::<u8>::empty(),
        ),
{
    let e = Seq::<u8>::empty();
    assert(xor_mask(e, k) =~= e);
    assert(confuse_spec(e) =~= e);
}

/// A seed that was spelled as bytes and masked is recovered from the masked
/// bytes, under every key of at least [`MIN_KEY_LEN`] bytes. A generator made
/// from the masked seed therefore holds the stream of the seed itself.
pub proof fn lemma_safe_seed_recovered(seed: u64, k: Seq<u8>)
    requires
        k.len() >= MIN_KEY_LEN,
    ensures
        safe_seed_spec(xor_mask(le_bytes(seed), k), k) == Ok::<u64, XorError>(seed),
{
    lemma_le_bytes_round_trip(seed);
    lemma_xor_mask_involution(le_bytes(seed), k);
}

/// A seed that was spelled as bytes, masked and shuffled is recovered from
/// the shuffled bytes, under every key of at least [`MIN_KEY_LEN`] bytes.
pub proof fn lemma_confusion_seed_recovered(seed: u64, k: Seq<u8>)
    requires
        k.len() >= MIN_KEY_LEN,
    ensures
        confusion_seed_spec(confuse_spec(xor_mask(le_bytes(seed), k)), k) == Ok::<u64, XorError>(
            seed,
        ),
{
    lemma_le_bytes_round_trip(seed);
    lemma_confusion_round_trip(le_bytes(seed), k);
}

/// Dropping `a` words and then `b` words drops `a + b` words.
pub proof fn lemma_words_after_add(words: Map<nat, u32>, a: nat, b: nat)
    ensures
        words_after(words_after(words, a), b) == words_after(words, a + b),
{
    assert(words_after(words_after(words, a), b) =~= words_after(words, a + b));
}

/// Each 64-bit draw uses up exactly two words: after `n` of them, `2 * n`
/// words are gone, and draw number `n` joins the words `2 * n` and
/// `2 * n + 1` of the stream.
pub proof fn lemma_u64_draws_use_two_words(words: Map<nat, u32>, n: nat)
    ensures
        after_u64_draws(words, n) == words_after(words, 2 * n),
        nth_u64(words, n) == ((words[2 * n + 1] as u64) << 32) | (words[2 * n] as u64),
    decreases n,
{
    if n > 0 {
        let m = (n - 1) as nat;
        lemma_u64_draws_use_two_words(words, m);
        lemma_words_after_add(words, 2 * m, 2);
    }
}

/// Determinism: two generators that were made from one seed give the same
/// value at every 64-bit draw, however long the run.
pub proof fn lemma_same_seed_same_draws(a: SecureRng, b: SecureRng, seed: u64, n: nat)
    requires
        a@ == seeded_words(seed),
        b@ == seeded_words(seed),
    ensures
        nth_u64(a@, n) == nth_u64(b@, n),
        after_u64_draws(a@, n) == after_u64_draws(b@, n),
{
}

} // verus!
