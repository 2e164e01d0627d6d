use rand_chacha::ChaCha12Rng;
use rand_core::{RngCore, SeedableRng};

use pi_rand::{
    clock_seed, seed_from_le_bytes, xor_encrypt, xor_encrypt_confusion, SecureRng, XorError,
};

const SEED: u64 = 1727517952591;

fn failure(r: Result<SecureRng, XorError>) -> Option<XorError> {
    match r {
        Ok(_) => None,
        Err(e) => Some(e),
    }
}

#[test]
fn with_seed_gives_the_known_draws_of_the_sample_seed() {
    let mut rng = SecureRng::with_seed(SEED);
    assert_eq!(rng.get_u64(), 16608836342575727016);
    assert_eq!(rng.get_u64(), 17711417123397515647);
    assert_eq!(rng.get_u64(), 3026589804241115175);
    let mut rng = SecureRng::with_seed(SEED);
    assert_eq!(rng.get_u32(), 4224909736);
    assert_eq!(rng.get_u32(), 3867046055);
    assert_eq!(rng.get_u32(), 3705747839);
    assert_eq!(rng.get_u32(), 4123760648);
}

#[test]
fn with_seed_gives_the_known_draws_of_seed_zero() {
    let mut rng = SecureRng::with_seed(0);
    assert_eq!(rng.get_u64(), 13486662071293341567);
    assert_eq!(rng.get_u64(), 14267822071968393595);
}

#[test]
fn with_seed_draws_what_the_chacha12_generator_draws() {
    let mut rng = SecureRng::with_seed(SEED);
    let mut reference = ChaCha12Rng::seed_from_u64(SEED);
    for _ in 0..1000 {
        assert_eq!(rng.get_u64(), reference.next_u64());
    }
    for _ in 0..1000 {
        assert_eq!(rng.get_u32(), reference.next_u32());
    }
    for _ in 0..100 {
        assert_eq!(rng.get_u32(), reference.next_u32());
        assert_eq!(rng.get_u64(), reference.next_u64());
    }
}

#[test]
fn equal_seeds_give_equal_draws() {
    let mut a = SecureRng::with_seed(SEED);
    let mut b = SecureRng::with_seed(SEED);
    for _ in 0..1000000 {
        assert_eq!(a.get_u64(), b.get_u64());
    }
}

#[test]
fn different_seeds_give_different_draws() {
    let mut a = SecureRng::with_seed(1);
    let mut b = SecureRng::with_seed(2);
    let first: Vec<u64> = (0..4).map(|_| a.get_u64()).collect();
    let second: Vec<u64> = (0..4).map(|_| b.get_u64()).collect();
    assert_ne!(first, second);
}

#[test]
fn get_u64_joins_two_words_low_half_first() {
    let mut words = SecureRng::with_seed(SEED);
    let mut wide = SecureRng::with_seed(SEED);
    for _ in 0..200 {
        let low = words.get_u32() as u64;
        let high = words.get_u32() as u64;
        assert_eq!(wide.get_u64(), (high << 32) | low);
    }
}

#[test]
fn get_u64_after_one_word_joins_the_next_two() {
    let mut words = SecureRng::with_seed(SEED);
    let mut wide = SecureRng::with_seed(SEED);
    assert_eq!(wide.get_u32(), words.get_u32());
    for _ in 0..200 {
        let low = words.get_u32() as u64;
        let high = words.get_u32() as u64;
        assert_eq!(wide.get_u64(), (high << 32) | low);
    }
}

#[test]
fn each_draw_moves_the_generator_on() {
    let mut rng = SecureRng::with_seed(SEED);
    let draws: Vec<u64> = (0..8).map(|_| rng.get_u64()).collect();
    for i in 0..8 {
        for j in 0..i {
            assert_ne!(draws[i], draws[j]);
        }
    }
}

#[test]
fn with_safe_seed_recovers_the_sample_seed() {
    let key = 0x7fffffffffffffff_u64.to_le_bytes();
    let hidden = xor_encrypt(&SEED.to_le_bytes(), &key).unwrap();
    let mut recovered = SecureRng::with_safe_seed(&hidden, &key).ok().unwrap();
    let mut plain = SecureRng::with_seed(SEED);
    for _ in 0..10000 {
        assert_eq!(recovered.get_u64(), plain.get_u64());
    }
}

#[test]
fn with_safe_seed_reads_the_seed_least_significant_byte_first() {
    let key = [0u8; 8];
    let mut recovered = SecureRng::with_safe_seed(&[1, 2, 3, 4, 5, 6, 7, 8], &key)
        .ok()
        .unwrap();
    let mut plain = SecureRng::with_seed(0x0807060504030201);
    for _ in 0..16 {
        assert_eq!(recovered.get_u64(), plain.get_u64());
    }
}

#[test]
fn with_confusion_seed_recovers_the_sample_seed() {
    let key = 0x7fffffffffffffff_u64.to_le_bytes();
    let hidden = xor_encrypt_confusion(&SEED.to_le_bytes(), &key).unwrap();
    let mut recovered = SecureRng::with_confusion_seed(&hidden, &key).ok().unwrap();
    let mut plain = SecureRng::with_seed(SEED);
    for _ in 0..10000 {
        assert_eq!(recovered.get_u64(), plain.get_u64());
    }
}

#[test]
fn with_safe_seed_rejects_a_short_key() {
    assert_eq!(
        failure(SecureRng::with_safe_seed(&[0u8; 8], &[0u8; 7])),
        Some(XorError::KeyTooShort)
    );
}

#[test]
fn with_safe_seed_rejects_a_seed_of_another_length() {
    let key = [0u8; 8];
    assert_eq!(
        failure(SecureRng::with_safe_seed(&[0u8; 7], &key)),
        Some(XorError::LengthMismatch)
    );
    assert_eq!(
        failure(SecureRng::with_safe_seed(&[0u8; 9], &key)),
        Some(XorError::LengthMismatch)
    );
    assert_eq!(
        failure(SecureRng::with_safe_seed(&[], &key)),
        Some(XorError::LengthMismatch)
    );
}

#[test]
fn with_confusion_seed_rejects_an_odd_length() {
    assert_eq!(
        failure(SecureRng::with_confusion_seed(&[0u8; 7], &[0u8; 8])),
        Some(XorError::OddLength)
    );
    assert_eq!(
        failure(SecureRng::with_confusion_seed(&[0u8; 7], &[0u8; 2])),
        Some(XorError::OddLength)
    );
}

#[test]
fn with_confusion_seed_rejects_a_short_key() {
    assert_eq!(
        failure(SecureRng::with_confusion_seed(&[0u8; 8], &[0u8; 7])),
        Some(XorError::KeyTooShort)
    );
}

#[test]
fn with_confusion_seed_rejects_a_seed_of_another_length() {
    let key = [0u8; 8];
    assert_eq!(
        failure(SecureRng::with_confusion_seed(&[0u8; 6], &key)),
        Some(XorError::LengthMismatch)
    );
    assert_eq!(
        failure(SecureRng::with_confusion_seed(&[0u8; 10], &key)),
        Some(XorError::LengthMismatch)
    );
    assert_eq!(
        failure(SecureRng::with_confusion_seed(&[], &key)),
        Some(XorError::LengthMismatch)
    );
}

#[test]
fn default_gives_a_working_generator() {
    let mut rng = SecureRng::default();
    let first = rng.get_u64();
    let second = rng.get_u64();
    assert_ne!(first, second);
}

#[test]
fn seed_from_le_bytes_reads_the_least_significant_byte_first() {
    assert_eq!(
        seed_from_le_bytes(&[0x4f, 0x0a, 0x18, 0x38, 0x92, 0x01, 0x00, 0x00]),
        Ok(1727517952591)
    );
    assert_eq!(
        seed_from_le_bytes(&[1, 2, 3, 4, 5, 6, 7, 8]),
        Ok(0x0807060504030201)
    );
    assert_eq!(seed_from_le_bytes(&[0xff; 8]), Ok(u64::MAX));
    assert_eq!(seed_from_le_bytes(&[0; 8]), Ok(0));
}

#[test]
fn seed_from_le_bytes_gives_every_seed_of_a_range_back() {
    for n in 0x1fffffffffffffff_u64..0x1fffffffffffffff_u64 + 1000 {
        assert_eq!(seed_from_le_bytes(&n.to_le_bytes()), Ok(n));
    }
}

#[test]
fn seed_from_le_bytes_rejects_another_length() {
    assert_eq!(seed_from_le_bytes(&[]), Err(XorError::LengthMismatch));
    assert_eq!(seed_from_le_bytes(&[0; 7]), Err(XorError::LengthMismatch));
    assert_eq!(seed_from_le_bytes(&[0; 9]), Err(XorError::LengthMismatch));
}

#[test]
fn clock_seed_keeps_the_low_64_bits() {
    assert_eq!(clock_seed(Some(1727517952591)), 1727517952591);
    assert_eq!(clock_seed(Some(u64::MAX as u128)), u64::MAX);
    assert_eq!(clock_seed(Some((1u128 << 64) + 5)), 5);
    assert_eq!(clock_seed(Some(0)), 0);
}

#[test]
fn clock_seed_without_a_reading_is_zero() {
    assert_eq!(clock_seed(None), 0);
}
