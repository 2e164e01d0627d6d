//! The byte transform layer: a keyed XOR mask, and a position shuffle layered
//! on top of it.
//!
//! All functions here are pure: they read their arguments and return a fresh
//! buffer.

use vstd::prelude::*;
use crate::error::XorError;

verus! {

/// The least number of bytes a key must hold.
pub const MIN_KEY_LEN: usize = 8;

/// `data` with byte `i` XOR-ed with the key byte at `i` modulo the key length.
pub open spec fn xor_mask(data: Seq<u8>, key: Seq<u8>) -> Seq<u8>
    recommends
        key.len() > 0,
{
    Seq::new(data.len(), |i: int| data[i] ^ key[i % (key.len() as int)])
}

/// What [`xor_encrypt`] returns for `data` under `key`.
pub open spec fn xor_encrypt_spec(data: Seq<u8>, key: Seq<u8>) -> Result<Seq<u8>, XorError> {
    if key.len() < MIN_KEY_LEN {
        Err(XorError::KeyTooShort)
    } else {
        Ok(xor_mask(data, key))
    }
}

/// The mathematical content of a transform's result: the bytes of the buffer,
/// or the failure.
pub open spec fn outcome(r: Result<Vec<u8>, XorError>) -> Result<Seq<u8>, XorError> {
    match r {
        Ok(bytes) => Ok(bytes@),
        Err(e) => Err(e),
    }
}

/// Masks `data` with `key`, used cyclically. Masking twice with one key gives
/// the data back, so this both hides and recovers.
///
/// Fails with [`XorError::KeyTooShort`] when the key holds fewer than
/// [`MIN_KEY_LEN`] bytes.
pub fn xor_encrypt(data: &[u8], key: &[u8]) -> (r: Result<Vec<u8>, XorError>)
    ensures
        outcome(r) == xor_encrypt_spec(data@, key@),
{
    if key.len() < MIN_KEY_LEN {
        return Err(XorError::KeyTooShort);
    }
    let n: usize = data.len();
    let mut encrypted: Vec<u8> = Vec::with_capacity(n);
    let mut i: usize = 0;
    while i < n
        invariant
            n == data@.len(),
            key@.len() >= MIN_KEY_LEN,
            i <= n,
            encrypted@.len() == i,
            forall|p: int| 0 <= p < i ==> encrypted@[p] == xor_mask(data@, key@)[p],
        decreases n - i,
    {
        encrypted.push(data[i] ^ key[i % key.len()]);
        i += 1;
    }
    assert(encrypted@ =~= xor_mask(data@, key@));
    Ok(encrypted)
}

/// `m` after the position shuffle, for `m` of even length and `half` that
/// length halved.
///
/// - An odd position keeps its byte.
/// - An even position of the first half takes the byte `half` places further
///   on.
/// - An even position of the second half takes the byte `half` places back
///   where `half` is even, so that the two trade places. Where `half` is odd
///   its partner is an odd position, which keeps its own byte: the position
///   is then never written and holds zero, and the byte that stood there is
///   lost.
pub open spec fn confuse_spec(m: Seq<u8>) -> Seq<u8>
    recommends
        m.len() % 2 == 0,
{
    let half = (m.len() / 2) as int;
    Seq::new(
        m.len(),
        |i: int|
            if i % 2 == 1 {
                m[i]
            } else if i < half {
                m[i + half]
            } else if half % 2 == 0 {
                m[i - half]
            } else {
                0u8
            },
    )
}

/// Shuffles the positions of an even-length buffer. On a buffer whose length
/// is a multiple of four this is a permutation and its own inverse.
pub fn confuse(m: &[u8]) -> (confused: Vec<u8>)
    requires
        m@.len() % 2 == 0,
    ensures
        confused@ == confuse_spec(m@),
{
    let len: usize = m.len();
    let half_len: usize = len / 2;
    let mut confused: Vec<u8> = Vec::with_capacity(len);
    confused.resize(len, 0);
    let mut i: usize = 0;
    while i < len
        invariant
            len == m@.len(),
            len == 2 * half_len,
            i <= len,
            confused@.len() == len,
            forall|p: int|
                0 <= p < len ==> #[trigger] confused@[p] == if p % 2 == 1 && p < i {
                    m@[p]
                } else if p % 2 == 0 && p < half_len && p < i {
                    m@[p + half_len]
                } else if p >= half_len && (p - half_len) % 2 == 0 && p - half_len < i {
                    m@[p - half_len]
                } else {
                    0u8
                },
        decreases len - i,
    {
        if i % 2 != 0 {
            confused[i] = m[i];
        } else if i < half_len {
            let j: usize = i + half_len;
            confused[j] = m[i];
            confused[i] = m[j];
        }
        i += 1;
    }
    assert(confused@ =~= confuse_spec(m@));
    confused
}

/// What [`xor_encrypt_confusion`] returns for `data` under `key`: the key is
/// judged first, then the length of the data.
pub open spec fn xor_encrypt_confusion_spec(data: Seq<u8>, key: Seq<u8>) -> Result<
    Seq<u8>,
    XorError,
> {
    if key.len() < MIN_KEY_LEN {
        Err(XorError::KeyTooShort)
    } else if data.len() % 2 != 0 {
        Err(XorError::OddLength)
    } else {
        Ok(confuse_spec(xor_mask(data, key)))
    }
}

/// What [`xor_unencrypt_clarity`] returns for `data` under `key`: the length
/// of the data is judged first, then the key.
pub open spec fn xor_unencrypt_clarity_spec(data: Seq<u8>, key: Seq<u8>) -> Result<
    Seq<u8>,
    XorError,
> {
    if data.len() % 2 != 0 {
        Err(XorError::OddLength)
    } else if key.len() < MIN_KEY_LEN {
        Err(XorError::KeyTooShort)
    } else {
        Ok(xor_mask(confuse_spec(data), key))
    }
}

/// Masks `data` with `key` and then shuffles the positions of the masked
/// bytes.
///
/// Fails with [`XorError::KeyTooShort`] when the key holds fewer than
/// [`MIN_KEY_LEN`] bytes, and otherwise with [`XorError::OddLength`] when the
/// data holds an odd number of bytes.
pub fn xor_encrypt_confusion(data: &[u8], key: &[u8]) -> (r: Result<Vec<u8>, XorError>)
    ensures
        outcome(r) == xor_encrypt_confusion_spec(data@, key@),
{
    let encrypt = match xor_encrypt(data, key) {
        Ok(bytes) => bytes,
        Err(e) => {
            return Err(e);
        },
    };
    if encrypt.len() % 2 != 0 {
        return Err(XorError::OddLength);
    }
    Ok(confuse(encrypt.as_slice()))
}

/// Shuffles the positions of `data` and then masks the result with `key`.
/// This undoes [`xor_encrypt_confusion`] under the same key for data whose
/// length is a multiple of four.
///
/// Fails with [`XorError::OddLength`] when the data holds an odd number of
/// bytes, and otherwise with [`XorError::KeyTooShort`] when the key holds
/// fewer than [`MIN_KEY_LEN`] bytes.
pub fn xor_unencrypt_clarity(data: &[u8], key: &[u8]) -> (r: Result<Vec<u8>, XorError>)
    ensures
        outcome(r) == xor_unencrypt_clarity_spec(data@, key@),
{
    if data.len() % 2 != 0 {
        return Err(XorError::OddLength);
    }
    let clarified = confuse(data);
    xor_encrypt(clarified.as_slice(), key)
}

} // verus!
