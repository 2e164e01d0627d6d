//! The failures that the transforms and the seed-recovering constructors report.

use vstd::prelude::*;

verus! {

/// Why a transform, or a constructor that recovers a seed, gave up.
#[derive(Clone, Copy, Debug, PartialEq, Eq, Structural)]
pub enum XorError {
    /// The key holds fewer than [`crate::mask::MIN_KEY_LEN`] bytes.
    KeyTooShort,
    /// The data holds an odd number of bytes where the shuffle needs pairs.
    OddLength,
    /// The unmasked seed is not exactly eight bytes long.
    LengthMismatch,
}

} // verus!
