//! The one place where random bytes are drawn.

use ring::rand::SecureRandom;
use vstd::prelude::*;

verus! {

/// Overwrites `bytes` with 32 bytes from the operating system's secure random
/// source, by ring's `SystemRandom::fill`.
///
/// Nothing is claimed of the bytes written. A failing source is fatal: the
/// call panics rather than hand back bytes that could be guessed.
#[verifier::external_body]
pub(crate) fn fill_random(bytes: &mut [u8; 32]) {
    ring::rand::SystemRandom::new().fill(bytes).unwrap();
}

} // verus!
