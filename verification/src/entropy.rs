//! The one source of randomness the machine uses.

use vstd::prelude::*;

verus! {

/// Relies on `rand::thread_rng` and `rand::Rng::gen`: draws one uniformly
/// random byte. Every value is possible, so nothing is promised of the
/// result; callers state what holds of every outcome.
#[verifier::external_body]
pub(crate) fn random_byte() -> u8 {
    let mut rng = rand::thread_rng();
    rand::Rng::gen(&mut rng)
}

} // verus!
