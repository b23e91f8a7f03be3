//! Random characters, drawn by the `rand` crate.
//!
//! Nothing here is proved: each contract says what the `rand` crate is
//! trusted to do. What is drawn differs from call to call, so a contract says
//! only what holds of every draw.

use vstd::prelude::*;

verus! {

/// The generator that `rand::rng` hands out: a handle to the one that the
/// calling thread owns.
#[verifier::external_type_specification]
#[verifier::external_body]
pub struct ExThreadRng(rand::rngs::ThreadRng);

/// `b` is an ASCII letter or digit.
pub open spec fn is_alphanumeric(b: u8) -> bool {
    ||| 0x30 <= b <= 0x39
    ||| 0x41 <= b <= 0x5A
    ||| 0x61 <= b <= 0x7A
}

/// `rand::rng` gives a handle to the calling thread's generator.
pub assume_specification[ rand::rng ]() -> rand::rngs::ThreadRng;

/// Draws one byte from `rand::distr::Alphanumeric` with `rand::Rng::sample`:
/// an ASCII letter or digit, whichever the generator picks.
#[verifier::external_body]
pub(crate) fn sample_alphanumeric(rng: &mut rand::rngs::ThreadRng) -> (b: u8)
    ensures
        is_alphanumeric(b),
{
    rand::Rng::sample(rng, rand::distr::Alphanumeric)
}

} // verus!
