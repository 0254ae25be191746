//! Randomness for the simulation, behind trusted wrappers around `rand`.
//!
//! Nothing is promised about which value a draw yields, only the range it
//! falls in; every caller is verified for all values a draw can take.

use vstd::prelude::*;
use rand::Rng;

verus! {

#[verifier::external_type_specification]
#[verifier::external_body]
pub struct ExThreadRng(rand::rngs::ThreadRng);

/// Relies on rand::thread_rng: a handle to the thread-local generator.
#[verifier::external_body]
pub fn new_rng() -> rand::rngs::ThreadRng {
    rand::thread_rng()
}

/// Relies on rand::Rng::gen_range over `low..high`: uniform in the half-open
/// range, and it panics on an empty range, so the range must not be empty.
#[verifier::external_body]
pub fn gen_range_i64(rng: &mut rand::rngs::ThreadRng, low: i64, high: i64) -> (r: i64)
    requires
        low < high,
    ensures
        low <= r < high,
{
    rng.gen_range(low..high)
}

/// Relies on rand::Rng::gen with the Standard distribution on u128: an
/// arbitrary 128-bit value; nothing is promised of it.
#[verifier::external_body]
pub fn gen_u128(rng: &mut rand::rngs::ThreadRng) -> u128 {
    rng.gen()
}

} // verus!
