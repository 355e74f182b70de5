//! Randomness: identifier minting and the dice roll. The calls into the
//! `rand` crate stand behind trusted wrappers; everything built on them
//! is verified for every value the wrappers may return.

use vstd::prelude::*;
use rand::Rng;

verus! {

/// Relies on rand::Rng::gen via rand::thread_rng: a uniformly random
/// 128-bit value. Nothing is promised of the result.
#[verifier::external_body]
fn random_u128() -> u128 {
    rand::thread_rng().gen::<u128>()
}

/// Relies on rand::Rng::gen via rand::thread_rng: a uniformly random
/// 64-bit value. Nothing is promised of the result.
#[verifier::external_body]
fn random_u64() -> u64 {
    rand::thread_rng().gen::<u64>()
}

/// Relies on rand::Rng::gen_range via rand::thread_rng: a value drawn
/// from the non-empty range 1..7, so between 1 and 6 inclusive.
#[verifier::external_body]
pub(crate) fn random_die_roll() -> (r: u32)
    ensures
        1 <= r <= 6,
{
    rand::thread_rng().gen_range(1u32..7u32)
}

/// A freshly minted 128-bit trace identifier: random, and never
/// all-zero (the one excluded value is mapped to 1).
pub fn mint_trace_id() -> (r: u128)
    ensures
        r != 0,
{
    let x = random_u128();
    if x == 0 {
        1
    } else {
        x
    }
}

/// A freshly minted 64-bit span identifier: random, and never all-zero.
pub fn mint_span_id() -> (r: u64)
    ensures
        r != 0,
{
    let x = random_u64();
    if x == 0 {
        1
    } else {
        x
    }
}

} // verus!
