//! Random choices with the `rand` crate.

use rand::rngs::ThreadRng;
use rand::seq::SliceRandom;
use vstd::prelude::*;

verus! {

/// `rand::rngs::ThreadRng`, carried through unopened.
#[verifier::external_type_specification]
#[verifier::external_body]
pub struct ExThreadRng(ThreadRng);

/// Calls `rand::thread_rng`.
///
/// Trusted: nothing.
#[verifier::external_body]
pub(crate) fn thread_rng() -> (rng: ThreadRng) {
    rand::thread_rng()
}

/// Calls `SliceRandom::choose` and copies the byte out.
///
/// Trusted: an empty slice gives `None`; any other gives one of its own
/// bytes. Which one is left open.
#[verifier::external_body]
pub(crate) fn pick_byte(pool: &[u8], rng: &mut ThreadRng) -> (picked: Option<u8>)
    ensures
        picked is None <==> pool@.len() == 0,
        picked matches Some(byte) ==> pool@.contains(byte),
{
    pool.choose(rng).copied()
}

/// Calls `SliceRandom::shuffle`.
///
/// Trusted: the bytes are permuted in place, so each byte occurs as often
/// after the call as before it. In which order is left open.
#[verifier::external_body]
pub(crate) fn shuffle_bytes(bytes: &mut Vec<u8>, rng: &mut ThreadRng)
    ensures
        final(bytes)@.len() == old(bytes)@.len(),
        final(bytes)@.to_multiset() == old(bytes)@.to_multiset(),
{
    bytes.shuffle(rng)
}

} // verus!
