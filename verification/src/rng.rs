use vstd::prelude::*;
use rand::Rng;

verus! {

/// The thread-local random number generator of `rand`.
#[verifier::external_type_specification]
#[verifier::external_body]
pub struct ExThreadRng(rand::ThreadRng);

/// Calls `rand::thread_rng`, which hands out this thread's generator.
/// Nothing is stated of it: its numbers are chance. `rand` panics there
/// when the system has no entropy to seed it with, which no `requires`
/// can rule out.
#[verifier::external_body]
pub(crate) fn thread_rng() -> rand::ThreadRng {
    rand::thread_rng()
}

/// Calls `Rng::shuffle`, which swaps the items into an order drawn at
/// random (a Fisher-Yates shuffle). Claimed: the same items come out, as
/// many of each as went in; their order is left unsaid.
#[verifier::external_body]
pub(crate) fn shuffle<T>(rng: &mut rand::ThreadRng, values: &mut Vec<T>)
    ensures
        final(values)@.len() == old(values)@.len(),
        final(values)@.to_multiset() == old(values)@.to_multiset(),
{
    rng.shuffle(values.as_mut_slice())
}

} // verus!
