//! The random source, taken from `rand`.
use rand::rngs::ThreadRng;
use rand::Rng;
use vstd::prelude::*;

verus! {

/// `rand::rngs::ThreadRng`, a handle to the generator of the running thread. Nothing
/// is known of what is inside.
#[verifier::external_type_specification]
#[verifier::external_body]
pub struct ExThreadRng(ThreadRng);

/// `rand::thread_rng`: the handle to this thread's generator. Nothing is promised of it.
#[verifier::external_body]
pub(crate) fn thread_rng() -> ThreadRng {
    rand::thread_rng()
}

/// `Rng::gen_range` on `0..len`: some index below `len`. Which one is left open, and two
/// calls need not agree. An empty range would panic there, so `len` must not be zero.
#[verifier::external_body]
pub(crate) fn gen_index(rng: &mut ThreadRng, len: usize) -> (index: usize)
    requires
        len > 0,
    ensures
        index < len,
{
    rng.gen_range(0..len)
}

} // verus!
