use vstd::prelude::*;

verus! {

/// The thread-local pseudo-random generator of the `rand` crate. Its
/// internals are opaque here; it is carried as the game's source of step
/// sizes and initial placements.
#[verifier::external_type_specification]
#[verifier::external_body]
pub struct ExThreadRng(rand::rngs::ThreadRng);

/// Relies on rand::thread_rng: hands out the thread-local generator.
/// Nothing is promised of it; every draw from it is specified at the
/// drawing call.
#[verifier::external_body]
pub(crate) fn fresh_rng() -> rand::rngs::ThreadRng {
    rand::thread_rng()
}

/// Relies on rand::Rng::gen_range over `lo..hi`: it returns a value of
/// the half-open range, and panics only when the range is empty, which
/// the precondition rules out. Which value comes back is deliberately
/// left open: it is random.
#[verifier::external_body]
pub(crate) fn gen_range_u16(rng: &mut rand::rngs::ThreadRng, lo: u16, hi: u16) -> (r: u16)
    requires
        lo < hi,
    ensures
        lo <= r < hi,
{
    rand::Rng::gen_range(rng, lo..hi)
}

} // verus!
