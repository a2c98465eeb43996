//! Uniformly drawn field elements, for tests and benchmarks.
use vstd::prelude::*;
use rand::Rng;
use crate::modulus::{canonical, P64};

verus! {

/// The per-thread generator of the `rand` crate.
#[verifier::external_type_specification]
#[verifier::external_body]
pub struct ExThreadRng(rand::rngs::ThreadRng);

/// Relies on `rand::thread_rng`: a handle on the generator of this thread.
#[verifier::external_body]
fn thread_generator() -> rand::rngs::ThreadRng {
    rand::thread_rng()
}

/// Relies on `rand::Rng::gen_range` over the half-open range `0..bound`: the
/// value drawn lies in the range, which must not be empty.
#[verifier::external_body]
fn draw_below(rng: &mut rand::rngs::ThreadRng, bound: u64) -> (r: u64)
    requires
        bound > 0,
    ensures
        r < bound,
{
    rng.gen_range(0..bound)
}

/// Draws `n + 1` field elements, each uniformly from `[0, p)`.
pub fn random_elements(n: usize) -> (r: Vec<u64>)
    requires
        n < usize::MAX,
    ensures
        r@.len() == n + 1,
        forall|i: int| 0 <= i < r@.len() ==> canonical(#[trigger] r@[i] as int),
{
    let mut rng = thread_generator();
    let count: usize = n + 1;
    let mut out: Vec<u64> = Vec::new();
    while out.len() < count
        invariant
            count == n + 1,
            out@.len() <= count,
            forall|i: int| 0 <= i < out@.len() ==> canonical(#[trigger] out@[i] as int),
        decreases count - out@.len(),
    {
        let v = draw_below(&mut rng, P64);
        out.push(v);
    }
    out
}

} // verus!
