//! Uniform random offsets, drawn from the calling thread's generator.

use rand::rngs::ThreadRng;
use rand::Rng;
use vstd::prelude::*;

verus! {

/// `rand::rngs::ThreadRng`, the handle to a thread's generator. Its inside
/// is not looked at: a value is only created and handed to the draw.
#[verifier::external_type_specification]
#[verifier::external_body]
pub struct ExThreadRng(ThreadRng);

/// Source of random offsets for one worker thread.
pub struct Sampler {
    rng: ThreadRng,
}

/// `rand::thread_rng`: a handle to the calling thread's generator, which the
/// system seeds. Nothing is claimed of the handle.
#[verifier::external_body]
fn thread_generator() -> ThreadRng {
    rand::thread_rng()
}

/// `rand::Rng::gen_range` on the half-open range `low..high`. The range must
/// not be empty, or the call panics. The draw is some value of the range;
/// which one is left open, and two draws may differ.
#[verifier::external_body]
fn draw_in_range(rng: &mut ThreadRng, low: u64, high: u64) -> (drawn: u64)
    requires
        low < high,
    ensures
        low <= drawn < high,
{
    rng.gen_range(low..high)
}

impl Sampler {
    /// A sampler on the calling thread's generator.
    pub fn new() -> Sampler {
        Sampler { rng: thread_generator() }
    }

    /// Draws an index into a region of `len` bytes.
    pub fn draw_index(&mut self, len: usize) -> (index: usize)
        requires
            len > 0,
        ensures
            index < len,
    {
        let drawn = draw_in_range(&mut self.rng, 0, len as u64);
        drawn as usize
    }
}

} // verus!
