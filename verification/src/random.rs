//! Random numbers from the `rand` crate. Nothing here is proved: each item
//! states what the crate's documentation promises and no more.

use rand::rngs::ThreadRng;
use rand::Rng;
use vstd::prelude::*;

verus! {

/// The thread-local generator of `rand`. Its state is not modelled.
#[verifier::external_type_specification]
#[verifier::external_body]
pub struct ExThreadRng(ThreadRng);

/// `rand::thread_rng` hands out the generator of the current thread. Nothing
/// is claimed of it. It panics only where the system cannot seed a generator.
pub assume_specification[ rand::thread_rng ]() -> (rng: ThreadRng)
;

/// `Rng::gen_range` on the half-open range `low..high`. The number drawn lies
/// in that range; which number it is depends on chance, so no more is
/// claimed. The call panics on an empty range, which `requires` leaves out.
#[verifier::external_body]
pub(crate) fn gen_range(rng: &mut ThreadRng, low: u32, high: u32) -> (n: u32)
    requires
        low < high,
    ensures
        low <= n < high,
{
    rng.gen_range(low..high)
}

} // verus!
