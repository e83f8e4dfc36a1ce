//! The source of randomness: the thread-local generator of the `rand`
//! crate. Nothing is proved of what it draws but the range.

use vstd::prelude::*;
use rand::Rng;
use rand::rngs::ThreadRng;

verus! {

#[verifier::external_type_specification]
#[verifier::external_body]
pub struct ExThreadRng(ThreadRng);

/// `rand::thread_rng` hands out a handle to the generator of the calling
/// thread. Nothing is claimed of the handle. The first call in a thread
/// seeds the generator from the operating system and panics if that gives
/// no entropy.
pub assume_specification[ rand::thread_rng ]() -> (rng: ThreadRng)
;

/// `Rng::gen_range` on the half-open range `low..high` of `i64`: it panics
/// when the range is empty, which `requires` leaves out, and otherwise
/// returns a number of the range. Which number is left open. Now and then
/// the generator reseeds itself from the operating system while it draws,
/// and panics if that gives no entropy; no argument decides that.
#[verifier::external_body]
pub(crate) fn draw_between(rng: &mut ThreadRng, low: i64, high: i64) -> (r: i64)
    requires
        low < high,
    ensures
        low <= r < high,
{
    rng.gen_range(low..high)
}

} // verus!
