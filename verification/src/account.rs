//! Account identifiers and the random source that mints them.

use rand::rngs::ThreadRng;
use rand::Rng;
use vstd::prelude::*;

verus! {

/// The smallest account identifier.
pub const ACCOUNT_ID_MIN: usize = 1000;

/// One past the largest account identifier.
pub const ACCOUNT_ID_END: usize = 99999;

/// Whether `id` lies in the range that account identifiers are drawn from.
pub open spec fn in_account_range(id: usize) -> bool {
    ACCOUNT_ID_MIN <= id < ACCOUNT_ID_END
}

/// `rand::rngs::ThreadRng`, the handle to a thread's random generator.
/// Nothing is known of what it holds.
#[verifier::external_type_specification]
#[verifier::external_body]
pub struct ExThreadRng(ThreadRng);

/// `rand::thread_rng`. Hands out the calling thread's generator; nothing is
/// claimed of it. The generator is seeded from the operating system on a
/// thread's first call, and that call panics where the system has no
/// entropy to give.
#[verifier::external_body]
pub(crate) fn thread_rng() -> ThreadRng {
    rand::thread_rng()
}

/// `rand::Rng::gen_range` on a half-open range of `usize`. The call panics
/// on an empty range, which `requires` leaves out. The value drawn lies in
/// the range; which one it is depends on chance, so nothing more is said.
#[verifier::external_body]
pub(crate) fn gen_range(rng: &mut ThreadRng, low: usize, high: usize) -> (drawn: usize)
    requires
        low < high,
    ensures
        low <= drawn < high,
{
    rng.gen_range(low..high)
}

/// Whether `id` lies in the account range.
pub fn is_account_id(id: usize) -> (yes: bool)
    ensures
        yes == in_account_range(id),
{
    ACCOUNT_ID_MIN <= id && id < ACCOUNT_ID_END
}

} // verus!
