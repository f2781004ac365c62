//! Random choices.

use vstd::prelude::*;
use rand::Rng;

verus! {

/// `rand::random::<bool>`: a fair coin; nothing is known of the outcome.
#[verifier::external_body]
pub(crate) fn random_bool() -> bool {
    rand::random::<bool>()
}

/// `rand::Rng::gen_range` on `0..len`, drawn from the thread's generator: an
/// index below `len`. The range must not be empty.
#[verifier::external_body]
pub(crate) fn random_index(len: usize) -> (r: usize)
    requires
        len > 0,
    ensures
        r < len,
{
    rand::thread_rng().gen_range(0..len)
}

} // verus!
