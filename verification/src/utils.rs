use vstd::prelude::*;

use rand::Rng;

verus! {

/// Relies on rand::Rng::gen_range over the inclusive range start..=end:
/// it returns a value sampled within that range, and panics only when the
/// range is empty, which the precondition rules out. Nothing is promised
/// about which value comes back.
#[verifier::external_body]
pub fn get_random_int(start: u64, end: u64) -> (r: u64)
    requires
        start <= end,
    ensures
        start <= r <= end,
{
    let mut rng = rand::thread_rng();
    let random_number = rng.gen_range(start..=end);

    random_number
}

} // verus!
