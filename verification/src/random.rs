use vstd::prelude::*;

verus! {

/// Relies on rand::Rng::gen_range, called on the thread-local generator with
/// a half-open integer range: for a non-empty range the result lies in
/// [lo, hi); on an empty range it panics, which the precondition rules out.
#[verifier::external_body]
pub(crate) fn gen_range_i32(lo: i32, hi: i32) -> (r: i32)
    requires
        lo < hi,
    ensures
        lo <= r < hi,
{
    rand::Rng::gen_range(&mut rand::thread_rng(), lo..hi)
}

} // verus!
