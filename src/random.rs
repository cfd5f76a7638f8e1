use vstd::prelude::*;
use rand::Rng;

verus! {

/// Relies on `rand::Rng::gen_range` of rand 0.7 on `rand::thread_rng()`: a value in
/// `[lo, hi)`. It panics when `lo >= hi`, which `requires` leaves out.
#[verifier::external_body]
fn gen_range_i64(lo: i64, hi: i64) -> (r: i64)
    requires
        lo < hi,
    ensures
        lo <= r < hi,
{
    rand::thread_rng().gen_range(lo, hi)
}

/// A random value in `[lo, hi)`; `lo` itself when that range is empty.
pub fn random_in(lo: i64, hi: i64) -> (r: i64)
    ensures
        lo < hi ==> lo <= r < hi,
        lo >= hi ==> r == lo,
{
    if lo < hi {
        gen_range_i64(lo, hi)
    } else {
        lo
    }
}

} // verus!
