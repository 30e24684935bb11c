use vstd::prelude::*;

verus! {

/// Whether `s` is in ascending order.
pub open spec fn ascending(s: Seq<u128>) -> bool {
    forall|i: int, j: int| 0 <= i <= j < s.len() ==> s[i] <= s[j]
}

/// The 50th, 95th and 99th percentile of an ascending sequence of samples,
/// each the element at that fraction of the length, rounded down.
pub open spec fn percentiles_of(s: Seq<u128>) -> (u128, u128, u128) {
    let n = s.len() as int;
    (s[n / 2], s[(n * 95) / 100], s[(n * 99) / 100])
}

/// Relies on slice::sort: the same values, in ascending order.
#[verifier::external_body]
fn sort_samples(samples: Vec<u128>) -> (r: Vec<u128>)
    ensures
        r@.to_multiset() == samples@.to_multiset(),
        r@.len() == samples@.len(),
        ascending(r@),
{
    let mut s = samples;
    s.sort();
    s
}

/// The median, 95th and 99th percentile of latency samples.
pub fn latency_percentiles(samples: Vec<u128>) -> (r: (u128, u128, u128))
    requires
        samples@.len() > 0,
        samples@.len() * 99 <= usize::MAX,
    ensures
        exists|s: Seq<u128>|
            s.to_multiset() == samples@.to_multiset() && s.len() == samples@.len() && ascending(s)
                && r == percentiles_of(s),
{
    let s = sort_samples(samples);
    let n = s.len();
    assert((n * 95) / 100 < n && (n * 99) / 100 < n) by (nonlinear_arith)
        requires n > 0;
    let r = (s[n / 2], s[(n * 95) / 100], s[(n * 99) / 100]);
    assert(r == percentiles_of(s@));
    r
}

} // verus!
