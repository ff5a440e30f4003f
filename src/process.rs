//! The computed part of process sampling. Reading the operating system's
//! counters happens outside this library.

use vstd::prelude::*;

verus! {

/// The lowest and highest of the per-core CPU frequencies, or `None` when
/// no core is reported.
pub fn frequency_bounds(freqs: &Vec<u64>) -> (r: Option<(u64, u64)>)
    ensures
        freqs@.len() == 0 <==> r is None,
        r matches Some((lo, hi)) ==> {
            &&& exists|i: int| 0 <= i < freqs@.len() && freqs@[i] == lo
            &&& exists|i: int| 0 <= i < freqs@.len() && freqs@[i] == hi
            &&& forall|i: int| 0 <= i < freqs@.len() ==> lo <= #[trigger] freqs@[i] <= hi
        },
{
    if freqs.len() == 0 {
        return None;
    }
    let mut lo = freqs[0];
    let mut hi = freqs[0];
    let mut i: usize = 1;
    while i < freqs.len()
        invariant
            1 <= i <= freqs@.len(),
            exists|j: int| 0 <= j < i && freqs@[j] == lo,
            exists|j: int| 0 <= j < i && freqs@[j] == hi,
            forall|j: int| 0 <= j < i ==> lo <= #[trigger] freqs@[j] <= hi,
        decreases freqs@.len() - i,
    {
        let f = freqs[i];
        if f < lo {
            lo = f;
        }
        if f > hi {
            hi = f;
        }
        i = i + 1;
    }
    Some((lo, hi))
}

} // verus!
