//! Median of a numeric sequence.

use vstd::prelude::*;

verus! {

/// Mathematical median of a sequence.
///
/// For an odd length this is the middle element.  For an even length it is
/// the mean (rounded towards zero) of the two middle elements.  The even
/// case deliberately averages both middle elements — the alternative of
/// reading only the upper middle element twice and subtracting one
/// underflows whenever that element is zero, so the conventional average is
/// the documented choice here.
pub open spec fn median_spec(s: Seq<u32>) -> int
    recommends
        s.len() > 0,
{
    let l = s.len() as int;
    if l % 2 == 0 {
        (s[l / 2 - 1] + s[l / 2]) / 2
    } else {
        s[l / 2] as int
    }
}

/// Median of a non-empty vector, as `median_spec` states it.
pub fn vector_median(vec: &Vec<u32>) -> (r: u32)
    requires
        vec@.len() > 0,
    ensures
        r as int == median_spec(vec@),
{
    let len = vec.len();
    if len % 2 == 0 {
        let lo = vec[len / 2 - 1];
        let hi = vec[len / 2];
        ((lo as u64 + hi as u64) / 2) as u32
    } else {
        vec[len / 2]
    }
}

} // verus!
