//! Angle-clustering probability estimator.
//!
//! The estimator takes a non-empty, ascending list of line angles and
//! returns a bounded probability score together with the dominant cluster
//! angle.  Clustering is a single forward merge sweep, not a symmetric
//! clustering: an angle within `batch_size` of the current cluster seed is
//! rewritten to that seed, otherwise it starts a new cluster.  Every
//! cluster is anchored at its first, lowest angle, so the sweep is a
//! deliberately lightweight proxy for "many similar lines", and that
//! behaviour is kept.
//!
//! Ties between equally frequent cluster seeds are resolved towards the
//! lowest angle, so the result is deterministic.

use vstd::prelude::*;

use crate::sorting::freq;
use crate::sorting::lemma_freq_absent;
use crate::sorting::lemma_freq_contains;
use crate::sorting::lemma_freq_le_len;
use crate::sorting::lemma_freq_push;
use crate::sorting::lemma_freq_singleton;
use crate::sorting::sorted;

verus! {

/// The angles after the merge sweep: each element is either its cluster's
/// seed (when it lies within `batch` of the previous rewritten value) or
/// itself (when it opens a new cluster).
pub open spec fn rewrite_seq(s: Seq<u32>, batch: u32) -> Seq<u32>
    decreases s.len(),
{
    if s.len() == 0 {
        Seq::empty()
    } else if s.len() == 1 {
        seq![s[0]]
    } else {
        let prefix = rewrite_seq(s.drop_last(), batch);
        let a = s.last();
        if a - prefix.last() <= batch {
            prefix.push(prefix.last())
        } else {
            prefix.push(a)
        }
    }
}

/// `v` is the most frequent value of `s`; among equally frequent values the
/// lowest one is taken.
pub open spec fn is_dominant(s: Seq<u32>, v: u32) -> bool {
    &&& s.contains(v)
    &&& forall|w: u32| s.contains(w) ==> freq(s, w) <= freq(s, v)
    &&& forall|w: u32| s.contains(w) && freq(s, w) == freq(s, v) ==> v <= w
}

/// The probability score read off a rewritten angle list for dominant value
/// `v`: the dominant count scaled by `100 / divisor`, clamped to 100.
pub open spec fn prob_with(s: Seq<u32>, v: u32, divisor: int) -> int
    recommends
        divisor > 0,
{
    let raw = freq(s, v) as int * 100 / divisor;
    if raw > 100 {
        100
    } else {
        raw
    }
}

/// At most one value of a sequence is dominant.
pub proof fn lemma_dominant_unique(s: Seq<u32>, v: u32, w: u32)
    requires
        is_dominant(s, v),
        is_dominant(s, w),
    ensures
        v == w,
{
}

/// Clustering estimator with explicit parameters.
///
/// Returns `(probability, dominant angle)` where the probability is
/// `highest_freq * 100 / (high_thresh - low_thresh)` clamped to `[0, 100]`,
/// the highest frequency is taken over the clusters of the merge sweep, and
/// the dominant angle is the seed of the most frequent cluster (ties go to
/// the lowest seed).
pub fn cluster_probability(angles: &Vec<u32>, batch_size: u32, high_thresh: u32, low_thresh: u32) -> (r: (
    u8,
    u32,
))
    requires
        angles@.len() > 0,
        sorted(angles@),
        low_thresh < high_thresh,
    ensures
        ({
            let rw = rewrite_seq(angles@, batch_size);
            &&& is_dominant(rw, r.1)
            &&& r.0 as int == prob_with(rw, r.1, high_thresh as int - low_thresh as int)
            &&& r.0 <= 100
        }),
{
    let first = angles[0];
    let mut seed: u32 = first;
    let mut cur: usize = 1;
    let mut best_angle: u32 = first;
    let mut best: usize = 1;
    let mut i: usize = 1;
    proof {
        let rw1 = rewrite_seq(angles@.take(1), batch_size);
        assert(angles@.take(1) =~= seq![angles@[0]]);
        assert(rw1 =~= seq![first]);
        lemma_freq_singleton(first, first);
        assert forall|x: u32| freq(rw1, x) <= 1 by {
            lemma_freq_singleton(first, x);
        }
        assert forall|x: u32| freq(rw1, x) == 1 implies first <= x by {
            lemma_freq_singleton(first, x);
        }
    }
    while i < angles.len()
        invariant
            1 <= i <= angles@.len(),
            sorted(angles@),
            cur <= i,
            best <= i,
            1 <= best,
            ({
                let rw = rewrite_seq(angles@.take(i as int), batch_size);
                &&& rw.len() == i
                &&& rw.last() == seed
                &&& seed <= angles@[i - 1]
                &&& forall|t: int| 0 <= t < rw.len() ==> rw[t] <= seed
                &&& freq(rw, seed) == cur
                &&& freq(rw, best_angle) == best
                &&& best_angle <= seed
                &&& forall|x: u32| freq(rw, x) <= best
                &&& forall|x: u32| freq(rw, x) == best ==> best_angle <= x
            }),
        decreases angles@.len() - i,
    {
        let ghost prev = rewrite_seq(angles@.take(i as int), batch_size);
        let a = angles[i];
        proof {
            assert(angles@.take(i as int + 1).drop_last() =~= angles@.take(i as int));
            assert(angles@[i - 1] <= a);
        }
        if a - seed <= batch_size {
            cur += 1;
        } else {
            proof {
                lemma_freq_absent(prev, a);
            }
            seed = a;
            cur = 1;
        }
        let ghost oba = best_angle;
        if cur > best {
            best = cur;
            best_angle = seed;
        }
        proof {
            let rw = rewrite_seq(angles@.take(i as int + 1), batch_size);
            assert(rw =~= prev.push(seed));
            lemma_freq_push(prev, seed, seed);
            lemma_freq_push(prev, seed, best_angle);
            lemma_freq_push(prev, seed, oba);
            assert forall|x: u32| freq(rw, x) <= best by {
                lemma_freq_push(prev, seed, x);
            }
            assert forall|x: u32| freq(rw, x) == best implies best_angle <= x by {
                lemma_freq_push(prev, seed, x);
            }
        }
        i += 1;
    }
    proof {
        assert(angles@.take(angles@.len() as int) =~= angles@);
        let rw = rewrite_seq(angles@, batch_size);
        lemma_freq_contains(rw, best_angle);
        assert(is_dominant(rw, best_angle));
        lemma_freq_le_len(rw, best_angle);
    }
    let divisor = high_thresh - low_thresh;
    let scaled: u128 = best as u128 * 100 / divisor as u128;
    let prob: u8 = if scaled > 100 {
        100
    } else {
        scaled as u8
    };
    (prob, best_angle)
}

/// Barcode probability of a non-empty ascending angle list, with the
/// documented default parameters: batch size 5 and probability divisor
/// `30 - 5 = 25`.
pub fn barcode_probability(angles: Vec<u32>) -> (r: (u8, u32))
    requires
        angles@.len() > 0,
        sorted(angles@),
    ensures
        ({
            let rw = rewrite_seq(angles@, 5);
            &&& is_dominant(rw, r.1)
            &&& r.0 as int == prob_with(rw, r.1, 25)
            &&& r.0 <= 100
        }),
{
    cluster_probability(&angles, 5, 30, 5)
}

} // verus!
