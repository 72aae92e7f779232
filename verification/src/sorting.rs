//! Ascending sort of angle lists, specified by element frequencies.

use vstd::prelude::*;

verus! {

/// The sequence is in ascending order.
pub open spec fn sorted(s: Seq<u32>) -> bool {
    forall|i: int, j: int| 0 <= i <= j < s.len() ==> s[i] <= s[j]
}

/// How many positions of `s` hold the value `v`.
pub open spec fn freq(s: Seq<u32>, v: u32) -> nat
    decreases s.len(),
{
    if s.len() == 0 {
        0
    } else {
        freq(s.drop_last(), v) + if s.last() == v {
            1nat
        } else {
            0nat
        }
    }
}

pub proof fn lemma_freq_push(s: Seq<u32>, x: u32, v: u32)
    ensures
        freq(s.push(x), v) == freq(s, v) + if x == v {
            1nat
        } else {
            0nat
        },
{
    assert(s.push(x).drop_last() =~= s);
}

pub proof fn lemma_freq_cat(a: Seq<u32>, b: Seq<u32>, v: u32)
    ensures
        freq(a + b, v) == freq(a, v) + freq(b, v),
    decreases b.len(),
{
    if b.len() == 0 {
        assert(a + b =~= a);
    } else {
        assert((a + b).drop_last() =~= a + b.drop_last());
        lemma_freq_cat(a, b.drop_last(), v);
    }
}

pub proof fn lemma_freq_singleton(x: u32, v: u32)
    ensures
        freq(seq![x], v) == if x == v {
            1nat
        } else {
            0nat
        },
{
    assert(seq![x].drop_last() =~= Seq::<u32>::empty());
    assert(freq(Seq::<u32>::empty(), v) == 0);
    assert(seq![x].last() == x);
}

pub proof fn lemma_freq_insert(s: Seq<u32>, i: int, x: u32, v: u32)
    requires
        0 <= i <= s.len(),
    ensures
        freq(s.insert(i, x), v) == freq(s, v) + if x == v {
            1nat
        } else {
            0nat
        },
{
    let lft = s.subrange(0, i);
    let rgt = s.subrange(i, s.len() as int);
    assert(s.insert(i, x) =~= lft.push(x) + rgt);
    lemma_freq_cat(lft.push(x), rgt, v);
    lemma_freq_push(lft, x, v);
    assert(s =~= lft + rgt);
    lemma_freq_cat(lft, rgt, v);
}

/// A value that occurs in a sequence has a positive count, and conversely.
pub proof fn lemma_freq_contains(s: Seq<u32>, v: u32)
    ensures
        freq(s, v) > 0 <==> s.contains(v),
    decreases s.len(),
{
    if s.len() > 0 {
        lemma_freq_contains(s.drop_last(), v);
        if s.last() != v && s.contains(v) {
            let t = choose|t: int| 0 <= t < s.len() && s[t] == v;
            assert(s.drop_last()[t] == v);
        }
    }
}

pub proof fn lemma_freq_absent(s: Seq<u32>, v: u32)
    requires
        forall|t: int| 0 <= t < s.len() ==> s[t] != v,
    ensures
        freq(s, v) == 0,
{
    lemma_freq_contains(s, v);
}

pub proof fn lemma_freq_le_len(s: Seq<u32>, v: u32)
    ensures
        freq(s, v) <= s.len(),
    decreases s.len(),
{
    if s.len() > 0 {
        lemma_freq_le_len(s.drop_last(), v);
    }
}

/// Two sequences with equal counts everywhere hold the same values.
pub proof fn lemma_freq_same_elements(a: Seq<u32>, b: Seq<u32>)
    requires
        forall|v: u32| freq(a, v) == freq(b, v),
    ensures
        forall|t: int| 0 <= t < b.len() ==> a.contains(b[t]),
{
    assert forall|t: int| 0 <= t < b.len() implies a.contains(b[t]) by {
        assert(b.contains(b[t]));
        lemma_freq_contains(b, b[t]);
        lemma_freq_contains(a, b[t]);
    }
}

/// The ascending sequence obtained by inserting `x` into the sorted
/// sequence `s` at its place.
pub open spec fn insert_sorted(s: Seq<u32>, x: u32) -> Seq<u32>
    decreases s.len(),
{
    if s.len() == 0 {
        seq![x]
    } else if x >= s.last() {
        s.push(x)
    } else {
        insert_sorted(s.drop_last(), x).push(s.last())
    }
}

/// The ascending reordering of a sequence.
pub open spec fn sort_seq(s: Seq<u32>) -> Seq<u32>
    decreases s.len(),
{
    if s.len() == 0 {
        Seq::empty()
    } else {
        insert_sorted(sort_seq(s.drop_last()), s.last())
    }
}

pub proof fn lemma_insert_sorted(s: Seq<u32>, x: u32)
    requires
        sorted(s),
    ensures
        sorted(insert_sorted(s, x)),
        insert_sorted(s, x).len() == s.len() + 1,
        forall|v: u32|
            freq(insert_sorted(s, x), v) == freq(s, v) + if x == v {
                1nat
            } else {
                0nat
            },
    decreases s.len(),
{
    if s.len() == 0 {
        assert forall|v: u32|
            freq(insert_sorted(s, x), v) == freq(s, v) + if x == v {
                1nat
            } else {
                0nat
            } by {
            lemma_freq_singleton(x, v);
        }
    } else if x >= s.last() {
        assert forall|v: u32|
            freq(insert_sorted(s, x), v) == freq(s, v) + if x == v {
                1nat
            } else {
                0nat
            } by {
            lemma_freq_push(s, x, v);
        }
    } else {
        let t = insert_sorted(s.drop_last(), x);
        lemma_insert_sorted(s.drop_last(), x);
        assert forall|i: int| 0 <= i < t.len() implies t[i] <= s.last() by {
            assert(t.contains(t[i]));
            lemma_freq_contains(t, t[i]);
            if t[i] != x {
                lemma_freq_contains(s.drop_last(), t[i]);
                let j = choose|j: int| 0 <= j < s.drop_last().len() && s.drop_last()[j] == t[i];
                assert(s[j] <= s.last());
            }
        }
        assert forall|v: u32|
            freq(insert_sorted(s, x), v) == freq(s, v) + if x == v {
                1nat
            } else {
                0nat
            } by {
            lemma_freq_push(t, s.last(), v);
        }
    }
}

pub proof fn lemma_sort_seq(s: Seq<u32>)
    ensures
        sorted(sort_seq(s)),
        sort_seq(s).len() == s.len(),
        forall|v: u32| freq(sort_seq(s), v) == freq(s, v),
    decreases s.len(),
{
    if s.len() > 0 {
        lemma_sort_seq(s.drop_last());
        lemma_insert_sorted(sort_seq(s.drop_last()), s.last());
        assert forall|v: u32| freq(sort_seq(s), v) == freq(s, v) by {
            lemma_freq_push(s.drop_last(), s.last(), v);
            assert(s.drop_last().push(s.last()) =~= s);
        }
    }
}

/// A multiset of values has exactly one ascending arrangement.
pub proof fn lemma_sorted_unique(a: Seq<u32>, b: Seq<u32>)
    requires
        sorted(a),
        sorted(b),
        forall|v: u32| freq(a, v) == freq(b, v),
    ensures
        a == b,
    decreases a.len(),
{
    if a.len() == 0 {
        if b.len() > 0 {
            assert(b.contains(b.last()));
            lemma_freq_contains(b, b.last());
            lemma_freq_contains(a, b.last());
        }
        assert(a =~= b);
    } else {
        assert(a.contains(a.last()));
        lemma_freq_contains(a, a.last());
        lemma_freq_contains(b, a.last());
        let i = choose|i: int| 0 <= i < b.len() && b[i] == a.last();
        assert(b[i] <= b.last());
        assert(b.contains(b.last()));
        lemma_freq_contains(b, b.last());
        lemma_freq_contains(a, b.last());
        let j = choose|j: int| 0 <= j < a.len() && a[j] == b.last();
        assert(a[j] <= a.last());
        assert(a.last() == b.last());
        assert forall|v: u32| freq(a.drop_last(), v) == freq(b.drop_last(), v) by {
            assert(freq(a, v) == freq(a.drop_last(), v) + if a.last() == v {
                1nat
            } else {
                0nat
            });
            assert(freq(b, v) == freq(b.drop_last(), v) + if b.last() == v {
                1nat
            } else {
                0nat
            });
        }
        lemma_sorted_unique(a.drop_last(), b.drop_last());
        assert(a.drop_last().len() == b.drop_last().len());
        assert forall|i: int| 0 <= i < a.len() implies a[i] == b[i] by {
            if i < a.len() - 1 {
                assert(a.drop_last()[i] == b.drop_last()[i]);
            }
        }
        assert(a =~= b);
    }
}

/// Sorts the vector ascending.  The result is a permutation of the input:
/// every value keeps its number of occurrences.
pub fn sort_angles(v: &mut Vec<u32>)
    ensures
        sorted(final(v)@),
        final(v)@.len() == old(v)@.len(),
        forall|x: u32| freq(final(v)@, x) == freq(old(v)@, x),
        forall|t: int| 0 <= t < final(v)@.len() ==> old(v)@.contains(final(v)@[t]),
{
    let ghost orig = v@;
    let mut out: Vec<u32> = Vec::new();
    let mut k: usize = 0;
    while k < v.len()
        invariant
            v@ == orig,
            k <= orig.len(),
            sorted(out@),
            out@.len() == k,
            forall|x: u32| freq(out@, x) == freq(orig.take(k as int), x),
        decreases orig.len() - k,
    {
        let a = v[k];
        let mut pos: usize = 0;
        while pos < out.len() && out[pos] <= a
            invariant
                pos <= out@.len(),
                sorted(out@),
                forall|t: int| 0 <= t < pos ==> out@[t] <= a,
            decreases out@.len() - pos,
        {
            pos += 1;
        }
        let ghost before = out@;
        out.insert(pos, a);
        proof {
            before.insert_ensures(pos as int, a);
            assert(sorted(out@)) by {
                assert forall|i: int, j: int| 0 <= i <= j < out@.len() implies out@[i]
                    <= out@[j] by {
                    if i < pos && j > pos {
                        assert(before[i] <= a);
                        assert(before[j - 1] > a);
                    }
                }
            }
            assert forall|x: u32| freq(out@, x) == freq(orig.take(k + 1 as int), x) by {
                lemma_freq_insert(before, pos as int, a, x);
                assert(orig.take(k + 1 as int) =~= orig.take(k as int).push(orig[k as int]));
                lemma_freq_push(orig.take(k as int), a, x);
            }
        }
        k += 1;
    }
    proof {
        assert(orig.take(orig.len() as int) =~= orig);
        lemma_freq_same_elements(orig, out@);
    }
    *v = out;
}

} // verus!
