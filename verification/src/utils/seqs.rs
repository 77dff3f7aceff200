//! Facts about sequences that loops over vectors lean on.

use vstd::prelude::*;

verus! {

/// Filtering the first `i + 1` items is filtering the first `i` and then
/// deciding on the item at `i`.
pub proof fn lemma_filter_step<A>(s: Seq<A>, pred: spec_fn(A) -> bool, i: int)
    requires
        0 <= i < s.len(),
    ensures
        s.subrange(0, i + 1).filter(pred) == if pred(s[i]) {
            s.subrange(0, i).filter(pred).push(s[i])
        } else {
            s.subrange(0, i).filter(pred)
        },
{
    let p = s.subrange(0, i + 1);
    assert(p.drop_last() == s.subrange(0, i));
    assert(p.last() == s[i]);
    reveal(Seq::filter);
}

/// Filtering nothing gives nothing.
pub proof fn lemma_filter_empty<A>(s: Seq<A>, pred: spec_fn(A) -> bool)
    requires
        s.len() == 0,
    ensures
        s.filter(pred) == s,
{
    reveal(Seq::filter);
}

/// A filter that every item passes keeps the sequence, and two filters that
/// agree on every item keep the same.
pub proof fn lemma_filter_agree<A>(s: Seq<A>, p: spec_fn(A) -> bool, q: spec_fn(A) -> bool)
    requires
        forall|i: int| 0 <= i < s.len() ==> p(s[i]) == q(s[i]),
    ensures
        s.filter(p) == s.filter(q),
        (forall|i: int| 0 <= i < s.len() ==> p(s[i])) ==> s.filter(p) == s,
        (forall|i: int| 0 <= i < s.len() ==> !p(s[i])) ==> s.filter(p).len() == 0,
    decreases s.len(),
{
    reveal(Seq::filter);
    if s.len() > 0 {
        let init = s.drop_last();
        assert forall|i: int| 0 <= i < init.len() implies p(init[i]) == q(init[i]) by {
            assert(init[i] == s[i]);
        }
        lemma_filter_agree(init, p, q);
        if forall|i: int| 0 <= i < s.len() ==> p(s[i]) {
            assert forall|i: int| 0 <= i < init.len() implies p(init[i]) by {
                assert(init[i] == s[i]);
            }
            assert(init.push(s.last()) == s);
        }
        if forall|i: int| 0 <= i < s.len() ==> !p(s[i]) {
            assert forall|i: int| 0 <= i < init.len() implies !p(init[i]) by {
                assert(init[i] == s[i]);
            }
        }
    }
}

/// An item is in a filtered sequence just when it is in the sequence and
/// passes the filter.
pub proof fn lemma_filter_members<A>(s: Seq<A>, pred: spec_fn(A) -> bool)
    ensures
        forall|x: A| #[trigger] s.filter(pred).contains(x) <==> s.contains(x) && pred(x),
    decreases s.len(),
{
    reveal(Seq::filter);
    if s.len() == 0 {
        assert forall|x: A| #[trigger] s.filter(pred).contains(x) <==> s.contains(x) && pred(
            x,
        ) by {}
    } else {
        let init = s.drop_last();
        lemma_filter_members(init, pred);
        assert forall|x: A| #[trigger] s.filter(pred).contains(x) <==> s.contains(x) && pred(
            x,
        ) by {
            let f = s.filter(pred);
            if f.contains(x) {
                let k = choose|k: int| 0 <= k < f.len() && f[k] == x;
                if pred(s.last()) && k == f.len() - 1 {
                    assert(s[s.len() - 1] == x);
                } else {
                    assert(init.filter(pred)[k] == x);
                    assert(init.filter(pred).contains(x));
                    let j = choose|j: int| 0 <= j < init.len() && init[j] == x;
                    assert(s[j] == x);
                }
            }
            if s.contains(x) && pred(x) {
                let j = choose|j: int| 0 <= j < s.len() && s[j] == x;
                if j == s.len() - 1 {
                    assert(f.last() == x);
                } else {
                    assert(init[j] == x);
                    assert(init.filter(pred).contains(x));
                    let k = choose|k: int|
                        0 <= k < init.filter(pred).len() && init.filter(pred)[k] == x;
                    assert(f[k] == x);
                }
            }
        }
    }
}

} // verus!
