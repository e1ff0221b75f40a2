use vstd::prelude::*;

verus! {

/// Filtering one element more either keeps that element or changes nothing.
pub proof fn lemma_filter_step<A>(s: Seq<A>, pred: spec_fn(A) -> bool, i: int)
    requires
        0 <= i < s.len(),
    ensures
        s.take(i + 1).filter(pred) == if pred(s[i]) {
            s.take(i).filter(pred).push(s[i])
        } else {
            s.take(i).filter(pred)
        },
{
    reveal(Seq::filter);
    assert(s.take(i + 1).drop_last() =~= s.take(i));
    assert(s.take(i + 1).last() == s[i]);
}

/// Every element of a filtered sequence stands in the original and meets
/// the predicate.
pub proof fn lemma_filter_member<A>(s: Seq<A>, pred: spec_fn(A) -> bool, k: int)
    requires
        0 <= k < s.filter(pred).len(),
    ensures
        pred(s.filter(pred)[k]),
        exists|a: int| 0 <= a < s.len() && s[a] == s.filter(pred)[k],
    decreases s.len(),
{
    reveal(Seq::filter);
    if s.len() > 0 {
        let rest = s.drop_last();
        if pred(s.last()) && k == rest.filter(pred).len() {
            assert(s[s.len() - 1] == s.filter(pred)[k]);
        } else {
            lemma_filter_member(rest, pred, k);
            let a = choose|a: int| 0 <= a < rest.len() && rest[a] == rest.filter(pred)[k];
            assert(s[a] == s.filter(pred)[k]);
        }
    }
}

/// Two elements of a filtered sequence stand in the original in the same order.
pub proof fn lemma_filter_order<A>(s: Seq<A>, pred: spec_fn(A) -> bool, i: int, j: int)
    requires
        0 <= i < j < s.filter(pred).len(),
    ensures
        exists|a: int, b: int|
            0 <= a < b < s.len() && s[a] == s.filter(pred)[i] && s[b] == s.filter(pred)[j],
    decreases s.len(),
{
    reveal(Seq::filter);
    if s.len() > 0 {
        let rest = s.drop_last();
        if pred(s.last()) && j == rest.filter(pred).len() {
            lemma_filter_member(rest, pred, i);
            let a = choose|a: int| 0 <= a < rest.len() && rest[a] == rest.filter(pred)[i];
            let b = s.len() - 1;
            assert(0 <= a < b < s.len() && s[a] == s.filter(pred)[i] && s[b] == s.filter(pred)[j]);
        } else {
            lemma_filter_order(rest, pred, i, j);
            let (a, b) = choose|a: int, b: int|
                0 <= a < b < rest.len() && rest[a] == rest.filter(pred)[i] && rest[b]
                    == rest.filter(pred)[j];
            assert(0 <= a < b < s.len() && s[a] == s.filter(pred)[i] && s[b] == s.filter(pred)[j]);
        }
    }
}

/// An element that meets the predicate stands in the filtered sequence.
pub proof fn lemma_filter_keeps<A>(s: Seq<A>, pred: spec_fn(A) -> bool, a: int)
    requires
        0 <= a < s.len(),
        pred(s[a]),
    ensures
        exists|k: int| 0 <= k < s.filter(pred).len() && s.filter(pred)[k] == s[a],
    decreases s.len(),
{
    reveal(Seq::filter);
    let rest = s.drop_last();
    if a == s.len() - 1 {
        let k = rest.filter(pred).len() as int;
        assert(s.filter(pred)[k] == s[a]);
    } else {
        lemma_filter_keeps(rest, pred, a);
        let k = choose|k: int| 0 <= k < rest.filter(pred).len() && rest.filter(pred)[k] == rest[a];
        assert(s.filter(pred)[k] == s[a]);
    }
}

/// Filtering a sequence whose every element meets the predicate changes
/// nothing.
pub proof fn lemma_filter_same<A>(s: Seq<A>, pred: spec_fn(A) -> bool)
    requires
        forall|k: int| 0 <= k < s.len() ==> pred(#[trigger] s[k]),
    ensures
        s.filter(pred) == s,
    decreases s.len(),
{
    reveal(Seq::filter);
    if s.len() > 0 {
        let rest = s.drop_last();
        assert forall|k: int| 0 <= k < rest.len() implies pred(#[trigger] rest[k]) by {
            assert(rest[k] == s[k]);
        }
        lemma_filter_same(rest, pred);
        assert(pred(s[s.len() - 1]));
        assert(rest.push(s.last()) =~= s);
    }
}

/// Filtering by a predicate and then by a stronger one is filtering by the
/// stronger one.
pub proof fn lemma_filter_twice<A>(s: Seq<A>, weak: spec_fn(A) -> bool, strong: spec_fn(A) -> bool)
    requires
        forall|x: A| #[trigger] strong(x) ==> weak(x),
    ensures
        s.filter(weak).filter(strong) == s.filter(strong),
    decreases s.len(),
{
    reveal(Seq::filter);
    if s.len() > 0 {
        let rest = s.drop_last();
        lemma_filter_twice(rest, weak, strong);
        if weak(s.last()) {
            let kept = rest.filter(weak);
            assert(kept.push(s.last()).drop_last() =~= kept);
        }
    }
}

/// A predicate and its negation split a sequence: what one keeps, the other
/// drops.
pub proof fn lemma_filter_split<A>(s: Seq<A>, kept: spec_fn(A) -> bool, dropped: spec_fn(A) -> bool)
    requires
        forall|x: A| #[trigger] kept(x) == !dropped(x),
    ensures
        s.filter(kept).len() + s.filter(dropped).len() == s.len(),
    decreases s.len(),
{
    reveal(Seq::filter);
    if s.len() > 0 {
        lemma_filter_split(s.drop_last(), kept, dropped);
        assert(kept(s.last()) == !dropped(s.last()));
    }
}

} // verus!
