use vstd::prelude::*;

verus! {

/// The first index at or after `k` whose element satisfies `pred`.
pub open spec fn first_from<R>(s: Seq<R>, pred: spec_fn(R) -> bool, k: int) -> Option<int>
    decreases s.len() - k,
{
    if 0 <= k < s.len() {
        if pred(s[k]) {
            Some(k)
        } else {
            first_from(s, pred, k + 1)
        }
    } else {
        None
    }
}

/// The first index whose element satisfies `pred`.
pub open spec fn first_index<R>(s: Seq<R>, pred: spec_fn(R) -> bool) -> Option<int> {
    first_from(s, pred, 0)
}

pub proof fn lemma_first_from_found<R>(s: Seq<R>, pred: spec_fn(R) -> bool, k: int)
    requires
        0 <= k,
    ensures
        first_from(s, pred, k) matches Some(i) ==> k <= i < s.len() && pred(s[i]),
    decreases s.len() - k,
{
    if 0 <= k < s.len() && !pred(s[k]) {
        lemma_first_from_found(s, pred, k + 1);
    }
}

pub proof fn lemma_first_from_none<R>(s: Seq<R>, pred: spec_fn(R) -> bool, k: int)
    requires
        0 <= k,
        forall|j: int| k <= j < s.len() ==> !pred(#[trigger] s[j]),
    ensures
        first_from(s, pred, k) is None,
    decreases s.len() - k,
{
    if 0 <= k < s.len() {
        lemma_first_from_none(s, pred, k + 1);
    }
}

/// Two sequences whose elements satisfy `pred` at the same places have the
/// same first match.
pub proof fn lemma_first_from_same<R>(a: Seq<R>, b: Seq<R>, pred: spec_fn(R) -> bool, k: int)
    requires
        a.len() == b.len(),
        forall|j: int| 0 <= j < a.len() ==> pred(#[trigger] a[j]) == pred(b[j]),
    ensures
        first_from(a, pred, k) == first_from(b, pred, k),
    decreases a.len() - k,
{
    if 0 <= k < a.len() {
        assert(pred(a[k]) == pred(b[k]));
        lemma_first_from_same(a, b, pred, k + 1);
    }
}

} // verus!

verus! {

pub proof fn lemma_first_from_some<R>(s: Seq<R>, pred: spec_fn(R) -> bool, k: int, j: int)
    requires
        0 <= k <= j < s.len(),
        pred(s[j]),
    ensures
        first_from(s, pred, k) is Some,
    decreases j - k,
{
    if k < j && !pred(s[k]) {
        lemma_first_from_some(s, pred, k + 1, j);
    }
}

} // verus!
