//! Small facts about filtered sequences shared across the crate.

use vstd::prelude::*;

verus! {

/// An empty filter result means no element matches.
pub proof fn lemma_filter_empty_no_match<A>(s: Seq<A>, pred: spec_fn(A) -> bool)
    requires
        s.filter(pred).len() == 0,
    ensures
        forall|j: int| 0 <= j < s.len() ==> !pred(#[trigger] s[j]),
    decreases s.len(),
{
    if s.len() > 0 {
        s.drop_last().lemma_filter_push(s.last(), pred);
        assert(s.drop_last().push(s.last()) =~= s);
        lemma_filter_empty_no_match(s.drop_last(), pred);
        assert forall|j: int| 0 <= j < s.len() implies !pred(#[trigger] s[j]) by {
            if j < s.len() - 1 {
                assert(s.drop_last()[j] == s[j]);
            }
        }
    }
}

/// A match whose scanned prefix holds no earlier match is the first filtered
/// element.
pub proof fn lemma_filter_first_match<A>(s: Seq<A>, pred: spec_fn(A) -> bool, i: int)
    requires
        0 <= i < s.len(),
        s.take(i).filter(pred).len() == 0,
        pred(s[i]),
    ensures
        s.filter(pred).len() > 0,
        s.filter(pred)[0] == s[i],
    decreases s.len(),
{
    if i == s.len() - 1 {
        assert(s.take(i).push(s[i]) =~= s);
        s.take(i).lemma_filter_push(s[i], pred);
    } else {
        let prefix = s.drop_last();
        assert(prefix.take(i) =~= s.take(i));
        lemma_filter_first_match(prefix, pred, i);
        prefix.lemma_filter_push(s.last(), pred);
        assert(prefix.push(s.last()) =~= s);
    }
}

/// A non-empty filter result has a first matching index, before which
/// nothing matches, and that element heads the filtered sequence.
pub proof fn lemma_filter_first_exists<A>(s: Seq<A>, pred: spec_fn(A) -> bool)
    requires
        s.filter(pred).len() > 0,
    ensures
        exists|k: int|
            {
                &&& 0 <= k < s.len()
                &&& pred(#[trigger] s[k])
                &&& (forall|j: int| 0 <= j < k ==> !pred(#[trigger] s[j]))
                &&& s.filter(pred)[0] == s[k]
            },
{
    lemma_find_first_from(s, pred, 0);
}

proof fn lemma_find_first_from<A>(s: Seq<A>, pred: spec_fn(A) -> bool, i: int)
    requires
        0 <= i <= s.len(),
        s.take(i).filter(pred).len() == 0,
        s.filter(pred).len() > 0,
    ensures
        exists|k: int|
            {
                &&& 0 <= k < s.len()
                &&& pred(#[trigger] s[k])
                &&& (forall|j: int| 0 <= j < k ==> !pred(#[trigger] s[j]))
                &&& s.filter(pred)[0] == s[k]
            },
    decreases s.len() - i,
{
    if i == s.len() {
        assert(s.take(i) =~= s);
        assert(false);
    } else if pred(s[i]) {
        lemma_filter_empty_no_match(s.take(i), pred);
        lemma_filter_first_match(s, pred, i);
        assert forall|j: int| 0 <= j < i implies !pred(#[trigger] s[j]) by {
            assert(s.take(i)[j] == s[j]);
        }
        assert({
            &&& 0 <= i < s.len()
            &&& pred(s[i])
            &&& (forall|j: int| 0 <= j < i ==> !pred(#[trigger] s[j]))
            &&& s.filter(pred)[0] == s[i]
        });
    } else {
        assert(s.take(i + 1) =~= s.take(i).push(s[i]));
        s.take(i).lemma_filter_push(s[i], pred);
        lemma_find_first_from(s, pred, i + 1);
    }
}

} // verus!
