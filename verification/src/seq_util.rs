//! Small general lemmas about `Seq::filter` that the selection manager and
//! the filter laws build on.

use vstd::prelude::*;

verus! {

/// Filtering a sequence extended by one element keeps the filtered prefix and
/// appends the new element exactly when the predicate holds of it.
pub proof fn lemma_filter_push<A>(s: Seq<A>, x: A, p: spec_fn(A) -> bool)
    ensures
        s.push(x).filter(p) == if p(x) {
            s.filter(p).push(x)
        } else {
            s.filter(p)
        },
{
    reveal(Seq::filter);
    assert(s.push(x).drop_last() =~= s);
    assert(s.push(x).last() == x);
}

/// A predicate that holds of every element filters a sequence to itself.
pub proof fn lemma_filter_all_true<A>(s: Seq<A>, p: spec_fn(A) -> bool)
    requires
        forall|i: int| 0 <= i < s.len() ==> p(s[i]),
    ensures
        s.filter(p) == s,
    decreases s.len(),
{
    reveal(Seq::filter);
    if s.len() == 0 {
        assert(s.filter(p) =~= s);
    } else {
        assert(forall|i: int| 0 <= i < s.drop_last().len() ==> p(s.drop_last()[i]));
        lemma_filter_all_true(s.drop_last(), p);
        assert(s.filter(p) =~= s);
    }
}

} // verus!
