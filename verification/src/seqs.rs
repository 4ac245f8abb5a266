//! Facts about mapping and filtering sequences.

use vstd::prelude::*;

verus! {

/// Mapping and filtering a concatenation is the same as doing so to its two
/// parts and concatenating the results.
pub proof fn lemma_filter_map_concat<A, B>(a: Seq<A>, b: Seq<A>, f: spec_fn(A) -> Option<B>)
    ensures
        (a + b).filter_map(f) == a.filter_map(f) + b.filter_map(f),
    decreases b.len(),
{
    if b.len() > 0 {
        assert((a + b).drop_last() =~= a + b.drop_last());
        lemma_filter_map_concat(a, b.drop_last(), f);
    }
}

/// Where `f` gives nothing for any element of `s`, nothing is left of `s`.
pub proof fn lemma_filter_map_none<A, B>(s: Seq<A>, f: spec_fn(A) -> Option<B>)
    requires
        forall|i: int| 0 <= i < s.len() ==> f(#[trigger] s[i]) is None,
    ensures
        s.filter_map(f) == Seq::<B>::empty(),
    decreases s.len(),
{
    if s.len() > 0 {
        lemma_filter_map_none(s.drop_last(), f);
    }
}

/// Taking out beforehand elements for which `f` gives nothing changes
/// nothing of what `f` keeps.
pub proof fn lemma_filter_map_after_filter<A, B>(
    s: Seq<A>,
    keep: spec_fn(A) -> bool,
    f: spec_fn(A) -> Option<B>,
)
    requires
        forall|i: int| 0 <= i < s.len() && !keep(#[trigger] s[i]) ==> f(s[i]) is None,
    ensures
        s.filter(keep).filter_map(f) == s.filter_map(f),
    decreases s.len(),
{
    reveal(Seq::filter);
    if s.len() > 0 {
        let rest = s.drop_last();
        lemma_filter_map_after_filter(rest, keep, f);
        if keep(s.last()) {
            let kept = rest.filter(keep).push(s.last());
            assert(kept.drop_last() =~= rest.filter(keep));
        }
    }
}

} // verus!
