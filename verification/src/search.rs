//! The first element of a sequence that satisfies a predicate, and the
//! facts about it that route lookups use.

use vstd::prelude::*;

verus! {

/// The index of the first element of `s` that satisfies `p`.
pub open spec fn first_index<A>(s: Seq<A>, p: spec_fn(A) -> bool) -> Option<int>
    decreases s.len(),
{
    if s.len() == 0 {
        None
    } else {
        match first_index(s.drop_last(), p) {
            Some(i) => Some(i),
            None => if p(s.last()) {
                Some(s.len() - 1)
            } else {
                None
            },
        }
    }
}

/// The first index is the lowest index whose element satisfies `p`; when
/// there is none, no element does.
pub proof fn lemma_first_index<A>(s: Seq<A>, p: spec_fn(A) -> bool)
    ensures
        match first_index(s, p) {
            Some(i) => 0 <= i < s.len() && p(s[i]) && forall|j: int| 0 <= j < i ==> !p(#[trigger] s[j]),
            None => forall|j: int| 0 <= j < s.len() ==> !p(#[trigger] s[j]),
        },
    decreases s.len(),
{
    if s.len() > 0 {
        lemma_first_index(s.drop_last(), p);
        assert forall|j: int| 0 <= j < s.len() - 1 implies s.drop_last()[j] == s[j] by {}
    }
}

/// The first index in `s + t`: the first in `s`, else the first in `t`
/// shifted past `s`.
pub proof fn lemma_first_index_append<A>(s: Seq<A>, t: Seq<A>, p: spec_fn(A) -> bool)
    ensures
        first_index(s + t, p) == match first_index(s, p) {
            Some(i) => Some(i),
            None => match first_index(t, p) {
                Some(j) => Some(s.len() + j),
                None => None,
            },
        },
    decreases t.len(),
{
    if t.len() == 0 {
        assert(s + t =~= s);
    } else {
        assert((s + t).drop_last() =~= s + t.drop_last());
        lemma_first_index_append(s, t.drop_last(), p);
    }
}

/// When a prefix of `s` has an element satisfying `p`, the first such
/// element of `s` is the prefix's.
pub proof fn lemma_first_index_prefix<A>(s: Seq<A>, k: int, p: spec_fn(A) -> bool)
    requires
        0 <= k <= s.len(),
        first_index(s.take(k), p) is Some,
    ensures
        first_index(s, p) == first_index(s.take(k), p),
{
    lemma_first_index_append(s.take(k), s.skip(k), p);
    assert(s.take(k) + s.skip(k) =~= s);
}

} // verus!
