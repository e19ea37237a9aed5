//! First-match scanning over sequences.
//!
//! Both the archetype registry and the tier model find the first element of
//! an ordered sequence satisfying a predicate; this module gives that scan
//! one specification and one characterization lemma.

use vstd::prelude::*;

verus! {

/// The index of the first element of `s` satisfying `p`, or `-1` when no
/// element does.
pub open spec fn first_index_where<T>(s: Seq<T>, p: spec_fn(T) -> bool) -> int
    decreases s.len(),
{
    if s.len() == 0 {
        -1
    } else if p(s[0]) {
        0
    } else {
        let t = first_index_where(s.drop_first(), p);
        if t == -1 {
            -1
        } else {
            t + 1
        }
    }
}

/// `first_index_where` returns `-1` exactly when no element satisfies `p`,
/// and otherwise the least index whose element does.
pub proof fn lemma_first_index_where<T>(s: Seq<T>, p: spec_fn(T) -> bool)
    ensures
        first_index_where(s, p) == -1 ==> (forall|j: int| 0 <= j < s.len() ==> !p(s[j])),
        first_index_where(s, p) != -1 ==> {
            let k = first_index_where(s, p);
            &&& 0 <= k < s.len()
            &&& p(s[k])
            &&& forall|j: int| 0 <= j < k ==> !p(s[j])
        },
    decreases s.len(),
{
    if s.len() == 0 {
    } else if p(s[0]) {
    } else {
        lemma_first_index_where(s.drop_first(), p);
        let t = first_index_where(s.drop_first(), p);
        assert(forall|j: int| 1 <= j < s.len() ==> s[j] == s.drop_first()[j - 1]);
        if t == -1 {
        } else {
            assert(forall|j: int| 0 <= j < t + 1 ==> !p(s[j])) by {
                assert(forall|j: int| 1 <= j < t + 1 ==> s[j] == s.drop_first()[j - 1]);
            }
        }
    }
}

} // verus!
