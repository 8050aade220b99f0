//! First match in a sequence.

use vstd::prelude::*;

verus! {

/// Index of the first element of `s` that is `wanted`; `s.len()` if there
/// is none.
pub open spec fn first_index<T>(s: Seq<T>, wanted: spec_fn(T) -> bool) -> int
    decreases s.len(),
{
    if s.len() == 0 {
        0
    } else if wanted(s[0]) {
        0
    } else {
        1 + first_index(s.drop_first(), wanted)
    }
}

/// The first element of `s` that is `wanted`, if there is one.
pub open spec fn first_match<T>(s: Seq<T>, wanted: spec_fn(T) -> bool) -> Option<T> {
    let i = first_index(s, wanted);
    if i < s.len() {
        Some(s[i])
    } else {
        None
    }
}

/// `first_index` lies within `0..=s.len()`; short of the end it points at a
/// wanted element, and nothing before it is wanted.
pub proof fn lemma_first_index_bounds<T>(s: Seq<T>, wanted: spec_fn(T) -> bool)
    ensures
        0 <= first_index(s, wanted) <= s.len(),
        first_index(s, wanted) < s.len() ==> wanted(s[first_index(s, wanted)]),
        forall|k: int| 0 <= k < first_index(s, wanted) ==> !wanted(#[trigger] s[k]),
    decreases s.len(),
{
    if s.len() != 0 && !wanted(s[0]) {
        let rest = s.drop_first();
        lemma_first_index_bounds(rest, wanted);
        assert forall|k: int| 0 <= k < first_index(s, wanted) implies !wanted(#[trigger] s[k]) by {
            if k > 0 {
                assert(s[k] == rest[k - 1]);
            }
        }
    }
}

/// An index `i` with nothing wanted before it, and which is the end of `s`
/// or points at a wanted element, is `first_index`.
pub proof fn lemma_first_index_is<T>(s: Seq<T>, wanted: spec_fn(T) -> bool, i: int)
    requires
        0 <= i <= s.len(),
        forall|k: int| 0 <= k < i ==> !wanted(#[trigger] s[k]),
        i < s.len() ==> wanted(s[i]),
    ensures
        first_index(s, wanted) == i,
    decreases s.len(),
{
    if s.len() != 0 && i > 0 {
        let rest = s.drop_first();
        assert(!wanted(s[0]));
        assert forall|k: int| 0 <= k < i - 1 implies !wanted(#[trigger] rest[k]) by {
            assert(rest[k] == s[k + 1]);
        }
        lemma_first_index_is(rest, wanted, i - 1);
    }
}

} // verus!
