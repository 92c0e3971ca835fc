//! Finding the first element of a sequence that is wanted.

use vstd::prelude::*;

verus! {

/// The position of the first element of `s` that is wanted, or the length
/// of `s` where none is.
pub open spec fn first_index<T>(s: Seq<T>, wanted: spec_fn(T) -> bool) -> int
    decreases s.len(),
{
    if s.len() == 0 {
        0
    } else if wanted(s[0]) {
        0
    } else {
        1 + first_index(s.skip(1), wanted)
    }
}

/// A position before which nothing is wanted, and which either holds a
/// wanted element or is the end, is the first position of a wanted element.
pub proof fn lemma_first_index<T>(s: Seq<T>, wanted: spec_fn(T) -> bool, at: int)
    requires
        0 <= at <= s.len(),
        forall|j: int| 0 <= j < at ==> !wanted(#[trigger] s[j]),
        at == s.len() || wanted(s[at]),
    ensures
        first_index(s, wanted) == at,
    decreases s.len(),
{
    if s.len() > 0 && at > 0 {
        let rest = s.skip(1);
        assert forall|j: int| 0 <= j < at - 1 implies !wanted(#[trigger] rest[j]) by {
            assert(rest[j] == s[j + 1]);
        }
        if at < s.len() {
            assert(rest[at - 1] == s[at]);
        }
        lemma_first_index(rest, wanted, at - 1);
    }
}

} // verus!
