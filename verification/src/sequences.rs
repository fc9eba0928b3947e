//! Facts about sequences that the resolvers' loops rest on.

use vstd::prelude::*;

verus! {

/// A prefix that is one longer holds what the shorter prefix holds, and the
/// element that was added.
pub proof fn lemma_prefix_contains<T>(s: Seq<T>, i: int)
    requires
        0 <= i < s.len(),
    ensures
        forall|x: T| s.take(i + 1).contains(x) <==> (s.take(i).contains(x) || x == s[i]),
{
    let longer = s.take(i + 1);
    let shorter = s.take(i);
    assert forall|x: T| longer.contains(x) <==> (shorter.contains(x) || x == s[i]) by {
        if longer.contains(x) {
            let j = choose|j: int| 0 <= j < longer.len() && longer[j] == x;
            if j < i {
                assert(shorter[j] == x);
            }
        }
        if shorter.contains(x) {
            let j = choose|j: int| 0 <= j < shorter.len() && shorter[j] == x;
            assert(longer[j] == x);
        }
        if x == s[i] {
            assert(longer[i] == x);
        }
    }
}

} // verus!
