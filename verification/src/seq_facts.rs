//! Facts about sequences that the loops of this crate lean on.

use vstd::prelude::*;

verus! {

/// Filtering one element more of a sequence keeps what was kept, and adds the
/// new element where the predicate holds of it.
pub proof fn lemma_filter_take_step<A>(s: Seq<A>, pred: spec_fn(A) -> bool, i: int)
    requires
        0 <= i < s.len(),
    ensures
        s.take(i + 1).filter(pred) == if pred(s[i]) {
            s.take(i).filter(pred).push(s[i])
        } else {
            s.take(i).filter(pred)
        },
{
    reveal(Seq::filter);
    assert(s.take(i + 1).drop_last() =~= s.take(i));
}

/// One element more of a sequence holds a value if the elements before did, or
/// if the new element is that value.
pub proof fn lemma_contains_take_step<A>(s: Seq<A>, value: A, i: int)
    requires
        0 <= i < s.len(),
    ensures
        s.take(i + 1).contains(value) == (s.take(i).contains(value) || s[i] == value),
{
    let before = s.take(i);
    let after = s.take(i + 1);
    if before.contains(value) {
        let k = choose|k: int| 0 <= k < before.len() && before[k] == value;
        assert(after[k] == value);
    }
    if s[i] == value {
        assert(after[i] == value);
    }
    if after.contains(value) && s[i] != value {
        let k = choose|k: int| 0 <= k < after.len() && after[k] == value;
        assert(before[k] == value);
    }
}

} // verus!
