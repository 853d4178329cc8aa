//! Where the items of a filtered sequence come from.
use vstd::prelude::*;

verus! {

/// Finds, for each item that a filter keeps, the position that it comes from. The positions are in
/// order, and every item that is to be kept is at one of them.
pub proof fn lemma_filter_positions<A>(items: Seq<A>, kept: spec_fn(A) -> bool) -> (at: Seq<int>)
    ensures
        at.len() == items.filter(kept).len(),
        forall|i: int|
            0 <= i < at.len() ==> 0 <= (#[trigger] at[i]) < items.len() && items.filter(kept)[i]
                == items[at[i]] && kept(items[at[i]]),
        forall|i: int, j: int| 0 <= i < j < at.len() ==> (#[trigger] at[i]) < (#[trigger] at[j]),
        forall|k: int|
            0 <= k < items.len() && kept(#[trigger] items[k]) ==> at.contains(k),
    decreases items.len(),
{
    reveal(Seq::filter);
    if items.len() == 0 {
        Seq::empty()
    } else {
        let rest = items.drop_last();
        let n = items.len() - 1;
        let before = lemma_filter_positions(rest, kept);
        let at = if kept(items[n]) {
            before.push(n)
        } else {
            before
        };
        assert forall|k: int|
            0 <= k < items.len() && kept(#[trigger] items[k]) implies at.contains(k) by {
            if k < n {
                assert(rest[k] == items[k]);
                assert(before.contains(k));
                let i = choose|i: int| 0 <= i < before.len() && before[i] == k;
                assert(at[i] == k);
            } else {
                assert(at[before.len() as int] == k);
            }
        }
        at
    }
}

} // verus!
