//! Identities of the things that live in the game.

use vstd::prelude::*;

verus! {

/// The identity of one spawned body. Identities are handed out in rising
/// order and never reused, so a stale identity names nothing.
#[derive(Debug, Clone, Copy, PartialEq, Eq, Hash, Structural)]
pub struct Entity(pub u64);

/// Filtering a sequence whose members have identities of their own leaves a
/// sequence of that kind, and every member that is left was a member before.
pub proof fn lemma_filter_keeps_identities<T>(
    all: Seq<T>,
    keep: spec_fn(T) -> bool,
    identity: spec_fn(T) -> Entity,
)
    requires
        forall|i: int, j: int|
            0 <= i < j < all.len() ==> identity(#[trigger] all[i]) != identity(#[trigger] all[j]),
    ensures
        forall|i: int, j: int|
            0 <= i < j < all.filter(keep).len() ==> identity(#[trigger] all.filter(keep)[i])
                != identity(#[trigger] all.filter(keep)[j]),
        forall|k: int|
            0 <= k < all.filter(keep).len() ==> all.contains(#[trigger] all.filter(keep)[k]),
    decreases all.len(),
{
    reveal(Seq::filter);
    if all.len() > 0 {
        let earlier = all.drop_last();
        lemma_filter_keeps_identities(earlier, keep, identity);
        let kept = earlier.filter(keep);
        assert forall|k: int| 0 <= k < kept.len() implies all.contains(#[trigger] kept[k])
            && identity(kept[k]) != identity(all.last()) by {
            let j = choose|j: int| 0 <= j < earlier.len() && earlier[j] == kept[k];
            assert(all[j] == kept[k]);
        }
    }
}

} // verus!
