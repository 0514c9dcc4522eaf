//! The fan-target resolver: from a target specification to fan indices.

use crate::config::TargetFans;
use vstd::prelude::*;

verus! {

impl TargetFans {
    /// The zero-based indices that the specification stands for: `0..n` for
    /// a count, and each listed number less one, in the listed order and with
    /// every repetition kept, for an explicit list.
    pub open spec fn indices(self) -> Seq<u8> {
        match self {
            TargetFans::NumFans(count) => Seq::new(count as nat, |i: int| i as u8),
            TargetFans::TargetFans(list) => Seq::new(list@.len(), |i: int| (list@[i] - 1) as u8),
        }
    }

    /// Expands the specification into zero-based fan indices.
    pub fn resolve(&self) -> (fans: Vec<u8>)
        requires
            self.wf(),
        ensures
            fans@ == self.indices(),
            *self matches TargetFans::NumFans(count) ==> fans@.len() == count && forall|i: int|
                0 <= i < count ==> fans@[i] == i,
            *self matches TargetFans::TargetFans(list) ==> fans@.len() == list@.len() && forall|
                i: int,
            | 0 <= i < list@.len() ==> fans@[i] == list@[i] - 1,
    {
        let mut fans: Vec<u8> = Vec::new();
        match self {
            TargetFans::NumFans(count) => {
                let mut next: u8 = 0;
                while next < *count
                    invariant
                        next <= *count,
                        fans@.len() == next,
                        forall|i: int| 0 <= i < next ==> fans@[i] == i,
                    decreases *count - next,
                {
                    fans.push(next);
                    next += 1;
                }
                assert(fans@ =~= TargetFans::NumFans(*count).indices());
            },
            TargetFans::TargetFans(list) => {
                let mut at: usize = 0;
                while at < list.len()
                    invariant
                        at <= (*list)@.len(),
                        forall|i: int| 0 <= i < (*list)@.len() ==> (*list)@[i] >= 1,
                        fans@.len() == at,
                        forall|i: int| 0 <= i < at ==> fans@[i] == (*list)@[i] - 1,
                    decreases (*list)@.len() - at,
                {
                    fans.push(list[at] - 1);
                    at += 1;
                }
                assert(fans@ =~= TargetFans::TargetFans(*list).indices());
            },
        }
        fans
    }
}

/// Resolving a count of `count` fans gives exactly the indices
/// `0, 1, .., count - 1` in ascending order, and nothing for a count of zero.
pub proof fn lemma_count_resolves_to_prefix(count: u8)
    ensures
        TargetFans::NumFans(count).indices().len() == count,
        forall|i: int| 0 <= i < count ==> TargetFans::NumFans(count).indices()[i] == i,
        count == 0 ==> TargetFans::NumFans(count).indices() =~= Seq::<u8>::empty(),
{
}

/// Resolving an explicit list keeps its length and its order and lowers each
/// number by one: nothing is sorted, merged or dropped.
pub proof fn lemma_list_resolves_in_place(list: Vec<u8>)
    requires
        TargetFans::TargetFans(list).wf(),
    ensures
        TargetFans::TargetFans(list).indices().len() == list@.len(),
        forall|i: int|
            0 <= i < list@.len() ==> TargetFans::TargetFans(list).indices()[i] + 1 == list@[i],
{
}

} // verus!
