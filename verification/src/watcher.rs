//! A sampler bound to one address, keeping the last two values read there.

use vstd::prelude::*;
use crate::pair::Pair;

verus! {

/// Watches one fixed-width value at one absolute address.
///
/// `pair` is `None` until a read succeeds, and again after a read fails.
#[derive(Clone, Copy, Debug, PartialEq, Eq)]
pub struct Watcher<T> {
    pub pair: Option<Pair<T>>,
    pub address: u64,
}

/// The pair a watcher holds after it is handed the outcome of one read.
///
/// A value shifts the previous current value into `old`; with no previous
/// value both halves are the new one. A failed read leaves no pair, so the
/// read that follows it starts afresh and shows no change.
pub open spec fn pair_after<T>(before: Option<Pair<T>>, value: Option<T>) -> Option<Pair<T>> {
    match value {
        None => None,
        Some(v) => match before {
            None => Some(Pair { old: v, current: v }),
            Some(p) => Some(Pair { old: p.current, current: v }),
        },
    }
}

impl<T: Copy> Watcher<T> {
    /// A watcher for `address` that has observed nothing yet.
    pub fn new(address: u64) -> (w: Self)
        ensures
            w.pair is None,
            w.address == address,
    {
        Watcher { pair: None, address }
    }

    /// Records the outcome of one read at the watcher's address and returns
    /// the resulting pair, which is there exactly when the read succeeded.
    pub fn update(&mut self, value: Option<T>) -> (r: Option<Pair<T>>)
        ensures
            final(self).address == old(self).address,
            final(self).pair == pair_after(old(self).pair, value),
            r == final(self).pair,
    {
        let next: Option<Pair<T>> = match value {
            None => None,
            Some(v) => match self.pair {
                None => Some(Pair { old: v, current: v }),
                Some(p) => Some(Pair { old: p.current, current: v }),
            },
        };
        self.pair = next;
        next
    }
}

/// A failed read records no spurious change: the pair that the next
/// successful read yields has equal halves, so it arrives at no value and
/// has not increased, whatever the watcher held before the failure.
pub proof fn lemma_no_edge_after_failed_read(before: Option<Pair<u8>>, value: u8, target: u8)
    ensures
        pair_after(pair_after(before, None), Some(value)) == Some(
            Pair { old: value, current: value },
        ),
        !(Pair { old: value, current: value }).spec_changed_to(target),
        !(Pair { old: value, current: value }).spec_increased(),
{
}

/// Between two successful reads in a row an edge is exactly a step of the
/// value read: the pair arrives at `target` when the earlier read gave
/// something else and this one gives `target`, and it has increased when this
/// read is above the earlier one.
pub proof fn lemma_edges_between_reads(before: Pair<u8>, value: u8, target: u8)
    ensures
        pair_after(Some(before), Some(value)) is Some,
        pair_after(Some(before), Some(value))->0.spec_changed_to(target) <==> before.current
            != target && value == target,
        pair_after(Some(before), Some(value))->0.spec_increased() <==> value > before.current,
{
}

} // verus!
