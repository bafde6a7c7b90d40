use std::collections::VecDeque;
use vstd::prelude::*;

verus! {

broadcast use vstd::std_specs::vecdeque::group_vec_dequeue_axioms;

/// The last `capacity` entries of `items` (all of them if fewer).
pub open spec fn keep_last<T>(items: Seq<T>, capacity: nat) -> Seq<T> {
    if items.len() > capacity {
        items.subrange(items.len() - capacity, items.len() as int)
    } else {
        items
    }
}

/// A sliding window over the most recent samples, oldest first.
#[derive(Debug)]
pub struct SampleWindow<T> {
    items: VecDeque<T>,
}

impl<T> SampleWindow<T> {
    pub closed spec fn spec_items(&self) -> Seq<T> {
        self.items@
    }

    pub fn new() -> (window: Self)
        ensures
            window.spec_items() == Seq::<T>::empty(),
    {
        SampleWindow { items: VecDeque::new() }
    }

    /// Appends `item` and forgets the oldest entries beyond `capacity`.
    pub fn add(&mut self, item: T, capacity: usize)
        ensures
            final(self).spec_items() == keep_last(old(self).spec_items().push(item), capacity as nat),
    {
        let ghost grown = self.items@.push(item);
        self.items.push_back(item);
        while self.items.len() > capacity
            invariant
                self.items@.len() <= grown.len(),
                self.items@ == grown.subrange(grown.len() - self.items@.len(), grown.len() as int),
                grown.len() > capacity ==> self.items@.len() >= capacity,
                grown.len() <= capacity ==> self.items@ == grown,
            decreases self.items@.len(),
        {
            let ghost before = self.items@;
            let _ = self.items.pop_front();
            assert(self.items@ == before.subrange(1, before.len() as int));
            assert(self.items@ =~= grown.subrange(
                grown.len() - self.items@.len(),
                grown.len() as int,
            ));
        }
        assert(self.items@ =~= keep_last(grown, capacity as nat));
    }

    /// Number of samples in the window.
    pub fn count(&self) -> (n: usize)
        ensures
            n == self.spec_items().len(),
    {
        self.items.len()
    }

    /// Forgets every sample.
    pub fn reset(&mut self)
        ensures
            final(self).spec_items() == Seq::<T>::empty(),
    {
        self.items.clear();
    }

    /// The sample at `index`, oldest first.
    pub fn get(&self, index: usize) -> (item: &T)
        requires
            index < self.spec_items().len(),
        ensures
            *item == self.spec_items()[index as int],
    {
        &self.items[index]
    }
}

/// Adding to a window of the last `capacity` samples of a series gives the
/// window of the last `capacity` samples of the longer series.
pub proof fn lemma_window_keeps_most_recent<T>(series: Seq<T>, item: T, capacity: nat)
    ensures
        keep_last(keep_last(series, capacity).push(item), capacity) == keep_last(
            series.push(item),
            capacity,
        ),
        keep_last(series.push(item), capacity).len() <= capacity,
{
    let lhs = keep_last(keep_last(series, capacity).push(item), capacity);
    let rhs = keep_last(series.push(item), capacity);
    assert(lhs =~= rhs);
}

/// The window holds the most recent samples, in order: as many as the
/// capacity allows (all of them if fewer), each the sample at the matching
/// position from the end of the series.
pub proof fn lemma_window_is_recent_suffix<T>(series: Seq<T>, capacity: nat)
    ensures
        ({
            let w = keep_last(series, capacity);
            &&& w.len() == if series.len() < capacity {
                series.len()
            } else {
                capacity
            }
            &&& forall|i: int|
                0 <= i < w.len() ==> #[trigger] w[i] == series[series.len() - w.len() + i]
        }),
{
}

} // verus!
