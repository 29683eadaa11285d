//! The rule of a bounded history: it keeps the newest samples, oldest first,
//! and never more than its capacity.

use std::collections::VecDeque;
use vstd::prelude::*;

verus! {

/// The `capacity` newest items of `all`, oldest first; all of them when
/// there are no more than `capacity`.
pub open spec fn newest<T>(all: Seq<T>, capacity: nat) -> Seq<T> {
    if all.len() <= capacity {
        all
    } else {
        all.subrange(all.len() - capacity, all.len() as int)
    }
}

/// What a history of the given capacity holds once `samples` have been added
/// to an empty one, one after the other.
pub open spec fn recorded<T>(samples: Seq<T>, capacity: nat) -> Seq<T>
    decreases samples.len(),
{
    if samples.len() == 0 {
        Seq::empty()
    } else {
        newest(recorded(samples.drop_last(), capacity).push(samples.last()), capacity)
    }
}

/// Appends `sample` and, when that overfills the history, removes the oldest.
pub(crate) fn append<T>(history: &mut VecDeque<T>, capacity: usize, sample: T)
    requires
        old(history)@.len() <= capacity,
    ensures
        final(history)@ == newest(old(history)@.push(sample), capacity as nat),
        final(history)@.len() <= capacity,
{
    history.push_back(sample);
    if history.len() > capacity {
        let _ = history.pop_front();
    }
}

/// However many samples a history has been given, it holds the newest of
/// them, as many as its capacity allows, in the order in which they came.
pub proof fn lemma_history_holds_newest<T>(samples: Seq<T>, capacity: nat)
    ensures
        recorded(samples, capacity) == newest(samples, capacity),
    decreases samples.len(),
{
    if samples.len() > 0 {
        let earlier = samples.drop_last();
        lemma_history_holds_newest(earlier, capacity);
        let grown = newest(earlier, capacity).push(samples.last());
        assert(newest(grown, capacity) =~= newest(samples, capacity));
    }
}

/// A history that has been given one sample more than its capacity holds all
/// but the first of them, in the order in which they came.
pub proof fn lemma_oldest_is_evicted<T>(samples: Seq<T>, capacity: nat)
    requires
        samples.len() == capacity + 1,
    ensures
        recorded(samples, capacity) == samples.subrange(1, samples.len() as int),
{
    lemma_history_holds_newest(samples, capacity);
}

} // verus!
