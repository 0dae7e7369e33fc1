//! What holds of a registry over its whole life, and of what an observer
//! receives, proved from the contracts of the operations.

use vstd::prelude::*;
use crate::events::Subscription;
use crate::observable::ObserveConfig;
use crate::pharos::{delivered, fresh, passed_over, vacated, Pharos};

verus! {

/// The states of one registry in the order in which it went through them:
/// each follows the one before, as every operation's contract says it does.
pub open spec fn is_history<Event>(states: Seq<Pharos<Event>>) -> bool where
    Event: 'static + Clone + Sync + Send,
{
    forall|k: int| 0 < k < states.len() ==> (#[trigger] states[k]).follows(&states[k - 1])
}

/// Slot `i` is the highest slot that is populated in `before` and empty in
/// `after`.
pub open spec fn highest_vacated<T>(before: Seq<Option<T>>, after: Seq<Option<T>>, i: int) -> bool {
    &&& 0 <= i < before.len()
    &&& before[i] is Some && after[i] is None
    &&& forall|j: int| i < j < before.len() ==> !(before[j] is Some && after[j] is None)
}

/// Whatever is done to a registry, and in whatever order, the number of its
/// slots never goes down.
pub proof fn storage_never_shrinks<Event>(states: Seq<Pharos<Event>>, i: int, j: int) where
    Event: 'static + Clone + Sync + Send,
    requires
        is_history(states),
        0 <= i <= j < states.len(),
    ensures
        states[i].slots().len() <= states[j].slots().len(),
    decreases j - i,
{
    if i < j {
        storage_never_shrinks(states, i, j - 1);
    }
}

/// Whatever is done to a closed registry, it stays closed.
pub proof fn closed_stays_closed<Event>(states: Seq<Pharos<Event>>, i: int, j: int) where
    Event: 'static + Clone + Sync + Send,
    requires
        is_history(states),
        0 <= i <= j < states.len(),
        states[i].is_closed(),
    ensures
        states[j].is_closed(),
    decreases j - i,
{
    if i < j {
        closed_stays_closed(states, i, j - 1);
    }
}

/// The index of an empty slot is on the free list exactly once.
pub proof fn empty_slot_is_listed_once<Event>(pharos: Pharos<Event>, i: int) where
    Event: 'static + Clone + Sync + Send,
    requires
        pharos.wf(),
        0 <= i < pharos.slots().len(),
        pharos.slots()[i] is None,
    ensures
        pharos.free_list().to_multiset().count(i as usize) == 1,
{
    let free = pharos.free_list();
    free.to_multiset_ensures();
    free.lemma_multiset_has_no_duplicates();
}

/// A slot emptied below `n` is among those listed.
proof fn lemma_vacated_lists<T>(before: Seq<Option<T>>, after: Seq<Option<T>>, n: nat, i: int)
    requires
        n <= before.len() <= usize::MAX,
        0 <= i < n,
        before[i] is Some && after[i] is None,
    ensures
        vacated(before, after, n).contains(i as usize),
    decreases n,
{
    let listed = vacated(before, after, n);
    if n - 1 > i {
        lemma_vacated_lists(before, after, (n - 1) as nat, i);
        let earlier = vacated(before, after, (n - 1) as nat);
        let k = choose|k: int| 0 <= k < earlier.len() && earlier[k] == i as usize;
        assert(listed[k] == i as usize);
    } else {
        assert(listed[listed.len() - 1] == i as usize);
    }
}

/// When an operation finds an observer gone and empties its slot, it puts
/// the slot's index on the free list, where it then stands exactly once.
pub proof fn found_gone_is_listed_once<Event>(
    before: Pharos<Event>,
    after: Pharos<Event>,
    i: int,
) where
    Event: 'static + Clone + Sync + Send,
    requires
        after.wf(),
        after.slots().len() == before.slots().len(),
        after.lists_vacated(&before),
        0 <= i < before.slots().len(),
        before.slots()[i] is Some,
        after.slots()[i] is None,
    ensures
        vacated(before.slots(), after.slots(), before.slots().len()).contains(i as usize),
        after.free_list().to_multiset().count(i as usize) == 1,
{
    before.lemma_storage_is_countable();
    lemma_vacated_lists(before.slots(), after.slots(), before.slots().len(), i);
    empty_slot_is_listed_once(after, i);
}

/// Of the slots emptied up to `n`, the highest was listed last.
proof fn lemma_vacated_ends_with_highest<T>(
    before: Seq<Option<T>>,
    after: Seq<Option<T>>,
    n: nat,
    i: int,
)
    requires
        n <= before.len() <= usize::MAX,
        0 <= i < n,
        before[i] is Some && after[i] is None,
        forall|j: int| i < j < n ==> !(before[j] is Some && after[j] is None),
    ensures
        vacated(before, after, n).len() > 0,
        vacated(before, after, n).last() == i,
    decreases n,
{
    if n - 1 > i {
        lemma_vacated_ends_with_highest(before, after, (n - 1) as nat, i);
    }
}

/// When an operation has found observers gone, the slot it emptied last, the
/// highest of them, is the one that the next subscription goes into, and the
/// storage does not grow for it.
pub proof fn last_vacated_is_filled_first<Event>(
    before: Pharos<Event>,
    found: Pharos<Event>,
    after: Pharos<Event>,
    options: ObserveConfig<Event>,
    i: int,
) where
    Event: 'static + Clone + Sync + Send,
    requires
        found.slots().len() == before.slots().len(),
        found.lists_vacated(&before),
        highest_vacated(before.slots(), found.slots(), i),
        after.subscribed(&found, options),
    ensures
        found.free_list().last() == i,
        after.slots().len() == found.slots().len(),
        fresh(after.slots()[i], options),
        after.free_list() == found.free_list().drop_last(),
{
    before.lemma_storage_is_countable();
    lemma_vacated_ends_with_highest(before.slots(), found.slots(), before.slots().len(), i);
}

/// An observer whose filter held one event back and let the next one
/// through has received the second and not the first: its channel has taken
/// a clone of the second event and nothing else, and the subscription is
/// still the same.
pub proof fn held_back_event_is_not_received<Event: Clone>(
    first: Subscription<Event>,
    second: Subscription<Event>,
    third: Subscription<Event>,
    rejected: Event,
    accepted: Event,
)
    requires
        passed_over(first, second, rejected),
        delivered(second, third, accepted),
    ensures
        third.continues(&first),
        third.forwarded().len() == first.forwarded().len() + 1,
        third.forwarded().drop_last() == first.forwarded(),
        cloned(accepted, third.forwarded().last()),
{
}

} // verus!
