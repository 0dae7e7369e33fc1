use vstd::prelude::*;
use crate::error::{Error, ErrorKind};
use crate::events::{Events, Subscription};
use crate::observable::{Channel, Observable, ObserveConfig, MAX_QUEUE_SIZE};

verus! {

/// How many of the first `n` slots are populated.
pub open spec fn populated<T>(slots: Seq<Option<T>>, n: nat) -> nat
    decreases n,
{
    if n == 0 {
        0
    } else if slots[n - 1] is Some {
        populated(slots, (n - 1) as nat) + 1
    } else {
        populated(slots, (n - 1) as nat)
    }
}

/// The indices below `n`, in ascending order, of the slots that are populated
/// in `before` and empty in `after`.
pub open spec fn vacated<T>(before: Seq<Option<T>>, after: Seq<Option<T>>, n: nat) -> Seq<usize>
    decreases n,
{
    if n == 0 {
        Seq::empty()
    } else if before[n - 1] is Some && after[n - 1] is None {
        vacated(before, after, (n - 1) as nat).push((n - 1) as usize)
    } else {
        vacated(before, after, (n - 1) as nat)
    }
}

/// Whether the slot holds a subscription on a bounded channel.
pub open spec fn holds_bounded<Event>(slot: Option<Subscription<Event>>) -> bool {
    match slot {
        Some(subscription) => subscription.is_bounded(),
        None => false,
    }
}

/// Whether the slot holds a subscription whose channel answered the last
/// poll with "pending".
pub open spec fn holds_stalled<Event>(slot: Option<Subscription<Event>>) -> bool {
    match slot {
        Some(subscription) => subscription.stalled(),
        None => false,
    }
}

/// Whether the slot holds a subscription whose channel the registry has
/// closed from the sending side.
pub open spec fn holds_shut<Event>(slot: Option<Subscription<Event>>) -> bool {
    match slot {
        Some(subscription) => subscription.is_shut(),
        None => false,
    }
}

/// The slot holds a subscription just made from `options`: the kind and size
/// of channel and the filter asked for, not closed, nothing forwarded yet,
/// and not stalled.
pub open spec fn fresh<Event>(
    slot: Option<Subscription<Event>>,
    options: ObserveConfig<Event>,
) -> bool {
    match slot {
        Some(subscription) => {
            &&& subscription.channel_kind() == options.channel_kind()
            &&& subscription.chosen_filter() == options.chosen_filter()
            &&& !subscription.is_shut()
            &&& subscription.forwarded() == Seq::<Event>::empty()
            &&& !subscription.stalled()
        },
        None => false,
    }
}

/// The subscription was not offered `evt`: its filter held the event back,
/// and it is as it was.
pub open spec fn passed_over<Event>(
    before: Subscription<Event>,
    after: Subscription<Event>,
    evt: Event,
) -> bool {
    &&& before.may_answer(&evt, false)
    &&& after == before
}

/// The subscription's channel took a clone of `evt`, after everything it had
/// taken before: its filter let the event through.
pub open spec fn delivered<Event: Clone>(
    before: Subscription<Event>,
    after: Subscription<Event>,
    evt: Event,
) -> bool {
    &&& before.may_answer(&evt, true)
    &&& after.continues(&before)
    &&& after.stalled() == before.stalled()
    &&& after.forwarded() == before.forwarded().push(after.forwarded().last())
    &&& cloned(evt, after.forwarded().last())
}

/// The slot `after` is the slot `before` after `evt` was sent: still empty;
/// the same subscription, passed over or with the event delivered; or
/// emptied.
pub open spec fn offered<Event: Clone>(
    before: Option<Subscription<Event>>,
    after: Option<Subscription<Event>>,
    evt: Event,
) -> bool {
    match (before, after) {
        (Some(b), Some(a)) => passed_over(b, a, evt) || delivered(b, a, evt),
        (None, Some(_)) => false,
        (_, None) => true,
    }
}

/// Every slot of `after` is the slot of `before`, left as it was or emptied.
pub open spec fn swept<Event>(
    before: Seq<Option<Subscription<Event>>>,
    after: Seq<Option<Subscription<Event>>>,
) -> bool {
    &&& after.len() == before.len()
    &&& forall|i: int|
        0 <= i < before.len() ==> (#[trigger] after[i]) == before[i] || (before[i] is Some
            && after[i] is None)
}

/// Every slot of `after` is the slot of `before` after a poll: still empty,
/// still the same subscription with nothing more forwarded, or emptied.
pub open spec fn polled<Event>(
    before: Seq<Option<Subscription<Event>>>,
    after: Seq<Option<Subscription<Event>>>,
) -> bool {
    &&& after.len() == before.len()
    &&& forall|i: int|
        0 <= i < before.len() ==> match (before[i], #[trigger] after[i]) {
            (Some(b), Some(a)) => a.idles(&b),
            (None, Some(_)) => false,
            (_, None) => true,
        }
}

/// Every slot of `after` is the slot of `before` after a poll that emptied
/// none: still empty, or still the same subscription with nothing more
/// forwarded.
pub open spec fn kept<Event>(
    before: Seq<Option<Subscription<Event>>>,
    after: Seq<Option<Subscription<Event>>>,
) -> bool {
    &&& after.len() == before.len()
    &&& forall|i: int|
        0 <= i < before.len() ==> match (before[i], #[trigger] after[i]) {
            (Some(b), Some(a)) => a.idles(&b),
            (None, None) => true,
            _ => false,
        }
}

/// Every slot of `after` is the slot of `before` after `evt` was sent.
pub open spec fn dispatched<Event: Clone>(
    before: Seq<Option<Subscription<Event>>>,
    after: Seq<Option<Subscription<Event>>>,
    evt: Event,
) -> bool {
    &&& after.len() == before.len()
    &&& forall|i: int| 0 <= i < before.len() ==> offered(before[i], #[trigger] after[i], evt)
}

/// `populated` looks at the first `n` slots only, and counts no more than
/// there are.
proof fn lemma_populated_prefix<T>(a: Seq<Option<T>>, b: Seq<Option<T>>, n: nat)
    requires
        forall|i: int| 0 <= i < n ==> (#[trigger] a[i]) is Some == b[i] is Some,
    ensures
        populated(a, n) == populated(b, n),
        populated(a, n) <= n,
    decreases n,
{
    if n > 0 {
        lemma_populated_prefix(a, b, (n - 1) as nat);
    }
}

/// `vacated` looks at the first `n` slots only.
proof fn lemma_vacated_prefix<T>(
    before: Seq<Option<T>>,
    a: Seq<Option<T>>,
    b: Seq<Option<T>>,
    n: nat,
)
    requires
        forall|i: int| 0 <= i < n ==> (#[trigger] a[i]) is Some == b[i] is Some,
    ensures
        vacated(before, a, n) == vacated(before, b, n),
    decreases n,
{
    if n > 0 {
        lemma_vacated_prefix(before, a, b, (n - 1) as nat);
    }
}

/// Slots that are the same before and after were not emptied.
proof fn lemma_vacated_tail<T>(before: Seq<Option<T>>, after: Seq<Option<T>>, n: nat)
    requires
        after.len() == before.len(),
        n <= before.len(),
        forall|j: int| n <= j < before.len() ==> after[j] == before[j],
    ensures
        vacated(before, after, before.len()) == vacated(before, after, n),
    decreases before.len() - n,
{
    if n < before.len() {
        lemma_vacated_tail(before, after, n + 1);
    }
}

/// `Vec::capacity`: the number of elements the vector has room for, which is
/// never less than the number it holds.
#[verifier::external_body]
fn vec_capacity<T>(v: &Vec<T>) -> (capacity: usize)
    ensures
        capacity >= v@.len(),
{
    v.capacity()
}

/// What a registry is called when it is printed, given the name of the type
/// of its events.
pub fn label(event_type: &str) -> (text: String)
    ensures
        text@ == "pharos::Pharos<"@ + event_type@ + ">"@,
{
    let mut text = "pharos::Pharos<".to_owned();
    text.push_str(event_type);
    text.push_str(">");
    text
}

/// Whether a subscription keeps its slot after an event was sent, given what
/// came back along the way: `gone`, the channel's answer to whether the
/// observer has left; `wanted`, the filter's answer to whether the observer
/// receives the event; `taken`, whether the channel took the event. The
/// subscription stays unless the observer has left, or wanted the event and
/// the channel did not take it.
pub fn stays(gone: bool, wanted: bool, taken: bool) -> (keep: bool)
    ensures
        keep == (!gone && (!wanted || taken)),
{
    !gone && (!wanted || taken)
}

/// Whether the registry still takes observers and events.
#[derive(Clone, Copy, Debug, PartialEq, Eq, Structural)]
enum State {
    Ready,
    Closed,
}

/// The registry of observers. It keeps the sending half of every observer's
/// channel in a slot, sends each event to every observer whose filter lets it
/// through, and gives the slot of an observer that has gone to the next one
/// that subscribes. The storage never shrinks.
///
/// Sending is done in three steps: [`Pharos::poll_ready`] until it is ready,
/// [`Pharos::start_send`], then [`Pharos::poll_flush`] until it is no longer
/// pending. [`Pharos::poll_close`] ends it all.
///
/// The registry learns that an observer has gone only when it tries
/// something on that observer's channel: in one of those steps, or in
/// [`Pharos::num_observers`].
#[verifier::reject_recursive_types(Event)]
pub struct Pharos<Event> where Event: 'static + Clone + Sync + Send {
    observers: Vec<Option<Subscription<Event>>>,
    free_slots: Vec<usize>,
    state: State,
}

impl<Event> Pharos<Event> where Event: 'static + Clone + Sync + Send {
    /// The slots, by index: a subscription, or nothing.
    pub closed spec fn slots(&self) -> Seq<Option<Subscription<Event>>> {
        self.observers@
    }

    /// The indices of the empty slots, in the order in which they were
    /// emptied. The last one is filled first.
    pub closed spec fn free_list(&self) -> Seq<usize> {
        self.free_slots@
    }

    /// Whether the registry has been closed.
    pub closed spec fn spec_is_closed(&self) -> bool {
        self.state == State::Closed
    }

    /// Whether the registry has been closed. A closed registry stays closed.
    #[verifier::when_used_as_spec(spec_is_closed)]
    pub fn is_closed(&self) -> (closed: bool)
        ensures
            closed == self.is_closed(),
    {
        self.state == State::Closed
    }

    /// The free list names exactly the empty slots, each of them once; and
    /// in a closed registry every channel has been closed from the sending
    /// side.
    pub open spec fn wf(&self) -> bool {
        &&& self.listed()
        &&& self.is_closed() ==> forall|i: int|
            0 <= i < self.slots().len() && (#[trigger] self.slots()[i]) is Some ==> holds_shut(
                self.slots()[i],
            )
    }

    /// The free list names exactly the empty slots, each of them once.
    pub open spec fn listed(&self) -> bool {
        &&& self.free_list().no_duplicates()
        &&& forall|k: int|
            0 <= k < self.free_list().len() ==> (#[trigger] self.free_list()[k])
                < self.slots().len() && self.slots()[self.free_list()[k] as int] is None
        &&& forall|i: int|
            0 <= i < self.slots().len() && (#[trigger] self.slots()[i]) is None
                ==> self.free_list().contains(i as usize)
    }

    /// What holds of a registry and what it was before any one operation: the
    /// storage has not shrunk, a closed registry has stayed closed, and a slot
    /// that was and is populated holds the subscription it held.
    pub open spec fn follows(&self, before: &Self) -> bool {
        &&& before.slots().len() <= self.slots().len()
        &&& before.is_closed() ==> self.is_closed()
        &&& forall|i: int|
            0 <= i < before.slots().len() ==> match (before.slots()[i], #[trigger] self.slots()[i]) {
                (Some(b), Some(a)) => a.continues(&b),
                _ => true,
            }
    }

    /// The free list of `self` is that of `before`, followed by the indices
    /// of the slots that have been emptied since, lowest first.
    pub open spec fn lists_vacated(&self, before: &Self) -> bool {
        self.free_list() == before.free_list() + vacated(
            before.slots(),
            self.slots(),
            before.slots().len(),
        )
    }

    /// `self` is `before` with a subscription made from `options` added: in
    /// the slot that was emptied last or, with no slot empty, in a new slot at
    /// the end. Every other slot is as it was.
    pub open spec fn subscribed(&self, before: &Self, options: ObserveConfig<Event>) -> bool {
        if before.free_list().len() > 0 {
            let i = before.free_list().last() as int;
            &&& self.free_list() == before.free_list().drop_last()
            &&& self.slots() == before.slots().update(i, self.slots()[i])
            &&& fresh(self.slots()[i], options)
        } else {
            &&& self.free_list() == before.free_list()
            &&& self.slots() == before.slots().push(self.slots().last())
            &&& fresh(self.slots().last(), options)
        }
    }

    /// The slots can be counted in a `usize`.
    pub proof fn lemma_storage_is_countable(&self)
        ensures
            self.slots().len() <= usize::MAX,
    {
        assert(self.observers.len() == self.slots().len());
    }

    /// A registry without observers. `capacity` is the number of observers
    /// to make room for in advance.
    pub fn new(capacity: usize) -> (pharos: Self)
        ensures
            pharos.wf(),
            pharos.slots() == Seq::<Option<Subscription<Event>>>::empty(),
            pharos.free_list() == Seq::<usize>::empty(),
            !pharos.is_closed(),
    {
        Pharos {
            observers: Vec::with_capacity(capacity),
            free_slots: Vec::with_capacity(capacity),
            state: State::Ready,
        }
    }

    /// The number of slots, empty ones included.
    pub fn storage_len(&self) -> (len: usize)
        ensures
            len == self.slots().len(),
    {
        self.observers.len()
    }

    /// The room the storage has for slots before it must grow, never less
    /// than the number of slots.
    pub fn storage_capacity(&self) -> (capacity: usize)
        ensures
            capacity >= self.slots().len(),
    {
        vec_capacity(&self.observers)
    }

    /// The indices of the empty slots, in the order in which they were
    /// emptied.
    pub fn free_slots(&self) -> (free: &[usize])
        ensures
            free@ == self.free_list(),
    {
        self.free_slots.as_slice()
    }

    /// Whether slot `i` is empty.
    pub fn is_vacant(&self, i: usize) -> (vacant: bool)
        requires
            i < self.slots().len(),
        ensures
            vacant == self.slots()[i as int] is None,
    {
        self.observers[i].is_none()
    }

    /// The number of observers that are still listening. Looks at every
    /// subscription, and empties the slot of each observer that has closed or
    /// dropped its stream, and of each whose channel the registry has closed:
    /// those slots go on the free list, lowest index first. The count is of
    /// the subscriptions that are left; in a closed registry none is left.
    /// What a channel answers is acted on by [`Pharos::tally`].
    pub fn num_observers(&mut self) -> (count: usize)
        requires
            old(self).wf(),
        ensures
            final(self).wf(),
            final(self).follows(old(self)),
            final(self).is_closed() == old(self).is_closed(),
            swept(old(self).slots(), final(self).slots()),
            final(self).lists_vacated(old(self)),
            forall|i: int|
                0 <= i < old(self).slots().len() && holds_shut(old(self).slots()[i]) ==> (
                #[trigger] final(self).slots()[i]) is None,
            count == populated(final(self).slots(), final(self).slots().len()),
            count <= final(self).slots().len(),
            old(self).is_closed() ==> count == 0,
    {
        let mut count: usize = 0;
        let mut i: usize = 0;
        while i < self.observers.len()
            invariant
                old(self).wf(),
                self.wf(),
                self.is_closed() == old(self).is_closed(),
                swept(old(self).slots(), self.slots()),
                forall|j: int|
                    0 <= j < i && holds_shut(old(self).slots()[j]) ==> (
                    #[trigger] self.slots()[j]) is None,
                old(self).is_closed() ==> count == 0,
                i <= self.slots().len(),
                forall|j: int| i <= j < self.slots().len() ==> self.slots()[j] == old(self).slots()[j],
                self.free_list() == old(self).free_list() + vacated(
                    old(self).slots(),
                    self.slots(),
                    i as nat,
                ),
                count == populated(self.slots(), i as nat),
                count <= i,
            decreases self.slots().len() - i,
        {
            let ghost prev = self.slots();
            let answer = match &self.observers[i] {
                Some(observer) => Some(observer.is_closed()),
                None => None,
            };
            if let Some(gone) = answer {
                if self.tally(i, gone) {
                    count += 1;
                }
            }
            proof {
                lemma_vacated_prefix(old(self).slots(), prev, self.slots(), i as nat);
                lemma_populated_prefix(prev, self.slots(), i as nat);
                assert(self.free_list() =~= old(self).free_list() + vacated(
                    old(self).slots(),
                    self.slots(),
                    (i + 1) as nat,
                ));
            }
            i += 1;
        }
        count
    }

    /// Polls the subscriptions, lowest index first, for room for one more
    /// event. Ready when every observer that is left has room. Pending as
    /// soon as one has none: that one is on a bounded channel, none before it
    /// is stalled, and the slots behind it have not been looked at. The slot
    /// of an observer that turns out to be gone is emptied and goes on the
    /// free list; that does not make the registry less ready. A closed
    /// registry answers with the error `Closed` and does nothing. What a
    /// channel answers is acted on by [`Pharos::settle`].
    pub fn poll_ready(&mut self, cx: &mut std::task::Context<'_>) -> (ready: std::task::Poll<
        Result<(), Error>,
    >)
        requires
            old(self).wf(),
        ensures
            final(self).wf(),
            final(self).follows(old(self)),
            final(self).is_closed() == old(self).is_closed(),
            polled(old(self).slots(), final(self).slots()),
            final(self).lists_vacated(old(self)),
            old(self).is_closed() ==> {
                &&& ready matches std::task::Poll::Ready(Err(e)) && e.kind_spec()
                    == ErrorKind::Closed && e.cause() is None
                &&& final(self).slots() == old(self).slots()
            },
            !old(self).is_closed() ==> {
                &&& ready is Pending || ready == std::task::Poll::Ready(Ok::<(), Error>(()))
                &&& ready is Ready ==> forall|i: int|
                    0 <= i < final(self).slots().len() ==> !holds_stalled(
                        #[trigger] final(self).slots()[i],
                    )
                &&& ready is Pending ==> exists|i: int|
                    {
                        &&& 0 <= i < final(self).slots().len()
                        &&& holds_stalled(#[trigger] final(self).slots()[i])
                        &&& holds_bounded(final(self).slots()[i])
                        &&& forall|j: int| 0 <= j < i ==> !holds_stalled(final(self).slots()[j])
                        &&& forall|j: int|
                            i < j < final(self).slots().len() ==> final(self).slots()[j] == old(
                                self,
                            ).slots()[j]
                    }
            },
    {
        if self.state == State::Closed {
            proof {
                lemma_vacated_tail(self.slots(), self.slots(), 0);
            }
            return std::task::Poll::Ready(Err(Error::from(ErrorKind::Closed)));
        }
        let mut i: usize = 0;
        while i < self.observers.len()
            invariant
                self.wf(),
                !old(self).is_closed(),
                self.is_closed() == old(self).is_closed(),
                polled(old(self).slots(), self.slots()),
                i <= self.slots().len(),
                forall|j: int| i <= j < self.slots().len() ==> self.slots()[j] == old(self).slots()[j],
                forall|j: int| 0 <= j < i ==> !holds_stalled(self.slots()[j]),
                self.free_list() == old(self).free_list() + vacated(
                    old(self).slots(),
                    self.slots(),
                    i as nat,
                ),
            decreases self.slots().len() - i,
        {
            let ghost prev = self.slots();
            let answer = match &mut self.observers[i] {
                Some(observer) => Some(observer.poll_ready(cx)),
                None => None,
            };
            let stalled = match answer {
                Some(answer) => self.settle(i, &answer),
                None => false,
            };
            proof {
                lemma_vacated_prefix(old(self).slots(), prev, self.slots(), i as nat);
            }
            if stalled {
                proof {
                    lemma_vacated_tail(old(self).slots(), self.slots(), (i + 1) as nat);
                }
                return std::task::Poll::Pending;
            }
            assert(self.free_list() =~= old(self).free_list() + vacated(
                old(self).slots(),
                self.slots(),
                (i + 1) as nat,
            ));
            i += 1;
        }
        std::task::Poll::Ready(Ok(()))
    }

    /// Sends `evt` to the observers. Each subscription in turn: if the
    /// observer is gone, its slot is emptied; else its filter is asked once,
    /// and if that lets the event through, a clone of the event is handed to
    /// the channel; a channel that does not take it also has its slot
    /// emptied. A subscription whose filter holds the event back is left
    /// untouched. Emptied slots go on the free list, lowest index first.
    /// No observer's failure is reported: the only error is `Closed`, from a
    /// closed registry, which does nothing. Whether a subscription keeps its
    /// slot is decided by [`stays`] and carried out by [`Pharos::tally`].
    pub fn start_send(&mut self, evt: Event) -> (sent: Result<(), Error>)
        requires
            old(self).wf(),
        ensures
            final(self).wf(),
            final(self).follows(old(self)),
            final(self).is_closed() == old(self).is_closed(),
            final(self).lists_vacated(old(self)),
            old(self).is_closed() ==> {
                &&& sent matches Err(e) && e.kind_spec() == ErrorKind::Closed && e.cause() is None
                &&& final(self).slots() == old(self).slots()
            },
            !old(self).is_closed() ==> {
                &&& sent is Ok
                &&& dispatched(old(self).slots(), final(self).slots(), evt)
            },
    {
        if self.state == State::Closed {
            proof {
                lemma_vacated_tail(self.slots(), self.slots(), 0);
            }
            return Err(Error::from(ErrorKind::Closed));
        }
        let mut i: usize = 0;
        while i < self.observers.len()
            invariant
                self.wf(),
                self.is_closed() == old(self).is_closed(),
                self.slots().len() == old(self).slots().len(),
                i <= self.slots().len(),
                forall|j: int|
                    0 <= j < i ==> offered(old(self).slots()[j], #[trigger] self.slots()[j], evt),
                forall|j: int| i <= j < self.slots().len() ==> self.slots()[j] == old(self).slots()[j],
                self.free_list() == old(self).free_list() + vacated(
                    old(self).slots(),
                    self.slots(),
                    i as nat,
                ),
            decreases self.slots().len() - i,
        {
            let ghost prev = self.slots();
            let fate = match &mut self.observers[i] {
                Some(observer) => {
                    let gone = observer.is_closed();
                    let wanted = !gone && observer.accepts(&evt);
                    let taken = wanted && observer.start_send(evt.clone()).is_ok();
                    Some(stays(gone, wanted, taken))
                },
                None => None,
            };
            if let Some(keep) = fate {
                self.tally(i, !keep);
            }
            proof {
                lemma_vacated_prefix(old(self).slots(), prev, self.slots(), i as nat);
                assert(self.free_list() =~= old(self).free_list() + vacated(
                    old(self).slots(),
                    self.slots(),
                    (i + 1) as nat,
                ));
            }
            i += 1;
        }
        Ok(())
    }

    /// Polls every subscription for having passed on what it took. Pending
    /// exactly when one of them is still at it; every subscription is polled
    /// all the same. The slot of an observer that turns out to be gone is
    /// emptied and goes on the free list, lowest index first. A closed
    /// registry answers with the error `Closed` and does nothing. What a
    /// channel answers is acted on by [`Pharos::settle`].
    pub fn poll_flush(&mut self, cx: &mut std::task::Context<'_>) -> (flushed: std::task::Poll<
        Result<(), Error>,
    >)
        requires
            old(self).wf(),
        ensures
            final(self).wf(),
            final(self).follows(old(self)),
            final(self).is_closed() == old(self).is_closed(),
            polled(old(self).slots(), final(self).slots()),
            final(self).lists_vacated(old(self)),
            old(self).is_closed() ==> {
                &&& flushed matches std::task::Poll::Ready(Err(e)) && e.kind_spec()
                    == ErrorKind::Closed && e.cause() is None
                &&& final(self).slots() == old(self).slots()
            },
            !old(self).is_closed() ==> {
                &&& flushed is Pending || flushed == std::task::Poll::Ready(Ok::<(), Error>(()))
                &&& flushed is Pending <==> exists|i: int|
                    0 <= i < final(self).slots().len() && holds_stalled(
                        #[trigger] final(self).slots()[i],
                    )
                &&& forall|i: int|
                    0 <= i < final(self).slots().len() && holds_stalled(
                        #[trigger] final(self).slots()[i],
                    ) ==> holds_bounded(final(self).slots()[i])
            },
    {
        if self.state == State::Closed {
            proof {
                lemma_vacated_tail(self.slots(), self.slots(), 0);
            }
            return std::task::Poll::Ready(Err(Error::from(ErrorKind::Closed)));
        }
        let mut pending = false;
        let ghost mut witness: int = 0;
        let mut i: usize = 0;
        while i < self.observers.len()
            invariant
                self.wf(),
                self.is_closed() == old(self).is_closed(),
                polled(old(self).slots(), self.slots()),
                i <= self.slots().len(),
                forall|j: int| i <= j < self.slots().len() ==> self.slots()[j] == old(self).slots()[j],
                self.free_list() == old(self).free_list() + vacated(
                    old(self).slots(),
                    self.slots(),
                    i as nat,
                ),
                pending ==> 0 <= witness < i && holds_stalled(self.slots()[witness]),
                !pending ==> forall|j: int| 0 <= j < i ==> !holds_stalled(self.slots()[j]),
                forall|j: int|
                    0 <= j < i && holds_stalled(self.slots()[j]) ==> holds_bounded(self.slots()[j]),
            decreases self.slots().len() - i,
        {
            let ghost prev = self.slots();
            let answer = match &mut self.observers[i] {
                Some(observer) => Some(observer.poll_flush(cx)),
                None => None,
            };
            let stalled = match answer {
                Some(answer) => self.settle(i, &answer),
                None => false,
            };
            if stalled {
                pending = true;
                proof {
                    witness = i as int;
                }
            }
            proof {
                lemma_vacated_prefix(old(self).slots(), prev, self.slots(), i as nat);
                assert(self.free_list() =~= old(self).free_list() + vacated(
                    old(self).slots(),
                    self.slots(),
                    (i + 1) as nat,
                ));
            }
            i += 1;
        }
        if pending {
            std::task::Poll::Pending
        } else {
            std::task::Poll::Ready(Ok(()))
        }
    }

    /// Closes the registry for good: from now on it takes no observers and
    /// no events. Closes every observer's channel from the sending side, so
    /// that each stream ends once it has been read to the end. No slot is
    /// emptied by this; `num_observers` finds the closed channels. Closing a
    /// closed registry does nothing. Either way the call is complete at once.
    pub fn poll_close(&mut self, cx: &mut std::task::Context<'_>) -> (closed: std::task::Poll<
        Result<(), Error>,
    >)
        requires
            old(self).wf(),
        ensures
            final(self).wf(),
            final(self).follows(old(self)),
            final(self).is_closed(),
            closed == std::task::Poll::Ready(Ok::<(), Error>(())),
            kept(old(self).slots(), final(self).slots()),
            final(self).free_list() == old(self).free_list(),
            old(self).is_closed() ==> final(self).slots() == old(self).slots(),
    {
        if self.state == State::Closed {
            return std::task::Poll::Ready(Ok(()));
        } else {
            self.state = State::Closed;
        }
        let mut i: usize = 0;
        while i < self.observers.len()
            invariant
                self.listed(),
                self.is_closed(),
                kept(old(self).slots(), self.slots()),
                forall|j: int|
                    0 <= j < i && (#[trigger] self.slots()[j]) is Some ==> holds_shut(
                        self.slots()[j],
                    ),
                i <= self.slots().len(),
                self.free_list() == old(self).free_list(),
            decreases self.slots().len() - i,
        {
            let answer = match &mut self.observers[i] {
                Some(observer) => Some(observer.poll_close(cx)),
                None => None,
            };
            let stalled = match answer {
                Some(answer) => self.settle(i, &answer),
                None => false,
            };
            if stalled {
                return std::task::Poll::Pending;
            }
            i += 1;
        }
        std::task::Poll::Ready(Ok(()))
    }

    /// Acts on the answer that the channel in slot `i` gave to a poll, and
    /// says whether the answer was "pending". An error means that the
    /// observer is gone: the slot is emptied and goes on the free list. Any
    /// other answer leaves the registry as it is.
    pub fn settle(&mut self, i: usize, answer: &std::task::Poll<Result<(), Error>>) -> (stalled:
        bool)
        requires
            old(self).listed(),
            i < old(self).slots().len(),
            old(self).slots()[i as int] is Some,
        ensures
            final(self).listed(),
            old(self).wf() ==> final(self).wf(),
            final(self).is_closed() == old(self).is_closed(),
            stalled == answer is Pending,
            match answer {
                std::task::Poll::Ready(Err(_)) => {
                    &&& final(self).slots() == old(self).slots().update(i as int, None)
                    &&& final(self).free_list() == old(self).free_list().push(i)
                },
                _ => {
                    &&& final(self).slots() == old(self).slots()
                    &&& final(self).free_list() == old(self).free_list()
                },
            },
    {
        match answer {
            std::task::Poll::Pending => true,
            std::task::Poll::Ready(Ok(_)) => false,
            std::task::Poll::Ready(Err(_)) => {
                self.release(i);
                false
            },
        }
    }

    /// Acts on what was found out about the observer in slot `i`, and says
    /// whether the observer is still there. An observer that is `gone` loses
    /// its slot: the slot is emptied and goes on the free list. One that is
    /// not keeps it, and the registry stays as it is.
    pub fn tally(&mut self, i: usize, gone: bool) -> (live: bool)
        requires
            old(self).listed(),
            i < old(self).slots().len(),
            old(self).slots()[i as int] is Some,
        ensures
            final(self).listed(),
            old(self).wf() ==> final(self).wf(),
            final(self).is_closed() == old(self).is_closed(),
            live == !gone,
            gone ==> final(self).slots() == old(self).slots().update(i as int, None)
                && final(self).free_list() == old(self).free_list().push(i),
            !gone ==> final(self).slots() == old(self).slots() && final(self).free_list() == old(
                self,
            ).free_list(),
    {
        if gone {
            self.release(i);
        }
        !gone
    }

    /// Empties slot `i` and puts it on the free list. An empty slot stays as
    /// it is, so that no index gets on the free list twice.
    fn release(&mut self, i: usize)
        requires
            old(self).listed(),
            i < old(self).slots().len(),
        ensures
            final(self).listed(),
            final(self).is_closed() == old(self).is_closed(),
            final(self).slots() == old(self).slots().update(i as int, None),
            final(self).free_list() == if old(self).slots()[i as int] is Some {
                old(self).free_list().push(i)
            } else {
                old(self).free_list()
            },
    {
        if self.observers[i].is_some() {
            self.observers[i] = None;
            self.free_slots.push(i);
            proof {
                let free = old(self).free_list();
                assert forall|j: int|
                    0 <= j < self.slots().len() && (#[trigger] self.slots()[j]) is None
                    implies self.free_list().contains(j as usize) by {
                    if j == i {
                        assert(self.free_list()[free.len() as int] == i);
                    } else {
                        let k = choose|k: int| 0 <= k < free.len() && free[k] == j as usize;
                        assert(self.free_list()[k] == j as usize);
                    }
                }
            }
        }
    }
}

/// A registry with room for ten observers.
impl<Event> Default for Pharos<Event> where Event: 'static + Clone + Sync + Send {
    fn default() -> (pharos: Self)
        ensures
            pharos.wf(),
            pharos.slots() == Seq::<Option<Subscription<Event>>>::empty(),
            pharos.free_list() == Seq::<usize>::empty(),
            !pharos.is_closed(),
    {
        Self::new(10)
    }
}

impl<Event> Observable<Event> for Pharos<Event> where Event: 'static + Clone + Sync + Send {
    type Error = Error;

    /// The registry must be well formed and, unless it is closed and makes
    /// no channel, a bounded channel no larger than a channel can be.
    open spec fn can_observe(&self, options: &ObserveConfig<Event>) -> bool {
        &&& self.wf()
        &&& !self.is_closed() ==> (options.channel_kind() matches Channel::Bounded(size) ==> size
            <= MAX_QUEUE_SIZE)
    }

    /// Subscribes an observer: makes a channel of the kind asked for, keeps
    /// its sending half with the filter, and hands back the stream. The
    /// subscription goes into the slot that was emptied last; only when no
    /// slot is empty does the storage grow by one. Fails, and changes
    /// nothing, with `Closed` when the registry is closed, else with
    /// `MinChannelSizeOne` when a bounded channel of size zero is asked for.
    /// In every other case it succeeds.
    fn observe(&mut self, options: ObserveConfig<Event>) -> (subscribed: Result<
        Events<Event>,
        Error,
    >)
        ensures
            final(self).wf(),
            final(self).follows(old(self)),
            final(self).is_closed() == old(self).is_closed(),
            match subscribed {
                Ok(events) => {
                    &&& !old(self).is_closed()
                    &&& options.channel_kind() != Channel::Bounded(0)
                    &&& events.is_bounded() == (options.channel_kind() is Bounded)
                    &&& !events.is_shut()
                    &&& !events.is_ended()
                    &&& final(self).subscribed(old(self), options)
                },
                Err(e) => {
                    &&& old(self).is_closed() || options.channel_kind() == Channel::Bounded(0)
                    &&& e.kind_spec() == if old(self).is_closed() {
                        ErrorKind::Closed
                    } else {
                        ErrorKind::MinChannelSizeOne
                    }
                    &&& e.cause() is None
                    &&& final(self).slots() == old(self).slots()
                    &&& final(self).free_list() == old(self).free_list()
                },
            },
    {
        if self.state == State::Closed {
            return Err(Error::from(ErrorKind::Closed));
        }
        match options.requested() {
            Channel::Bounded(queue_size) => {
                if queue_size < 1 {
                    return Err(Error::from(ErrorKind::MinChannelSizeOne));
                }
            },
            _ => {},
        }
        let (events, subscription) = Events::new(options);
        if let Some(i) = self.free_slots.pop() {
            self.observers[i] = Some(subscription);
            proof {
                let free = old(self).free_list();
                assert forall|j: int|
                    0 <= j < self.slots().len() && (#[trigger] self.slots()[j]) is None
                    implies self.free_list().contains(j as usize) by {
                    assert(j < self.observers.len());
                    let k = choose|k: int| 0 <= k < free.len() && free[k] == j as usize;
                    assert(self.free_list()[k] == j as usize);
                }
            }
        } else {
            self.observers.push(Some(subscription));
        }
        Ok(events)
    }
}

} // verus!
