use vstd::prelude::*;
use crate::error::{Error, ErrorKind};
use crate::filter::Filter;
use crate::observable::{Channel, ObserveConfig, MAX_QUEUE_SIZE};
use crate::transport;

verus! {

/// The receiving half of one observer's channel.
#[derive(Debug)]
#[verifier::reject_recursive_types(Event)]
enum Rx<Event> {
    Bounded(futures_channel::mpsc::Receiver<Event>),
    Unbounded(futures_channel::mpsc::UnboundedReceiver<Event>),
}

/// The stream of events one observer receives. It ends when the observer
/// closes it and has read what was queued, or when the registry closes. A
/// stream that has ended stays ended.
#[derive(Debug)]
#[verifier::reject_recursive_types(Event)]
pub struct Events<Event> {
    rx: Rx<Event>,
    shut: bool,
    ended: bool,
}

impl<Event> Events<Event> {
    /// Whether the stream sits on a bounded channel.
    pub closed spec fn is_bounded(&self) -> bool {
        self.rx is Bounded
    }

    /// Whether the observer has closed the stream.
    pub closed spec fn is_shut(&self) -> bool {
        self.shut
    }

    /// Whether the stream has ended: a poll has been answered with `None`.
    pub closed spec fn is_ended(&self) -> bool {
        self.ended
    }

    /// Stop observing. This marks the stream as closed and closes the
    /// channel, so that the registry finds it closed the next time it looks
    /// and gives the slot to someone else. Events that are already queued can
    /// still be read. Closing a closed stream does nothing.
    pub fn close(&mut self)
        ensures
            final(self).is_shut(),
            final(self).is_ended() == old(self).is_ended(),
            final(self).is_bounded() == old(self).is_bounded(),
    {
        if !self.shut {
            match &mut self.rx {
                Rx::Bounded(rx) => transport::receiver_close(rx),
                Rx::Unbounded(rx) => transport::unbounded_receiver_close(rx),
            }
            self.shut = true;
        }
    }

    /// Poll for the next event: ready with an event, ready with `None` when
    /// the stream has ended, or pending. The stream ends with the first
    /// `None`; after that every poll is answered with `None`, and the channel
    /// is not asked again.
    pub fn poll_next(&mut self, cx: &mut std::task::Context<'_>) -> (polled: std::task::Poll<
        Option<Event>,
    >)
        ensures
            old(self).is_ended() ==> polled == std::task::Poll::Ready(None::<Event>),
            final(self).is_ended() == (polled == std::task::Poll::Ready(None::<Event>)),
            final(self).is_shut() == old(self).is_shut(),
            final(self).is_bounded() == old(self).is_bounded(),
    {
        if self.ended {
            return std::task::Poll::Ready(None);
        }
        let polled = match &mut self.rx {
            Rx::Bounded(rx) => transport::receiver_poll_next(rx, cx),
            Rx::Unbounded(rx) => transport::unbounded_receiver_poll_next(rx, cx),
        };
        self.conclude(polled)
    }

    /// Takes note of the answer that the channel gave to a poll of a stream
    /// that had not ended: with the answer `None` the stream has ended, with
    /// any other it has not. The answer is handed on as it came.
    fn conclude(&mut self, polled: std::task::Poll<Option<Event>>) -> (answer: std::task::Poll<
        Option<Event>,
    >)
        requires
            !old(self).is_ended(),
        ensures
            answer == polled,
            final(self).is_ended() == (polled == std::task::Poll::Ready(None::<Event>)),
            final(self).is_shut() == old(self).is_shut(),
            final(self).is_bounded() == old(self).is_bounded(),
    {
        match &polled {
            std::task::Poll::Ready(None) => {
                self.ended = true;
            },
            _ => {},
        }
        polled
    }
}

/// The sending half of one observer's channel.
#[verifier::reject_recursive_types(Event)]
enum Tx<Event> {
    Bounded(futures_channel::mpsc::Sender<Event>),
    Unbounded(futures_channel::mpsc::UnboundedSender<Event>),
}

/// The registry's end of one subscription: the sending half of the observer's
/// channel, the observer's filter, and whether the registry has closed the
/// channel from its side. It also keeps, for reasoning only, the size that a
/// bounded channel was asked for, the events that the channel has taken so
/// far, and whether the channel's answer to the last poll was "pending".
#[verifier::reject_recursive_types(Event)]
pub struct Subscription<Event> {
    tx: Tx<Event>,
    filter: Option<Filter<Event>>,
    shut: bool,
    size: Ghost<usize>,
    forwarded: Ghost<Seq<Event>>,
    stalled: Ghost<bool>,
}

impl<Event> Subscription<Event> {
    /// The kind of channel the subscription sits on, with the size that was
    /// asked for where it is bounded.
    pub closed spec fn channel_kind(&self) -> Channel {
        match self.tx {
            Tx::Bounded(_) => Channel::Bounded(self.size@),
            Tx::Unbounded(_) => Channel::Unbounded,
        }
    }

    /// Whether the subscription sits on a bounded channel.
    pub open spec fn is_bounded(&self) -> bool {
        self.channel_kind() is Bounded
    }

    /// The observer's filter; without one the observer receives every event.
    pub closed spec fn chosen_filter(&self) -> Option<Filter<Event>> {
        self.filter
    }

    /// Whether the registry has closed the channel from the sending side.
    pub closed spec fn is_shut(&self) -> bool {
        self.shut
    }

    /// The events that the channel has taken from the registry, oldest first.
    pub closed spec fn forwarded(&self) -> Seq<Event> {
        self.forwarded@
    }

    /// Whether the channel answered the last poll with "pending". Only a
    /// bounded channel does.
    pub closed spec fn stalled(&self) -> bool {
        self.stalled@
    }

    /// Whether `verdict` is an answer the observer's filter can give for
    /// `evt`. Without a filter the only answer is `true`.
    pub open spec fn may_answer(&self, evt: &Event, verdict: bool) -> bool {
        match self.chosen_filter() {
            Some(filter) => filter.answers(evt, verdict),
            None => verdict,
        }
    }

    /// Whether this is the subscription `before` at a later time: the same
    /// kind and size of channel and the same filter.
    pub open spec fn continues(&self, before: &Self) -> bool {
        &&& self.channel_kind() == before.channel_kind()
        &&& self.chosen_filter() == before.chosen_filter()
    }

    /// Whether this is the subscription `before` after a poll, which puts no
    /// event on the channel.
    pub open spec fn idles(&self, before: &Self) -> bool {
        &&& self.continues(before)
        &&& self.forwarded() == before.forwarded()
    }

    /// Whether nothing more can go through the channel. That is so once the
    /// registry has closed it from the sending side; until then the channel
    /// is asked whether the observer has closed or dropped its stream, and
    /// the answer is the channel's at this moment.
    pub(crate) fn is_closed(&self) -> (closed: bool)
        ensures
            self.is_shut() ==> closed,
    {
        if self.shut {
            return true;
        }
        match &self.tx {
            Tx::Bounded(tx) => transport::sender_is_closed(tx),
            Tx::Unbounded(tx) => transport::unbounded_sender_is_closed(tx),
        }
    }

    /// Ask the observer's filter whether the observer receives `evt`.
    pub(crate) fn accepts(&self, evt: &Event) -> (verdict: bool)
        ensures
            self.may_answer(evt, verdict),
    {
        match &self.filter {
            Some(filter) => filter.call(evt),
            None => true,
        }
    }

    /// Poll whether the channel can take another event. An unbounded channel
    /// is never pending. An error means that the observer is gone.
    pub(crate) fn poll_ready(&mut self, cx: &mut std::task::Context<'_>) -> (polled: std::task::Poll<
        Result<(), Error>,
    >)
        ensures
            final(self).idles(old(self)),
            final(self).is_shut() == old(self).is_shut(),
            final(self).stalled() == polled is Pending,
            !old(self).is_bounded() ==> polled is Ready,
            polled matches std::task::Poll::Ready(Err(e)) ==> e.kind_spec() == ErrorKind::SendError,
    {
        let polled = match &mut self.tx {
            Tx::Bounded(tx) => transport::sender_poll_ready(tx, cx),
            Tx::Unbounded(tx) => transport::unbounded_sender_poll_ready(tx, cx),
        };
        self.stalled = Ghost(polled is Pending);
        surface(polled)
    }

    /// Hand `item` to the channel. On success the channel has taken it, after
    /// everything it took before; on failure it has taken nothing, and the
    /// observer is gone.
    pub(crate) fn start_send(&mut self, item: Event) -> (sent: Result<(), Error>)
        ensures
            final(self).continues(old(self)),
            final(self).is_shut() == old(self).is_shut(),
            final(self).stalled() == old(self).stalled(),
            sent is Ok ==> final(self).forwarded() == old(self).forwarded().push(item),
            sent matches Err(e) ==> e.kind_spec() == ErrorKind::SendError && final(self).forwarded()
                == old(self).forwarded(),
    {
        let ghost taken = self.forwarded@.push(item);
        let sent = match &mut self.tx {
            Tx::Bounded(tx) => transport::sender_start_send(tx, item),
            Tx::Unbounded(tx) => transport::unbounded_sender_start_send(tx, item),
        };
        match sent {
            Ok(()) => {
                self.forwarded = Ghost(taken);
                Ok(())
            },
            Err(e) => Err(Error::from(e)),
        }
    }

    /// Poll whether the channel has passed on what it took. The channel
    /// itself counts a vanished observer as flushed; here that is an error, so
    /// that the registry learns of it.
    pub(crate) fn poll_flush(&mut self, cx: &mut std::task::Context<'_>) -> (polled: std::task::Poll<
        Result<(), Error>,
    >)
        ensures
            final(self).idles(old(self)),
            final(self).is_shut() == old(self).is_shut(),
            final(self).stalled() == polled is Pending,
            !old(self).is_bounded() ==> polled is Ready,
            polled matches std::task::Poll::Ready(Err(e)) ==> e.kind_spec() == ErrorKind::SendError,
    {
        let polled = match &mut self.tx {
            Tx::Bounded(tx) => transport::sender_poll_flush(tx, cx),
            Tx::Unbounded(tx) => transport::unbounded_sender_poll_flush(tx, cx),
        };
        self.stalled = Ghost(polled is Pending);
        match polled {
            std::task::Poll::Ready(Ok(())) => {
                if self.is_closed() {
                    std::task::Poll::Ready(Err(Error::from(ErrorKind::SendError)))
                } else {
                    std::task::Poll::Ready(Ok(()))
                }
            },
            other => surface(other),
        }
    }

    /// Close the channel from the sending side, which ends the observer's
    /// stream once it has read what is queued. This completes at once, and
    /// from then on the subscription counts as closed.
    pub(crate) fn poll_close(&mut self, cx: &mut std::task::Context<'_>) -> (polled: std::task::Poll<
        Result<(), Error>,
    >)
        ensures
            final(self).idles(old(self)),
            final(self).is_shut(),
            !final(self).stalled(),
            polled == std::task::Poll::Ready(Ok::<(), Error>(())),
    {
        let polled = match &mut self.tx {
            Tx::Bounded(tx) => transport::sender_poll_close(tx, cx),
            Tx::Unbounded(tx) => transport::unbounded_sender_poll_close(tx, cx),
        };
        self.shut = true;
        self.stalled = Ghost(false);
        surface(polled)
    }
}

/// Turns the channel's answer to a poll into the library's: the same, with
/// the channel's error wrapped in an [`Error`] of kind `SendError`.
fn surface(polled: std::task::Poll<Result<(), futures_channel::mpsc::SendError>>) -> (r:
    std::task::Poll<Result<(), Error>>)
    ensures
        match polled {
            std::task::Poll::Pending => r is Pending,
            std::task::Poll::Ready(Ok(())) => r == std::task::Poll::Ready(Ok::<(), Error>(())),
            std::task::Poll::Ready(Err(e)) => r matches std::task::Poll::Ready(Err(wrapped))
                && wrapped.kind_spec() == ErrorKind::SendError && wrapped.cause() == Some(e),
        },
{
    match polled {
        std::task::Poll::Pending => std::task::Poll::Pending,
        std::task::Poll::Ready(Ok(())) => std::task::Poll::Ready(Ok(())),
        std::task::Poll::Ready(Err(e)) => std::task::Poll::Ready(Err(Error::from(e))),
    }
}

impl<Event> Events<Event> {
    /// A fresh channel of the kind and size `config` asks for: the observer's
    /// stream, and the registry's end with the filter of `config` and nothing
    /// forwarded yet. A bounded channel of size `n` lets `n` events wait: it
    /// is made with the buffer that [`Channel::buffer_for`] gives for `n`.
    pub(crate) fn new(config: ObserveConfig<Event>) -> (pair: (Self, Subscription<Event>))
        requires
            config.channel_kind() matches Channel::Bounded(size) ==> 1 <= size <= MAX_QUEUE_SIZE,
        ensures
            pair.0.is_bounded() == (config.channel_kind() is Bounded),
            !pair.0.is_shut(),
            !pair.0.is_ended(),
            pair.1.channel_kind() == config.channel_kind(),
            pair.1.chosen_filter() == config.chosen_filter(),
            pair.1.forwarded() == Seq::<Event>::empty(),
            !pair.1.is_shut(),
            !pair.1.stalled(),
    {
        let (channel, filter) = config.into_parts();
        match channel {
            Channel::Bounded(size) => {
                let (tx, rx) = transport::channel(Channel::buffer_for(size));
                (
                    Events { rx: Rx::Bounded(rx), shut: false, ended: false },
                    Subscription {
                        tx: Tx::Bounded(tx),
                        filter,
                        shut: false,
                        size: Ghost(size),
                        forwarded: Ghost(Seq::empty()),
                        stalled: Ghost(false),
                    },
                )
            },
            Channel::Unbounded => {
                let (tx, rx) = transport::unbounded();
                (
                    Events { rx: Rx::Unbounded(rx), shut: false, ended: false },
                    Subscription {
                        tx: Tx::Unbounded(tx),
                        filter,
                        shut: false,
                        size: Ghost(0),
                        forwarded: Ghost(Seq::empty()),
                        stalled: Ghost(false),
                    },
                )
            },
        }
    }
}

} // verus!
