use vstd::prelude::*;
use crate::events::Events;
use crate::filter::Filter;
use crate::transport::MAX_BUFFER;

verus! {

/// How the channel between the registry and one observer buffers events.
#[derive(Debug, Copy, Clone, PartialEq, Eq, Structural)]
pub enum Channel {
    /// A queue of at most this many undelivered events; while it is full the
    /// registry is not ready to send. The size must be at least one.
    Bounded(usize),
    /// A queue that grows as needed and never holds the registry back.
    Unbounded,
}

impl Default for Channel {
    fn default() -> (channel: Self)
        ensures
            channel == Channel::Unbounded,
    {
        Channel::Unbounded
    }
}

/// The largest size a bounded channel can have.
pub const MAX_QUEUE_SIZE: usize = MAX_BUFFER;

impl Channel {
    /// The buffer to ask the channel for, so that `size` events can wait in
    /// it: one less than `size`, because the channel lets one event wait for
    /// its sender on top of the buffer, and the registry is the only sender.
    pub fn buffer_for(size: usize) -> (buffer: usize)
        requires
            1 <= size,
        ensures
            buffer == size - 1,
    {
        size - 1
    }
}

/// What an observer asks for when it subscribes: the kind of channel, and
/// optionally a filter on the events.
#[verifier::reject_recursive_types(Event)]
pub struct ObserveConfig<Event> {
    channel: Channel,
    filter: Option<Filter<Event>>,
}

impl<Event> ObserveConfig<Event> {
    /// The kind of channel asked for.
    pub closed spec fn channel_kind(&self) -> Channel {
        self.channel
    }

    /// The filter asked for; without one the observer receives every event.
    pub closed spec fn chosen_filter(&self) -> Option<Filter<Event>> {
        self.filter
    }

    /// The kind of channel asked for.
    pub fn requested(&self) -> (channel: Channel)
        ensures
            channel == self.channel_kind(),
    {
        self.channel
    }

    /// Takes the options apart.
    pub(crate) fn into_parts(self) -> (parts: (Channel, Option<Filter<Event>>))
        ensures
            parts.0 == self.channel_kind(),
            parts.1 == self.chosen_filter(),
    {
        (self.channel, self.filter)
    }

    /// Choose the kind of channel.
    pub fn channel(self, channel: Channel) -> (config: Self)
        ensures
            config.channel_kind() == channel,
            config.chosen_filter() == self.chosen_filter(),
    {
        ObserveConfig { channel, filter: self.filter }
    }

    /// Receive only the events for which `f` returns `true`. `f` must accept
    /// every event.
    pub fn filter<F: Fn(&Event) -> bool + Send + 'static>(self, f: F) -> (config: Self)
        requires
            forall|evt: &Event| #[trigger] call_requires(f, (evt,)),
        ensures
            config.channel_kind() == self.channel_kind(),
            config.chosen_filter() matches Some(chosen) && forall|evt: &Event, verdict: bool|
                #[trigger] chosen.answers(evt, verdict) == call_ensures(f, (evt,), verdict),
    {
        ObserveConfig { channel: self.channel, filter: Some(Filter::new(f)) }
    }
}

/// An unbounded channel and no filter.
impl<Event> Default for ObserveConfig<Event> {
    fn default() -> (config: Self)
        ensures
            config.channel_kind() == Channel::Unbounded,
            config.chosen_filter() is None,
    {
        ObserveConfig { channel: Channel::Unbounded, filter: None }
    }
}

/// The given kind of channel and no filter.
impl<Event> From<Channel> for ObserveConfig<Event> {
    fn from(channel: Channel) -> (config: Self)
        ensures
            config.channel_kind() == channel,
            config.chosen_filter() is None,
    {
        ObserveConfig { channel, filter: None }
    }
}

impl<Event> vstd::std_specs::convert::FromSpecImpl<Channel> for ObserveConfig<Event> {
    open spec fn obeys_from_spec() -> bool {
        true
    }

    closed spec fn from_spec(channel: Channel) -> Self {
        ObserveConfig { channel, filter: None }
    }
}

/// An unbounded channel and the given filter.
impl<Event> From<Filter<Event>> for ObserveConfig<Event> {
    fn from(filter: Filter<Event>) -> (config: Self)
        ensures
            config.channel_kind() == Channel::Unbounded,
            config.chosen_filter() == Some(filter),
    {
        ObserveConfig { channel: Channel::Unbounded, filter: Some(filter) }
    }
}

impl<Event> vstd::std_specs::convert::FromSpecImpl<Filter<Event>> for ObserveConfig<Event> {
    open spec fn obeys_from_spec() -> bool {
        true
    }

    closed spec fn from_spec(filter: Filter<Event>) -> Self {
        ObserveConfig { channel: Channel::Unbounded, filter: Some(filter) }
    }
}

/// Something that can be observed: it hands out streams of its events.
pub trait Observable<Event> where Event: Clone + 'static + Send {
    /// What `observe` reports when it cannot subscribe the observer.
    type Error;

    /// Whether `observe` may be called in this state with these options.
    spec fn can_observe(&self, options: &ObserveConfig<Event>) -> bool;

    /// Subscribe an observer and hand back its stream of events.
    fn observe(&mut self, options: ObserveConfig<Event>) -> (subscribed: Result<
        Events<Event>,
        Self::Error,
    >)
        requires
            old(self).can_observe(&options),
    ;
}

} // verus!
