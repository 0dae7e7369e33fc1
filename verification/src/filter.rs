use vstd::prelude::*;

verus! {

/// A predicate over events, as the registry holds it: something to ask, for
/// one event, whether an observer wants it.
pub(crate) trait Predicate<Event>: Send {
    /// Whether the predicate may be asked about `evt`.
    spec fn callable(&self, evt: &Event) -> bool;

    /// Whether `verdict` is an answer the predicate can give for `evt`.
    spec fn answers(&self, evt: &Event, verdict: bool) -> bool;

    /// Ask the predicate about `evt`.
    fn test(&self, evt: &Event) -> (verdict: bool)
        requires
            self.callable(evt),
        ensures
            self.answers(evt, verdict),
    ;
}

impl<Event, F: Fn(&Event) -> bool + Send> Predicate<Event> for F {
    open spec fn callable(&self, evt: &Event) -> bool {
        call_requires(*self, (evt,))
    }

    open spec fn answers(&self, evt: &Event, verdict: bool) -> bool {
        call_ensures(*self, (evt,), verdict)
    }

    fn test(&self, evt: &Event) -> (verdict: bool) {
        self(evt)
    }
}

/// Decides, for one observer, which events it receives. A filter can be asked
/// about every event.
#[verifier::reject_recursive_types(Event)]
pub struct Filter<Event> {
    predicate: Box<dyn Predicate<Event>>,
}

impl<Event> Filter<Event> {
    #[verifier::type_invariant]
    spec fn total(self) -> bool {
        forall|evt: &Event| #[trigger] self.predicate.callable(evt)
    }

    /// Whether `verdict` is an answer this filter can give for `evt`: `true`
    /// lets the event through, `false` holds it back.
    pub closed spec fn answers(&self, evt: &Event, verdict: bool) -> bool {
        self.predicate.answers(evt, verdict)
    }

    /// A filter that lets through the events for which `f` returns `true`.
    /// `f` must accept every event.
    pub fn new<F: Fn(&Event) -> bool + Send + 'static>(f: F) -> (filter: Self)
        requires
            forall|evt: &Event| #[trigger] call_requires(f, (evt,)),
        ensures
            forall|evt: &Event, verdict: bool|
                #[trigger] filter.answers(evt, verdict) == call_ensures(f, (evt,), verdict),
    {
        let predicate: Box<dyn Predicate<Event>> = Box::new(f);
        Filter { predicate }
    }

    /// Ask the filter whether an observer receives `evt`.
    pub fn call(&self, evt: &Event) -> (verdict: bool)
        ensures
            self.answers(evt, verdict),
    {
        proof {
            use_type_invariant(self);
        }
        self.predicate.test(evt)
    }
}

} // verus!
