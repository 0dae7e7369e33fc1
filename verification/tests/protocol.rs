use futures::executor::block_on;
use futures::future::poll_fn;
use pharos::pharos::stays;
use pharos::{Channel, Error, ErrorKind, Filter, Observable, ObserveConfig, Pharos, MAX_QUEUE_SIZE};
use std::task::Poll;

// Three observers on an unbounded, a bounded(1) and an unbounded channel: one
// undrained event on the bounded one holds the registry back until it is read.
#[test]
fn bounded_observer_holds_back_until_drained() {
    block_on(poll_fn(move |cx| {
        let mut ph = Pharos::default();

        let mut first = ph.observe(Channel::Unbounded.into()).expect("observe");
        let mut full = ph.observe(Channel::Bounded(1).into()).expect("observe");
        let mut last = ph.observe(Channel::Unbounded.into()).expect("observe");

        assert!(matches!(ph.poll_ready(cx), Poll::Ready(Ok(()))));
        assert!(ph.start_send(7u8).is_ok());
        assert!(matches!(ph.poll_ready(cx), Poll::Pending));
        assert!(matches!(ph.poll_ready(cx), Poll::Pending));

        assert_eq!(full.poll_next(cx), Poll::Ready(Some(7)));
        assert!(matches!(ph.poll_ready(cx), Poll::Ready(Ok(()))));

        assert_eq!(first.poll_next(cx), Poll::Ready(Some(7)));
        assert_eq!(last.poll_next(cx), Poll::Ready(Some(7)));
        assert_eq!(first.poll_next(cx), Poll::Pending);
        assert_eq!(ph.storage_len(), 3);
        assert_eq!(ph.num_observers(), 3);

        ().into()
    }));
}

// A bounded channel of size 2 takes two events before it holds back.
#[test]
fn bounded_two_takes_two() {
    block_on(poll_fn(move |cx| {
        let mut ph = Pharos::default();
        let mut events = ph.observe(Channel::Bounded(2).into()).expect("observe");

        assert!(matches!(ph.poll_ready(cx), Poll::Ready(Ok(()))));
        assert!(ph.start_send(1u8).is_ok());
        assert!(matches!(ph.poll_ready(cx), Poll::Ready(Ok(()))));
        assert!(ph.start_send(2u8).is_ok());
        assert!(matches!(ph.poll_ready(cx), Poll::Pending));
        assert!(matches!(ph.poll_flush(cx), Poll::Pending));

        assert_eq!(events.poll_next(cx), Poll::Ready(Some(1)));
        assert!(matches!(ph.poll_flush(cx), Poll::Ready(Ok(()))));
        assert_eq!(events.poll_next(cx), Poll::Ready(Some(2)));
        assert_eq!(events.poll_next(cx), Poll::Pending);

        ().into()
    }));
}

// An unbounded channel never holds the registry back.
#[test]
fn unbounded_never_pending() {
    block_on(poll_fn(move |cx| {
        let mut ph = Pharos::default();
        let mut events = ph.observe(Channel::Unbounded.into()).expect("observe");

        for i in 0..100u32 {
            assert!(matches!(ph.poll_ready(cx), Poll::Ready(Ok(()))));
            assert!(ph.start_send(i).is_ok());
            assert!(matches!(ph.poll_flush(cx), Poll::Ready(Ok(()))));
        }
        for i in 0..100u32 {
            assert_eq!(events.poll_next(cx), Poll::Ready(Some(i)));
        }
        assert_eq!(events.poll_next(cx), Poll::Pending);

        ().into()
    }));
}

// Dropping the stream without closing it: the next count is one less than the
// storage, and the next observer gets the slot.
#[test]
fn dropped_stream_is_found_and_slot_reused() {
    let mut ph = Pharos::<bool>::default();
    let _keep = ph.observe(ObserveConfig::default()).expect("observe");
    let gone = ph.observe(ObserveConfig::default()).expect("observe");

    drop(gone);

    assert_eq!(ph.storage_len(), 2);
    assert_eq!(ph.num_observers(), ph.storage_len() - 1);
    assert_eq!(ph.free_slots(), &[1]);
    assert!(ph.is_vacant(1));
    assert!(!ph.is_vacant(0));

    let _next = ph.observe(ObserveConfig::default()).expect("observe");

    assert_eq!(ph.storage_len(), 2);
    assert!(!ph.is_vacant(1));
    assert_eq!(ph.free_slots().len(), 0);
    assert_eq!(ph.num_observers(), 2);
}

// Closing with three observers: every stream ends, nothing is reported, and
// nobody is counted any more.
#[test]
fn close_ends_every_stream() {
    block_on(poll_fn(move |cx| {
        let mut ph = Pharos::<bool>::default();

        let mut a = ph.observe(Channel::Unbounded.into()).expect("observe");
        let mut b = ph.observe(Channel::Bounded(1).into()).expect("observe");
        let mut c = ph.observe(Channel::Bounded(5).into()).expect("observe");

        assert!(ph.start_send(true).is_ok());
        assert!(matches!(ph.poll_close(cx), Poll::Ready(Ok(()))));

        assert_eq!(a.poll_next(cx), Poll::Ready(Some(true)));
        assert_eq!(b.poll_next(cx), Poll::Ready(Some(true)));
        assert_eq!(c.poll_next(cx), Poll::Ready(Some(true)));
        assert_eq!(a.poll_next(cx), Poll::Ready(None));
        assert_eq!(b.poll_next(cx), Poll::Ready(None));
        assert_eq!(c.poll_next(cx), Poll::Ready(None));

        assert_eq!(ph.free_slots().len(), 0);
        assert_eq!(ph.num_observers(), 0);
        assert_eq!(ph.storage_len(), 3);
        assert_eq!(ph.free_slots(), &[0, 1, 2]);

        ().into()
    }));
}

// A closed registry refuses everything but a count and another close.
#[test]
fn closed_registry_refuses() {
    block_on(poll_fn(move |cx| {
        let mut ph = Pharos::<u8>::default();
        let _a = ph.observe(ObserveConfig::default()).expect("observe");

        assert!(matches!(ph.poll_close(cx), Poll::Ready(Ok(()))));
        assert!(matches!(ph.poll_close(cx), Poll::Ready(Ok(()))));

        match ph.observe(ObserveConfig::default()) {
            Err(e) => {
                assert_eq!(ErrorKind::Closed, e.kind());
                assert!(e.source().is_none());
            }
            Ok(_) => panic!("a closed registry took an observer"),
        }
        match ph.observe(Channel::Bounded(0).into()) {
            Err(e) => assert_eq!(ErrorKind::Closed, e.kind()),
            Ok(_) => panic!("a closed registry took an observer"),
        }
        match ph.start_send(1) {
            Err(e) => assert_eq!(ErrorKind::Closed, e.kind()),
            Ok(_) => panic!("a closed registry took an event"),
        }
        match ph.poll_ready(cx) {
            Poll::Ready(Err(e)) => assert_eq!(ErrorKind::Closed, e.kind()),
            _ => panic!("a closed registry was ready"),
        }
        match ph.poll_flush(cx) {
            Poll::Ready(Err(e)) => assert_eq!(ErrorKind::Closed, e.kind()),
            _ => panic!("a closed registry flushed"),
        }
        assert_eq!(ph.storage_len(), 1);
        assert_eq!(ph.num_observers(), 0);

        ().into()
    }));
}

// Bounded(0) is refused and leaves no trace; Bounded(1) and more are taken.
#[test]
fn bounded_sizes() {
    let mut ph = Pharos::<bool>::default();

    let refused = ph.observe(Channel::Bounded(0).into());
    assert_eq!(ErrorKind::MinChannelSizeOne, refused.unwrap_err().kind());
    assert_eq!(ph.storage_len(), 0);
    assert_eq!(ph.free_slots().len(), 0);

    let a = ph.observe(Channel::Bounded(1).into());
    let b = ph.observe(Channel::Bounded(2).into());
    let c = ph.observe(Channel::Bounded(1000).into());
    let d = ph.observe(ObserveConfig::default().channel(Channel::Bounded(3)));
    assert!(a.is_ok() && b.is_ok() && c.is_ok() && d.is_ok());
    assert_eq!(ph.storage_len(), 4);
    assert_eq!(ph.num_observers(), 4);
    assert_eq!(MAX_QUEUE_SIZE, usize::MAX / 4);
}

// The largest bounded channel there is can be asked for.
#[test]
fn bounded_largest() {
    let mut ph = Pharos::<bool>::default();

    let largest = ph.observe(Channel::Bounded(MAX_QUEUE_SIZE).into());
    assert!(largest.is_ok());
    assert_eq!(ph.num_observers(), 1);
}

// A filter holds events back; the observer stays and gets the later ones.
#[test]
fn filter_holds_back() {
    block_on(poll_fn(move |cx| {
        let mut ph = Pharos::default();

        let mut all = ph.observe(ObserveConfig::default()).expect("observe");
        let mut big = ph
            .observe(ObserveConfig::default().filter(|evt: &i32| *evt > 2))
            .expect("observe");
        let mut even = ph
            .observe(ObserveConfig::from(Filter::new(|evt: &i32| *evt % 2 == 0)))
            .expect("observe");

        for evt in 1..=4 {
            assert!(matches!(ph.poll_ready(cx), Poll::Ready(Ok(()))));
            assert!(ph.start_send(evt).is_ok());
        }
        assert!(matches!(ph.poll_flush(cx), Poll::Ready(Ok(()))));
        assert_eq!(ph.num_observers(), 3);

        for evt in 1..=4 {
            assert_eq!(all.poll_next(cx), Poll::Ready(Some(evt)));
        }
        assert_eq!(all.poll_next(cx), Poll::Pending);

        assert_eq!(big.poll_next(cx), Poll::Ready(Some(3)));
        assert_eq!(big.poll_next(cx), Poll::Ready(Some(4)));
        assert_eq!(big.poll_next(cx), Poll::Pending);

        assert_eq!(even.poll_next(cx), Poll::Ready(Some(2)));
        assert_eq!(even.poll_next(cx), Poll::Ready(Some(4)));
        assert_eq!(even.poll_next(cx), Poll::Pending);

        ().into()
    }));
}

// A filter that holds an event back keeps a full bounded channel from
// counting against the observer.
#[test]
fn filter_and_bounded() {
    block_on(poll_fn(move |cx| {
        let mut ph = Pharos::default();
        let config = ObserveConfig::from(Channel::Bounded(1)).filter(|evt: &u8| *evt == 1);
        let mut events = ph.observe(config).expect("observe");

        assert!(ph.start_send(0).is_ok());
        assert!(matches!(ph.poll_ready(cx), Poll::Ready(Ok(()))));
        assert!(ph.start_send(1).is_ok());
        assert!(matches!(ph.poll_ready(cx), Poll::Pending));
        assert_eq!(events.poll_next(cx), Poll::Ready(Some(1)));
        assert_eq!(events.poll_next(cx), Poll::Pending);

        ().into()
    }));
}

#[test]
fn filter_call() {
    let odd = Filter::new(|evt: &u32| *evt % 2 == 1);

    assert!(odd.call(&3));
    assert!(!odd.call(&4));
}

// Sending finds the observers that are gone, and frees their slots lowest
// index first; the slot freed last is used first.
#[test]
fn send_frees_gone_observers() {
    let mut ph = Pharos::default();

    let a = ph.observe(ObserveConfig::default()).expect("observe");
    let _b = ph.observe(ObserveConfig::default()).expect("observe");
    let mut c = ph.observe(Channel::Bounded(4).into()).expect("observe");
    let _d = ph.observe(ObserveConfig::default()).expect("observe");

    drop(a);
    c.close();

    assert_eq!(ph.free_slots().len(), 0);
    assert!(ph.start_send('x').is_ok());
    assert_eq!(ph.free_slots(), &[0, 2]);
    assert_eq!(ph.storage_len(), 4);
    assert_eq!(ph.num_observers(), 2);
    assert_eq!(ph.free_slots(), &[0, 2]);

    let _e = ph.observe(ObserveConfig::default()).expect("observe");
    assert_eq!(ph.free_slots(), &[0]);
    assert!(!ph.is_vacant(2));
    assert!(ph.is_vacant(0));

    let _f = ph.observe(ObserveConfig::default()).expect("observe");
    assert_eq!(ph.free_slots().len(), 0);
    assert_eq!(ph.storage_len(), 4);

    let _g = ph.observe(ObserveConfig::default()).expect("observe");
    assert_eq!(ph.storage_len(), 5);
    assert_eq!(ph.num_observers(), 5);
}

// Every step finds a gone observer once, and no index gets listed twice.
#[test]
fn gone_observer_is_listed_once() {
    block_on(poll_fn(move |cx| {
        let mut ph = Pharos::<u8>::default();

        let _a = ph.observe(Channel::Bounded(3).into()).expect("observe");
        let b = ph.observe(Channel::Bounded(3).into()).expect("observe");
        let c = ph.observe(Channel::Unbounded.into()).expect("observe");

        drop(b);
        assert!(matches!(ph.poll_ready(cx), Poll::Ready(Ok(()))));
        assert_eq!(ph.free_slots(), &[1]);
        assert!(ph.start_send(1).is_ok());
        assert!(matches!(ph.poll_flush(cx), Poll::Ready(Ok(()))));
        assert_eq!(ph.num_observers(), 2);
        assert_eq!(ph.free_slots(), &[1]);

        drop(c);
        assert!(matches!(ph.poll_flush(cx), Poll::Ready(Ok(()))));
        assert_eq!(ph.free_slots(), &[1, 2]);
        assert!(matches!(ph.poll_ready(cx), Poll::Ready(Ok(()))));
        assert_eq!(ph.num_observers(), 1);
        assert_eq!(ph.free_slots(), &[1, 2]);
        assert_eq!(ph.storage_len(), 3);

        ().into()
    }));
}

// The storage never shrinks, whatever happens to the observers.
#[test]
fn storage_only_grows() {
    let mut ph = Pharos::<u8>::new(0);
    let mut streams = Vec::new();
    let mut last = ph.storage_len();

    for round in 0..5 {
        for _ in 0..3 {
            streams.push(ph.observe(ObserveConfig::default()).expect("observe"));
            assert!(ph.storage_len() >= last);
            last = ph.storage_len();
        }
        streams.remove(round);
        ph.num_observers();
        assert!(ph.storage_len() >= last);
        assert!(ph.storage_capacity() >= ph.storage_len());
        last = ph.storage_len();
    }
    assert_eq!(ph.storage_len(), 11);
    assert_eq!(ph.num_observers(), 10);
}

// A closed stream still hands out what was queued, then ends.
#[test]
fn closed_stream_drains() {
    block_on(poll_fn(move |cx| {
        let mut ph = Pharos::default();
        let mut events = ph.observe(Channel::Bounded(3).into()).expect("observe");

        assert!(ph.start_send(5u8).is_ok());
        events.close();
        assert!(ph.start_send(6u8).is_ok());
        assert!(ph.is_vacant(0));

        assert_eq!(events.poll_next(cx), Poll::Ready(Some(5)));
        assert_eq!(events.poll_next(cx), Poll::Ready(None));

        ().into()
    }));
}

#[test]
fn error_kinds_in_words() {
    assert_eq!(ErrorKind::SendError.to_string(), "Channel closed.");
    assert_eq!(
        ErrorKind::MinChannelSizeOne.to_string(),
        "The minimum valid buffer size for Channel::Bounded is 1, you send in 0."
    );
    assert_eq!(
        Error::from(ErrorKind::MinChannelSizeOne).to_string(),
        "pharos::Error: The minimum valid buffer size for Channel::Bounded is 1, you send in 0."
    );
    assert_eq!(
        Error::compose(ErrorKind::SendError, Some("gone")),
        "pharos::Error: Channel closed. Caused by: gone"
    );
    assert_eq!(Error::compose(ErrorKind::SendError, None), "pharos::Error: Channel closed.");
}

// An error made from a channel's error is a `SendError` and keeps the cause.
#[test]
fn error_from_channel() {
    let (mut tx, rx) = futures_channel::mpsc::channel::<u8>(1);
    drop(rx);
    let cause = tx.try_send(1).unwrap_err().into_send_error();
    let error = Error::from(cause.clone());

    assert_eq!(ErrorKind::SendError, error.kind());
    assert_eq!(error.kind(), ErrorKind::SendError);
    assert_eq!(error.source(), Some(&cause));
    assert_eq!(
        error.to_string(),
        "pharos::Error: Channel closed. Caused by: send failed because receiver is gone"
    );

    let plain = Error::from(ErrorKind::Closed);
    assert_eq!(ErrorKind::Closed, plain.kind());
    assert!(plain.source().is_none());
}

#[test]
fn config_defaults() {
    assert_eq!(Channel::default(), Channel::Unbounded);

    let mut ph = Pharos::<u8>::new(2);
    assert!(ph.storage_capacity() >= 2);
    let events = ph.observe(ObserveConfig::default()).expect("observe");
    drop(events);
    assert_eq!(ph.num_observers(), 0);
}

// A stream that has ended stays ended, whatever is done to it.
#[test]
fn ended_stream_stays_ended() {
    block_on(poll_fn(move |cx| {
        let mut ph = Pharos::default();
        let mut events = ph.observe(Channel::Bounded(2).into()).expect("observe");

        assert!(ph.start_send(9u8).is_ok());
        assert!(matches!(ph.poll_close(cx), Poll::Ready(Ok(()))));

        assert_eq!(events.poll_next(cx), Poll::Ready(Some(9)));
        assert_eq!(events.poll_next(cx), Poll::Ready(None));
        assert_eq!(events.poll_next(cx), Poll::Ready(None));
        events.close();
        assert_eq!(events.poll_next(cx), Poll::Ready(None));

        ().into()
    }));
}

// Closing a stream twice is closing it once.
#[test]
fn stream_closed_twice() {
    block_on(poll_fn(move |cx| {
        let mut ph = Pharos::default();
        let mut events = ph.observe(ObserveConfig::default()).expect("observe");
        let _other = ph.observe(ObserveConfig::default()).expect("observe");

        assert!(ph.start_send(4u8).is_ok());
        events.close();
        events.close();

        assert_eq!(ph.num_observers(), 1);
        assert_eq!(ph.free_slots(), &[0]);
        assert_eq!(events.poll_next(cx), Poll::Ready(Some(4)));
        assert_eq!(events.poll_next(cx), Poll::Ready(None));
        assert_eq!(events.poll_next(cx), Poll::Ready(None));

        ().into()
    }));
}

// In a closed registry nobody is counted, though the streams are still held.
#[test]
fn closed_registry_counts_nobody() {
    block_on(poll_fn(move |cx| {
        let mut ph = Pharos::<u8>::default();
        let _a = ph.observe(Channel::Bounded(1).into()).expect("observe");
        let _b = ph.observe(Channel::Unbounded.into()).expect("observe");

        assert_eq!(ph.num_observers(), 2);
        assert!(matches!(ph.poll_close(cx), Poll::Ready(Ok(()))));
        assert_eq!(ph.num_observers(), 0);
        assert_eq!(ph.free_slots(), &[0, 1]);
        assert_eq!(ph.num_observers(), 0);
        assert_eq!(ph.storage_len(), 2);

        ().into()
    }));
}

// Whether a subscription keeps its slot after a send, for every combination
// of what can come back.
#[test]
fn stays_table() {
    assert!(stays(false, false, false));
    assert!(stays(false, false, true));
    assert!(!stays(false, true, false));
    assert!(stays(false, true, true));
    assert!(!stays(true, false, false));
    assert!(!stays(true, false, true));
    assert!(!stays(true, true, false));
    assert!(!stays(true, true, true));
}

// An observer found gone loses its slot; one found there keeps it.
#[test]
fn tally_acts_on_what_was_found() {
    let mut ph = Pharos::<u8>::default();
    let _a = ph.observe(ObserveConfig::default()).expect("observe");
    let _b = ph.observe(ObserveConfig::default()).expect("observe");
    let _c = ph.observe(ObserveConfig::default()).expect("observe");

    assert!(ph.tally(1, false));
    assert!(!ph.is_vacant(1));
    assert_eq!(ph.free_slots().len(), 0);

    assert!(!ph.tally(2, true));
    assert!(ph.is_vacant(2));
    assert_eq!(ph.free_slots(), &[2]);

    assert!(!ph.tally(0, true));
    assert!(ph.is_vacant(0));
    assert_eq!(ph.free_slots(), &[2, 0]);

    assert_eq!(ph.storage_len(), 3);
    assert_eq!(ph.num_observers(), 1);
    assert!(!ph.is_closed());
}

// A poll's answer: pending stalls, an error empties the slot, ready does
// neither.
#[test]
fn settle_acts_on_the_answer() {
    let mut ph = Pharos::<u8>::default();
    let _a = ph.observe(ObserveConfig::default()).expect("observe");
    let _b = ph.observe(ObserveConfig::default()).expect("observe");

    assert!(ph.settle(0, &Poll::Pending));
    assert!(!ph.is_vacant(0));
    assert_eq!(ph.free_slots().len(), 0);

    assert!(!ph.settle(0, &Poll::Ready(Ok(()))));
    assert!(!ph.is_vacant(0));
    assert_eq!(ph.free_slots().len(), 0);

    assert!(!ph.settle(1, &Poll::Ready(Err(Error::from(ErrorKind::SendError)))));
    assert!(ph.is_vacant(1));
    assert!(!ph.is_vacant(0));
    assert_eq!(ph.free_slots(), &[1]);
    assert_eq!(ph.num_observers(), 1);
}

// The buffer asked of the channel is one less than the size.
#[test]
fn buffer_is_one_less() {
    assert_eq!(Channel::buffer_for(1), 0);
    assert_eq!(Channel::buffer_for(2), 1);
    assert_eq!(Channel::buffer_for(10), 9);
    assert_eq!(Channel::buffer_for(MAX_QUEUE_SIZE), MAX_QUEUE_SIZE - 1);
}

// A closed registry answers `Closed` whatever size is asked for.
#[test]
fn closed_registry_refuses_any_size() {
    block_on(poll_fn(move |cx| {
        let mut ph = Pharos::<u8>::default();

        assert!(!ph.is_closed());
        assert!(matches!(ph.poll_close(cx), Poll::Ready(Ok(()))));
        assert!(ph.is_closed());

        match ph.observe(Channel::Bounded(usize::MAX).into()) {
            Err(e) => assert_eq!(ErrorKind::Closed, e.kind()),
            Ok(_) => panic!("a closed registry took an observer"),
        }
        assert_eq!(ph.storage_len(), 0);

        ().into()
    }));
}

// Every kind of error has its words.
#[test]
fn closed_in_words() {
    assert_eq!(ErrorKind::Closed.to_string(), "The pharos object is already closed.");
    assert_eq!(
        Error::from(ErrorKind::Closed).to_string(),
        "pharos::Error: The pharos object is already closed."
    );
    assert_eq!(
        Error::compose(ErrorKind::Closed, None),
        "pharos::Error: The pharos object is already closed."
    );
}
