use futures::executor::block_on;
use futures::future::poll_fn;
use pharos::pharos::label;
use pharos::{Channel, ErrorKind, Observable, ObserveConfig, Pharos};
use std::task::Poll;

// The printed form shows the generic type.
#[test]
fn debug() {
    assert_eq!("pharos::Pharos<bool>", &label("bool"));
}

// The storage gets the room that was asked for.
#[test]
fn new() {
    let ph = Pharos::<bool>::new(5);

    assert_eq!(ph.storage_capacity(), 5);
}

// verify storage_len and num_observers
#[test]
fn storage_len() {
    let mut ph = Pharos::<bool>::default();

    assert_eq!(ph.storage_len(), 0);
    assert_eq!(ph.num_observers(), 0);
    assert_eq!(ph.free_slots().len(), 0);

    let mut a = ph.observe(ObserveConfig::default()).expect("observe");

    assert_eq!(ph.storage_len(), 1);
    assert_eq!(ph.num_observers(), 1);
    assert_eq!(ph.free_slots().len(), 0);

    let b = ph.observe(ObserveConfig::default()).expect("observe");

    assert_eq!(ph.storage_len(), 2);
    assert_eq!(ph.num_observers(), 2);
    assert_eq!(ph.free_slots().len(), 0);

    a.close();

    assert_eq!(ph.storage_len(), 2);
    assert_eq!(ph.num_observers(), 1);
    assert_eq!(ph.free_slots(), &[0]);

    drop(b);

    assert_eq!(ph.storage_len(), 2);
    assert_eq!(ph.num_observers(), 0);
    assert_eq!(ph.free_slots(), &[0, 1]);
}

// observe: Make sure we are reusing slots
#[test]
fn reuse() {
    let mut ph = Pharos::<bool>::default();
    let _a = ph.observe(ObserveConfig::default());
    let b = ph.observe(ObserveConfig::default());
    let _c = ph.observe(ObserveConfig::default());

    assert_eq!(ph.storage_len(), 3);
    assert_eq!(ph.num_observers(), 3);

    drop(b);

    // It's important we call num_observers here, to clear the dropped one
    assert_eq!(ph.storage_len(), 3);
    assert_eq!(ph.num_observers(), 2);

    assert!(ph.is_vacant(1));
    assert_eq!(ph.free_slots(), &[1]);

    let _d = ph.observe(ObserveConfig::default());

    assert_eq!(ph.storage_len(), 3);
    assert_eq!(ph.num_observers(), 3);
    assert_eq!(ph.free_slots().len(), 0);

    let _e = ph.observe(ObserveConfig::default());

    // Now we should have pushed again
    assert_eq!(ph.storage_len(), 4);
    assert_eq!(ph.num_observers(), 4);
    assert_eq!(ph.free_slots().len(), 0);
}

// observe: verify we can no longer observe after calling close
#[test]
fn observe_after_close() {
    let mut ph = Pharos::<bool>::default();

    block_on(poll_fn(|cx| ph.poll_close(cx))).expect("close");

    let res = ph.observe(ObserveConfig::default());

    assert!(res.is_err());
    assert_eq!(ErrorKind::Closed, res.unwrap_err().kind());
}

// observe: refuse Channel::Bounded(0)
#[test]
fn observe_refuse_zero() {
    let mut ph = Pharos::<bool>::default();

    let res = ph.observe(Channel::Bounded(0).into());

    assert!(res.is_err());
    assert_eq!(ErrorKind::MinChannelSizeOne, res.unwrap_err().kind());
}

// verify that one observer blocks pharos.
#[test]
fn poll_ready_pending() {
    block_on(poll_fn(move |cx| {
        let mut ph = Pharos::default();

        let _open = ph.observe(Channel::Bounded(10).into()).expect("observe");
        let mut full = ph.observe(Channel::Bounded(1).into()).expect("observe");
        let _unbound = ph.observe(Channel::Unbounded.into()).expect("observe");

        assert!(matches!(ph.poll_ready(cx), Poll::Ready(Ok(_))));
        assert!(ph.start_send(true).is_ok());

        assert!(matches!(ph.poll_ready(cx), Poll::Pending));

        assert_eq!(full.poll_next(cx), Poll::Ready(Some(true)));

        assert!(matches!(ph.poll_ready(cx), Poll::Ready(Ok(_))));

        ().into()
    }));
}

// pharos drops closed observers.
#[test]
fn poll_ready_drop() {
    block_on(poll_fn(move |cx| {
        let mut ph = Pharos::<bool>::default();

        let _open = ph.observe(Channel::Bounded(10).into()).expect("observe");
        let full = ph.observe(Channel::Bounded(1).into()).expect("observe");
        let _unbound = ph.observe(Channel::Unbounded.into()).expect("observe");

        drop(full);

        assert!(matches!(ph.poll_ready(cx), Poll::Ready(Ok(_))));

        assert!(ph.is_vacant(1));
        ().into()
    }));
}

// poll_ready should return closed if the pharos is closed.
#[test]
fn poll_ready_closed() {
    block_on(poll_fn(move |cx| {
        let mut ph = Pharos::<bool>::default();

        assert!(matches!(ph.poll_close(cx), Poll::Ready(Ok(()))));

        let res = ph.poll_ready(cx);

        assert!(matches!(res, Poll::Ready(Err(_))));

        match res {
            Poll::Ready(Err(e)) => assert_eq!(ErrorKind::Closed, e.kind()),
            _ => assert!(false, "wrong result "),
        }

        ().into()
    }));
}

// start_send verify message arrives.
#[test]
fn start_send_arrive() {
    block_on(poll_fn(move |cx| {
        let mut ph = Pharos::default();

        let _open = ph.observe(Channel::Bounded(10).into()).expect("observe");
        let mut full = ph.observe(Channel::Bounded(1).into()).expect("observe");
        let _unbound = ph.observe(Channel::Unbounded.into()).expect("observe");

        assert!(matches!(ph.poll_ready(cx), Poll::Ready(Ok(_))));
        assert!(ph.start_send(3).is_ok());

        assert_eq!(full.poll_next(cx), Poll::Ready(Some(3)));

        ().into()
    }));
}

// pharos drops closed observers.
#[test]
fn poll_flush_drop() {
    block_on(poll_fn(move |cx| {
        let mut ph = Pharos::<bool>::default();

        let _open = ph.observe(Channel::Bounded(10).into()).expect("observe");
        let full = ph.observe(Channel::Bounded(1).into()).expect("observe");
        let _unbound = ph.observe(Channel::Unbounded.into()).expect("observe");

        drop(full);

        assert!(matches!(ph.poll_flush(cx), Poll::Ready(Ok(_))));

        assert!(ph.is_vacant(1));
        ().into()
    }));
}
