//! The channel primitive the registry is built on: the types of
//! `futures_channel::mpsc` and one trusted binding for each of its functions
//! that the library calls. Nothing in this file is proved. A channel is shared
//! with its other half, which may sit on another thread, so a binding states
//! only what the channel's source shows of every call.

use vstd::prelude::*;

verus! {

/// The sending half of a bounded channel.
#[verifier::external_type_specification]
#[verifier::external_body]
#[verifier::reject_recursive_types(T)]
pub struct ExSender<T>(futures_channel::mpsc::Sender<T>);

/// The sending half of an unbounded channel.
#[verifier::external_type_specification]
#[verifier::external_body]
#[verifier::reject_recursive_types(T)]
pub struct ExUnboundedSender<T>(futures_channel::mpsc::UnboundedSender<T>);

/// The receiving half of a bounded channel.
#[verifier::external_type_specification]
#[verifier::external_body]
#[verifier::reject_recursive_types(T)]
pub struct ExReceiver<T>(futures_channel::mpsc::Receiver<T>);

/// The receiving half of an unbounded channel.
#[verifier::external_type_specification]
#[verifier::external_body]
#[verifier::reject_recursive_types(T)]
pub struct ExUnboundedReceiver<T>(futures_channel::mpsc::UnboundedReceiver<T>);

/// The error a sending half reports.
#[verifier::external_type_specification]
#[verifier::external_body]
pub struct ExSendError(futures_channel::mpsc::SendError);

/// The task context a poll is made in.
#[verifier::external_type_specification]
#[verifier::external_body]
pub struct ExContext<'a>(std::task::Context<'a>);

/// The outcome of a poll: ready with a value, or pending. The verifier reads
/// the two variants from the standard library's own definition.
#[verifier::external_type_specification]
#[verifier::reject_recursive_types(T)]
pub struct ExPoll<T>(std::task::Poll<T>);

/// The channel's limit on the buffer of a bounded channel: a buffer must be
/// smaller than this.
pub const MAX_BUFFER: usize = usize::MAX / 4;

/// The text that `SendError`'s `Display` gives for an error. It depends on
/// nothing but the error.
pub uninterp spec fn send_error_text(e: futures_channel::mpsc::SendError) -> Seq<char>;

/// `SendError`'s `Display`, through `to_string`.
#[verifier::external_body]
pub(crate) fn send_error_to_string(e: &futures_channel::mpsc::SendError) -> (text: String)
    ensures
        text@ == send_error_text(*e),
{
    e.to_string()
}

/// `futures_channel::mpsc::channel`: a fresh bounded channel, in which
/// `buffer` events and one more can wait. The call panics unless `buffer` is
/// below the channel's own limit, so that is required.
#[verifier::external_body]
pub(crate) fn channel<T>(buffer: usize) -> (pair: (
    futures_channel::mpsc::Sender<T>,
    futures_channel::mpsc::Receiver<T>,
))
    requires
        buffer < MAX_BUFFER,
{
    futures_channel::mpsc::channel(buffer)
}

/// `futures_channel::mpsc::unbounded`: a fresh unbounded channel.
#[verifier::external_body]
pub(crate) fn unbounded<T>() -> (pair: (
    futures_channel::mpsc::UnboundedSender<T>,
    futures_channel::mpsc::UnboundedReceiver<T>,
)) {
    futures_channel::mpsc::unbounded()
}

/// `Sender::is_closed`: whether the receiving half has closed the channel or
/// is gone. The answer is the channel's at the moment of the call.
#[verifier::external_body]
pub(crate) fn sender_is_closed<T>(tx: &futures_channel::mpsc::Sender<T>) -> (closed: bool) {
    tx.is_closed()
}

/// `UnboundedSender::is_closed`, as for the bounded half.
#[verifier::external_body]
pub(crate) fn unbounded_sender_is_closed<T>(
    tx: &futures_channel::mpsc::UnboundedSender<T>,
) -> (closed: bool) {
    tx.is_closed()
}

/// `Sink::poll_ready` of a bounded sender: ready, pending while the sender is
/// parked on a full channel, or an error once the receiving half is gone.
#[verifier::external_body]
pub(crate) fn sender_poll_ready<T>(
    tx: &mut futures_channel::mpsc::Sender<T>,
    cx: &mut std::task::Context<'_>,
) -> (polled: std::task::Poll<Result<(), futures_channel::mpsc::SendError>>) {
    futures::Sink::poll_ready(std::pin::Pin::new(tx), cx)
}

/// `Sink::poll_ready` of an unbounded sender. It reads the channel's state
/// and answers at once: it is never pending.
#[verifier::external_body]
pub(crate) fn unbounded_sender_poll_ready<T>(
    tx: &mut futures_channel::mpsc::UnboundedSender<T>,
    cx: &mut std::task::Context<'_>,
) -> (polled: std::task::Poll<Result<(), futures_channel::mpsc::SendError>>)
    ensures
        polled is Ready,
{
    futures::Sink::poll_ready(std::pin::Pin::new(tx), cx)
}

/// `Sink::start_send` of a bounded sender: hands `item` to the channel, or
/// says why the channel did not take it.
#[verifier::external_body]
pub(crate) fn sender_start_send<T>(tx: &mut futures_channel::mpsc::Sender<T>, item: T) -> (sent:
    Result<(), futures_channel::mpsc::SendError>) {
    futures::Sink::start_send(std::pin::Pin::new(tx), item)
}

/// `Sink::start_send` of an unbounded sender. The channel counts what it
/// holds in half the range of `usize` and panics beyond that; no memory holds
/// so many events.
#[verifier::external_body]
pub(crate) fn unbounded_sender_start_send<T>(
    tx: &mut futures_channel::mpsc::UnboundedSender<T>,
    item: T,
) -> (sent: Result<(), futures_channel::mpsc::SendError>) {
    futures::Sink::start_send(std::pin::Pin::new(tx), item)
}

/// `Sink::poll_flush` of a bounded sender.
#[verifier::external_body]
pub(crate) fn sender_poll_flush<T>(
    tx: &mut futures_channel::mpsc::Sender<T>,
    cx: &mut std::task::Context<'_>,
) -> (polled: std::task::Poll<Result<(), futures_channel::mpsc::SendError>>) {
    futures::Sink::poll_flush(std::pin::Pin::new(tx), cx)
}

/// `Sink::poll_flush` of an unbounded sender: there is nothing to wait for,
/// the answer is always ready and never an error.
#[verifier::external_body]
pub(crate) fn unbounded_sender_poll_flush<T>(
    tx: &mut futures_channel::mpsc::UnboundedSender<T>,
    cx: &mut std::task::Context<'_>,
) -> (polled: std::task::Poll<Result<(), futures_channel::mpsc::SendError>>)
    ensures
        polled == std::task::Poll::Ready(Ok::<(), futures_channel::mpsc::SendError>(())),
{
    futures::Sink::poll_flush(std::pin::Pin::new(tx), cx)
}

/// `Sink::poll_close` of a bounded sender: it disconnects the sender and
/// answers ready at once, never with an error.
#[verifier::external_body]
pub(crate) fn sender_poll_close<T>(
    tx: &mut futures_channel::mpsc::Sender<T>,
    cx: &mut std::task::Context<'_>,
) -> (polled: std::task::Poll<Result<(), futures_channel::mpsc::SendError>>)
    ensures
        polled == std::task::Poll::Ready(Ok::<(), futures_channel::mpsc::SendError>(())),
{
    futures::Sink::poll_close(std::pin::Pin::new(tx), cx)
}

/// `Sink::poll_close` of an unbounded sender, as for the bounded half.
#[verifier::external_body]
pub(crate) fn unbounded_sender_poll_close<T>(
    tx: &mut futures_channel::mpsc::UnboundedSender<T>,
    cx: &mut std::task::Context<'_>,
) -> (polled: std::task::Poll<Result<(), futures_channel::mpsc::SendError>>)
    ensures
        polled == std::task::Poll::Ready(Ok::<(), futures_channel::mpsc::SendError>(())),
{
    futures::Sink::poll_close(std::pin::Pin::new(tx), cx)
}

/// `Receiver::close`: closes the channel from the receiving side; what is
/// queued can still be read.
#[verifier::external_body]
pub(crate) fn receiver_close<T>(rx: &mut futures_channel::mpsc::Receiver<T>) {
    rx.close()
}

/// `UnboundedReceiver::close`, as for the bounded half.
#[verifier::external_body]
pub(crate) fn unbounded_receiver_close<T>(rx: &mut futures_channel::mpsc::UnboundedReceiver<T>) {
    rx.close()
}

/// `Stream::poll_next` of a bounded receiver: the next queued item, pending
/// while the open channel is empty, or `None` once it is closed and drained.
#[verifier::external_body]
pub(crate) fn receiver_poll_next<T>(
    rx: &mut futures_channel::mpsc::Receiver<T>,
    cx: &mut std::task::Context<'_>,
) -> (polled: std::task::Poll<Option<T>>) {
    futures::Stream::poll_next(std::pin::Pin::new(rx), cx)
}

/// `Stream::poll_next` of an unbounded receiver, as for the bounded half.
#[verifier::external_body]
pub(crate) fn unbounded_receiver_poll_next<T>(
    rx: &mut futures_channel::mpsc::UnboundedReceiver<T>,
    cx: &mut std::task::Context<'_>,
) -> (polled: std::task::Poll<Option<T>>) {
    futures::Stream::poll_next(std::pin::Pin::new(rx), cx)
}

} // verus!
