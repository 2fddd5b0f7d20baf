//! The channel primitives of the protocol, taken from tokio and tokio-stream.
//!
//! The tokio types are opaque to Verus, and the functions that call tokio are
//! trusted: Verus believes their contracts. The library's own halves pair each
//! tokio half with a ghost label that only the channel constructors here set, so
//! that contracts can say which halves belong to one channel.
use vstd::prelude::*;

verus! {

#[verifier::external_type_specification]
#[verifier::external_body]
#[verifier::reject_recursive_types(T)]
pub struct ExOneshotSender<T>(tokio::sync::oneshot::Sender<T>);

#[verifier::external_type_specification]
#[verifier::external_body]
#[verifier::reject_recursive_types(T)]
pub struct ExOneshotReceiver<T>(tokio::sync::oneshot::Receiver<T>);

// The `Future` impl of the oneshot receiver names this error type, so Verus needs
// it declared before it accepts the receiver.
#[verifier::external_type_specification]
#[verifier::external_body]
pub struct ExRecvError(tokio::sync::oneshot::error::RecvError);

#[verifier::external_type_specification]
#[verifier::external_body]
#[verifier::reject_recursive_types(T)]
pub struct ExUnboundedSender<T>(tokio::sync::mpsc::UnboundedSender<T>);

#[verifier::external_type_specification]
#[verifier::external_body]
#[verifier::reject_recursive_types(T)]
pub struct ExUnboundedReceiver<T>(tokio::sync::mpsc::UnboundedReceiver<T>);

#[verifier::external_type_specification]
#[verifier::external_body]
#[verifier::reject_recursive_types(T)]
pub struct ExUnboundedReceiverStream<T>(tokio_stream::wrappers::UnboundedReceiverStream<T>);

/// The sending half of a single-use reply channel. `channel` is a ghost label
/// given when the channel is made: both halves of one channel carry the same label.
#[verifier::reject_recursive_types(T)]
pub struct ReplySender<T> {
    pub inner: tokio::sync::oneshot::Sender<T>,
    pub channel: Ghost<int>,
}

/// The receiving half of a single-use reply channel, labelled as its sender.
#[verifier::reject_recursive_types(T)]
pub struct ReplyReceiver<T> {
    pub inner: tokio::sync::oneshot::Receiver<T>,
    pub channel: Ghost<int>,
}

/// The sending half of an unbounded multi-value channel, labelled as its receiver.
#[verifier::reject_recursive_types(T)]
pub struct StreamSender<T> {
    pub inner: tokio::sync::mpsc::UnboundedSender<T>,
    pub channel: Ghost<int>,
}

/// The receiving half of an unbounded multi-value channel, labelled as its sender.
#[verifier::reject_recursive_types(T)]
pub struct StreamReceiver<T> {
    pub inner: tokio::sync::mpsc::UnboundedReceiver<T>,
    pub channel: Ghost<int>,
}

/// A receiver of an unbounded channel, wrapped as a stream; labelled as the
/// channel it reads.
#[verifier::reject_recursive_types(T)]
pub struct EventStream<T> {
    pub inner: tokio_stream::wrappers::UnboundedReceiverStream<T>,
    pub channel: Ghost<int>,
}

/// Relies on tokio::sync::oneshot::channel: a fresh single-use channel whose two
/// halves are connected to each other; both get the same label.
#[verifier::external_body]
pub(crate) fn oneshot_channel<T>() -> (r: (ReplySender<T>, ReplyReceiver<T>))
    ensures
        r.0.channel == r.1.channel,
{
    let (tx, rx) = tokio::sync::oneshot::channel();
    let channel: Ghost<int> = Ghost(vstd::pervasive::arbitrary());
    (ReplySender { inner: tx, channel }, ReplyReceiver { inner: rx, channel })
}

/// Relies on tokio::sync::mpsc::unbounded_channel: a fresh unbounded channel whose
/// two halves are connected to each other; both get the same label.
#[verifier::external_body]
pub(crate) fn unbounded_channel<T>() -> (r: (StreamSender<T>, StreamReceiver<T>))
    ensures
        r.0.channel == r.1.channel,
{
    let (tx, rx) = tokio::sync::mpsc::unbounded_channel();
    let channel: Ghost<int> = Ghost(vstd::pervasive::arbitrary());
    (StreamSender { inner: tx, channel }, StreamReceiver { inner: rx, channel })
}

/// Relies on tokio::sync::mpsc::UnboundedSender::send: it never waits, and when the
/// receiving half is closed it hands the message back inside its `SendError`.
#[verifier::external_body]
pub(crate) fn send_unbounded<T>(tx: &tokio::sync::mpsc::UnboundedSender<T>, message: T) -> (r:
    Result<(), T>)
    ensures
        r matches Err(m) ==> m == message,
{
    tx.send(message).map_err(|e| e.0)
}

/// Relies on the `Clone` impl of tokio::sync::mpsc::UnboundedSender: another sender
/// for the same channel.
#[verifier::external_body]
pub(crate) fn clone_unbounded_sender<T>(
    tx: &tokio::sync::mpsc::UnboundedSender<T>,
) -> (r: tokio::sync::mpsc::UnboundedSender<T>)
    ensures
        r == *tx,
{
    tx.clone()
}

/// Relies on tokio_stream::wrappers::UnboundedReceiverStream::new: wraps the receiver
/// as a stream that yields what the receiver yields; the label stays.
#[verifier::external_body]
pub(crate) fn receiver_stream<T>(rx: StreamReceiver<T>) -> (r: EventStream<T>)
    ensures
        r.channel == rx.channel,
{
    EventStream {
        inner: tokio_stream::wrappers::UnboundedReceiverStream::new(rx.inner),
        channel: rx.channel,
    }
}

} // verus!
