//! The channel transport between client handles and the runtime.
//!
//! The bounded multi-producer channel and the one-shot reply channel come
//! from the `tokio` crate; this module declares their types and wraps the
//! handful of non-suspending calls the verified code makes. Delivery order
//! (first in, first out per channel) is a documented property of the outside
//! channel and is relied upon, not proved, here.

use vstd::prelude::*;

verus! {

#[verifier::external_type_specification]
#[verifier::external_body]
#[verifier::reject_recursive_types(T)]
pub struct ExMpscSender<T>(tokio::sync::mpsc::Sender<T>);

#[verifier::external_type_specification]
#[verifier::external_body]
#[verifier::reject_recursive_types(T)]
pub struct ExMpscWeakSender<T>(tokio::sync::mpsc::WeakSender<T>);

#[verifier::external_type_specification]
#[verifier::external_body]
#[verifier::reject_recursive_types(T)]
pub struct ExMpscReceiver<T>(tokio::sync::mpsc::Receiver<T>);

#[verifier::external_type_specification]
#[verifier::external_body]
#[verifier::reject_recursive_types(T)]
pub struct ExOneshotSender<T>(tokio::sync::oneshot::Sender<T>);

#[verifier::external_type_specification]
#[verifier::external_body]
#[verifier::reject_recursive_types(T)]
pub struct ExOneshotReceiver<T>(tokio::sync::oneshot::Receiver<T>);

#[verifier::external_type_specification]
#[verifier::external_body]
pub struct ExOneshotRecvError(tokio::sync::oneshot::error::RecvError);

/// The outcome of a non-suspending send: accepted, rejected because the
/// channel is at capacity, or rejected because the receiving half is gone.
/// The rejected message comes back to the caller unchanged.
pub enum SendAttempt<T> {
    Sent,
    Full(T),
    Closed(T),
}

/// The outcome of a non-suspending receive: a value, nothing yet, or the
/// definitive end (every sender dropped and the buffer empty).
pub enum RecvAttempt<T> {
    Got(T),
    Empty,
    Closed,
}

/// Relies on `tokio::sync::mpsc::channel`: a bounded first-in-first-out
/// channel of exactly `buffer` slots. The call panics on a zero or oversized
/// buffer, so those are excluded here.
#[verifier::external_body]
pub(crate) fn mpsc_channel<T>(buffer: usize) -> (r: (
    tokio::sync::mpsc::Sender<T>,
    tokio::sync::mpsc::Receiver<T>,
))
    requires
        1 <= buffer <= usize::MAX / 8,
{
    tokio::sync::mpsc::channel(buffer)
}

/// Relies on `tokio::sync::mpsc::Sender::try_send`: the message is either
/// accepted for in-order delivery or handed back with the reason.
#[verifier::external_body]
pub(crate) fn mpsc_try_send<T>(tx: &tokio::sync::mpsc::Sender<T>, message: T) -> (r: SendAttempt<
    T,
>)
    ensures
        (r matches SendAttempt::Full(m) ==> m == message),
        (r matches SendAttempt::Closed(m) ==> m == message),
{
    match tx.try_send(message) {
        Ok(()) => SendAttempt::Sent,
        Err(tokio::sync::mpsc::error::TrySendError::Full(m)) => SendAttempt::Full(m),
        Err(tokio::sync::mpsc::error::TrySendError::Closed(m)) => SendAttempt::Closed(m),
    }
}

/// Relies on `tokio::sync::mpsc::Sender::clone`: another sending handle of
/// the same channel.
#[verifier::external_body]
pub(crate) fn mpsc_clone_sender<T>(tx: &tokio::sync::mpsc::Sender<T>) -> (r: tokio::sync::mpsc::Sender<
    T,
>) {
    tx.clone()
}

/// Relies on `tokio::sync::mpsc::Sender::downgrade`: a weak handle that does
/// not keep the channel open.
#[verifier::external_body]
pub(crate) fn mpsc_downgrade<T>(tx: &tokio::sync::mpsc::Sender<T>) -> (r: tokio::sync::mpsc::WeakSender<
    T,
>) {
    tx.downgrade()
}

/// Relies on `tokio::sync::mpsc::WeakSender::upgrade`: a strong sender while
/// at least one other strong sender is still alive, `None` once the channel
/// has closed.
#[verifier::external_body]
pub(crate) fn mpsc_upgrade<T>(tx: &tokio::sync::mpsc::WeakSender<T>) -> (r: Option<
    tokio::sync::mpsc::Sender<T>,
>) {
    tx.upgrade()
}

/// Relies on `tokio::sync::mpsc::Receiver::try_recv`: the oldest buffered
/// message if any, `Empty` while senders are alive but idle, `Closed` once
/// every sender is gone and the buffer is drained.
#[verifier::external_body]
pub(crate) fn mpsc_try_recv<T>(rx: &mut tokio::sync::mpsc::Receiver<T>) -> (r: RecvAttempt<T>) {
    match rx.try_recv() {
        Ok(m) => RecvAttempt::Got(m),
        Err(tokio::sync::mpsc::error::TryRecvError::Empty) => RecvAttempt::Empty,
        Err(tokio::sync::mpsc::error::TryRecvError::Disconnected) => RecvAttempt::Closed,
    }
}

/// Relies on `tokio::sync::oneshot::channel`: a reply channel for exactly
/// one value.
#[verifier::external_body]
pub(crate) fn oneshot_channel<T>() -> (r: (
    tokio::sync::oneshot::Sender<T>,
    tokio::sync::oneshot::Receiver<T>,
)) {
    tokio::sync::oneshot::channel()
}

/// Relies on `tokio::sync::oneshot::Sender::send`: delivers the value unless
/// the receiving half is already gone, in which case the value comes back.
#[verifier::external_body]
pub(crate) fn oneshot_send<T>(tx: tokio::sync::oneshot::Sender<T>, value: T) -> (r: Result<
    (),
    T,
>)
    ensures
        (r matches Err(v) ==> v == value),
{
    tx.send(value)
}

/// Relies on `tokio::sync::oneshot::Receiver::try_recv`: the reply once it
/// arrives, `Empty` while the sender is alive, `Closed` if the sender was
/// dropped without replying.
#[verifier::external_body]
pub(crate) fn oneshot_try_recv<T>(rx: &mut tokio::sync::oneshot::Receiver<T>) -> (r: RecvAttempt<
    T,
>) {
    match rx.try_recv() {
        Ok(v) => RecvAttempt::Got(v),
        Err(tokio::sync::oneshot::error::TryRecvError::Empty) => RecvAttempt::Empty,
        Err(tokio::sync::oneshot::error::TryRecvError::Closed) => RecvAttempt::Closed,
    }
}

} // verus!
