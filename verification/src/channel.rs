//! The one-shot channel that carries an exit code from the process table to a watcher.
//!
//! The channel is tokio's. Its halves are opaque here, and what holds of them is stated over
//! four names: the value that a sender is ever handed, the value that is ever handed to the
//! other half of a receiver's channel, whether a receiver can still be polled, and whether a
//! receiver that is not ready has left a task to be woken. A channel carries one value at most
//! and its sender is consumed by use, so the first two are fixed for the whole life of a channel.

use std::collections::HashMap;
use std::future::Future;
use std::pin::Pin;
use std::task::{Context, Poll};
use tokio::sync::oneshot;
use tokio::sync::oneshot::error::RecvError;
use tokio::sync::oneshot::{Receiver, Sender};
use vstd::prelude::*;

verus! {

/// `tokio::sync::oneshot::Sender`: the half that is consumed by sending. Opaque.
#[verifier::external_type_specification]
#[verifier::external_body]
#[verifier::reject_recursive_types(T)]
pub struct ExSender<T>(tokio::sync::oneshot::Sender<T>);

/// `tokio::sync::oneshot::Receiver`: the half that is polled. Opaque.
#[verifier::external_type_specification]
#[verifier::external_body]
#[verifier::reject_recursive_types(T)]
pub struct ExReceiver<T>(tokio::sync::oneshot::Receiver<T>);

/// `tokio::sync::oneshot::error::RecvError`: the sender went away without sending. Opaque.
#[verifier::external_type_specification]
#[verifier::external_body]
pub struct ExRecvError(tokio::sync::oneshot::error::RecvError);

/// `std::task::Context`: the task that a poll leaves its waker with. Opaque.
#[verifier::external_type_specification]
#[verifier::external_body]
pub struct ExContext<'a>(std::task::Context<'a>);

/// The value that `sender` is ever handed to send; `None` if it goes away unused.
pub uninterp spec fn handed_over(sender: Sender<i32>) -> Option<i32>;

/// The value that the other half of `receiver`'s channel is ever handed to send; `None` if that
/// half goes away unused.
pub uninterp spec fn arriving(receiver: Receiver<i32>) -> Option<i32>;

/// Whether `receiver` has neither given its outcome nor been closed.
pub uninterp spec fn waiting(receiver: Receiver<i32>) -> bool;

/// Whether `receiver`, not being ready, has left the task of `cx` to be woken: at once, or when its
/// sender is used or goes away.
pub uninterp spec fn wakes(receiver: Receiver<i32>, cx: Context<'_>) -> bool;

/// What one poll of a receiver gives.
pub(crate) enum Arrival {
    /// Nothing has arrived yet. The receiver can be polled again.
    Pending(Receiver<i32>),
    /// The value that was sent.
    Value(i32),
    /// The sender went away without sending.
    Closed(RecvError),
}

/// Calls `tokio::sync::oneshot::channel`. Trusted: the two halves belong to one channel, so what
/// the sender is handed is what arrives at the receiver, and the receiver is fresh.
#[verifier::external_body]
pub(crate) fn exit_channel() -> (halves: (Sender<i32>, Receiver<i32>))
    ensures
        arriving(halves.1) == handed_over(halves.0),
        waiting(halves.1),
{
    oneshot::channel()
}

/// Calls `tokio::sync::oneshot::Sender::send`. Trusted: the sender has been handed `code`, and
/// where the receiver is already gone the call gives `code` back. Whether the receiver is gone
/// is up to the thread that owns it, and is left unsaid.
#[verifier::external_body]
pub(crate) fn send(sender: Sender<i32>, code: i32) -> (sent: Result<(), i32>)
    ensures
        match sent {
            Ok(()) => handed_over(sender) == Some(code),
            Err(back) => handed_over(sender) == Some(code) && back == code,
        },
{
    sender.send(code)
}

/// Calls the `Future::poll` of `tokio::sync::oneshot::Receiver`. Trusted: a receiver that is
/// ready gives the value that its sender was handed, and `RecvError` only if its sender went
/// away without being handed one; a receiver that is not ready can be polled again, belongs to
/// the same channel as before, and has left the task of `cx` to be woken. Polling one that has given its outcome panics, which the
/// precondition rules out. Whether the receiver is ready depends on when the sender is used,
/// and is left unsaid.
#[verifier::external_body]
pub(crate) fn poll_receiver(receiver: Receiver<i32>, cx: &mut Context<'_>) -> (arrival: Arrival)
    requires
        waiting(receiver),
    ensures
        match arrival {
            Arrival::Pending(later) => {
                &&& waiting(later)
                &&& arriving(later) == arriving(receiver)
                &&& wakes(later, *old(cx))
            },
            Arrival::Value(code) => arriving(receiver) == Some(code),
            Arrival::Closed(_) => arriving(receiver) is None,
        },
{
    let mut receiver = receiver;
    match Pin::new(&mut receiver).poll(cx) {
        Poll::Pending => Arrival::Pending(receiver),
        Poll::Ready(Ok(code)) => Arrival::Value(code),
        Poll::Ready(Err(error)) => Arrival::Closed(error),
    }
}

/// Calls the `Display` of `tokio::sync::oneshot::error::RecvError`. Trusted: its text is
/// always the same.
#[verifier::external_body]
pub(crate) fn recv_error_text(error: &RecvError) -> (text: String)
    ensures
        text@ == "channel closed"@,
{
    error.to_string()
}

/// Whether `after` is what is left of the table `before` once all its senders have been dropped
/// unused.
pub open spec fn all_dropped(before: Map<i32, Sender<i32>>, after: Map<i32, Sender<i32>>) -> bool {
    &&& after == Map::<i32, Sender<i32>>::empty()
    &&& forall|pid: i32| #[trigger]
        before.contains_key(pid) ==> handed_over(before[pid]) is None
}

/// Calls `HashMap::clear` on a table of `tokio::sync::oneshot::Sender`s. Trusted: the table is
/// empty afterwards, and each sender that was in it has been dropped without being handed a
/// value.
#[verifier::external_body]
pub(crate) fn drop_senders(senders: &mut HashMap<i32, Sender<i32>>)
    ensures
        all_dropped(old(senders)@, final(senders)@),
{
    senders.clear()
}

} // verus!
