//! The trusted boundary to tokio's unbounded mpsc channels, which carry
//! the event bus and the control plane.
//!
//! A channel is shared between concurrently running tasks, so nothing can
//! be promised about what a send or receive observes; the verified code
//! around these wrappers states what holds of every outcome.

use vstd::prelude::*;

use tokio::sync::mpsc::UnboundedReceiver;
use tokio::sync::mpsc::UnboundedSender;

verus! {

#[verifier::external_type_specification]
#[verifier::external_body]
#[verifier::reject_recursive_types(T)]
pub struct ExUnboundedSender<T>(UnboundedSender<T>);

#[verifier::external_type_specification]
#[verifier::external_body]
#[verifier::reject_recursive_types(T)]
pub struct ExUnboundedReceiver<T>(UnboundedReceiver<T>);

/// Relies on tokio::sync::mpsc::unbounded_channel: a freshly connected
/// sender/receiver pair for an ordered, unbounded queue.
#[verifier::external_body]
pub(crate) fn unbounded_pair<T>() -> (UnboundedSender<T>, UnboundedReceiver<T>) {
    tokio::sync::mpsc::unbounded_channel()
}

/// Relies on tokio::sync::mpsc::UnboundedSender::send: the message is
/// queued, in send order per sender, and `Ok` comes back exactly when the
/// receiver half is still open; an unbounded send never blocks.
#[verifier::external_body]
pub(crate) fn channel_send<T>(tx: &UnboundedSender<T>, message: T) -> (delivered: bool) {
    tx.send(message).is_ok()
}

/// Relies on tokio::sync::mpsc::UnboundedSender::clone: another sending
/// half of the same channel.
#[verifier::external_body]
pub(crate) fn clone_sender<T>(tx: &UnboundedSender<T>) -> (r: UnboundedSender<T>) {
    tx.clone()
}

/// Relies on tokio::sync::mpsc::UnboundedReceiver::try_recv: the oldest
/// queued message if one is waiting, and nothing when the queue is empty
/// or every sender is gone; it never blocks.
#[verifier::external_body]
pub(crate) fn channel_try_recv<T>(rx: &mut UnboundedReceiver<T>) -> (r: Option<T>) {
    rx.try_recv().ok()
}

} // verus!
