//! The inbox: tokio's unbounded channel, through which background work
//! reaches the foreground loop.

use vstd::prelude::*;
use tokio::sync::mpsc::error::TryRecvError;
use tokio::sync::mpsc::{UnboundedReceiver, UnboundedSender};
use crate::event::{AppEvent, Received};

verus! {

#[verifier::external_type_specification]
#[verifier::external_body]
#[verifier::reject_recursive_types(T)]
pub struct ExUnboundedReceiver<T>(UnboundedReceiver<T>);

#[verifier::external_type_specification]
#[verifier::external_body]
#[verifier::reject_recursive_types(T)]
pub struct ExUnboundedSender<T>(UnboundedSender<T>);

/// Relies on tokio's `UnboundedReceiver::try_recv`, which never blocks: it
/// hands out the next buffered event, reports an empty channel, or reports
/// that every sender is gone and the buffer is drained. Which of these comes
/// depends on other threads, so nothing is promised of it.
#[verifier::external_body]
pub(crate) fn try_receive(rx: &mut UnboundedReceiver<AppEvent>) -> Received {
    match rx.try_recv() {
        Ok(e) => Received::Event(e),
        Err(TryRecvError::Empty) => Received::Empty,
        Err(TryRecvError::Disconnected) => Received::Closed,
    }
}

/// Relies on tokio's `UnboundedReceiver::close`: later sends fail, events
/// already buffered can still be drained.
#[verifier::external_body]
pub(crate) fn close_inbox(rx: &mut UnboundedReceiver<AppEvent>) {
    rx.close()
}

/// Relies on tokio's `UnboundedSender::send`, which never waits; it fails
/// only when the receiving side is closed or gone. Whether the event was
/// taken is returned and depends on the receiver's state.
#[verifier::external_body]
pub(crate) fn post(tx: &UnboundedSender<AppEvent>, e: AppEvent) -> bool {
    tx.send(e).is_ok()
}

/// Posts `e` to the inbox without waiting and never fails: a closed inbox
/// drops the event, and the result says whether it was taken, for the
/// producer to log.
pub fn send_event(tx: &UnboundedSender<AppEvent>, e: AppEvent) -> (taken: bool) {
    post(tx, e)
}

} // verus!
