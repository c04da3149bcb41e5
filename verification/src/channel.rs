//! The single-use promise/future pair behind each in-flight send.
//!
//! The promise half travels with the completion token; the delivery
//! callback fulfils it with the delivery status. The future half is what
//! the caller of `send` receives. Both halves come from the `futures`
//! crate's oneshot channel, declared and wrapped here.

use futures::channel::oneshot::{Receiver, Sender};

use vstd::prelude::*;

use crate::client::DeliveryStatus;

verus! {

#[verifier::external_type_specification]
#[verifier::external_body]
#[verifier::reject_recursive_types(T)]
pub struct ExSender<T>(Sender<T>);

#[verifier::external_type_specification]
#[verifier::external_body]
#[verifier::reject_recursive_types(T)]
pub struct ExReceiver<T>(Receiver<T>);

#[verifier::external_type_specification]
#[verifier::external_body]
pub struct ExCanceled(futures::channel::oneshot::Canceled);

/// What a poll of the future half reports.
#[derive(Clone, Copy, Debug, PartialEq, Eq, Structural)]
pub enum DeliveryPoll {
    /// No completion has been dispatched for this send yet.
    Pending,
    /// The delivery status of the send this future belongs to.
    Delivered(DeliveryStatus),
    /// The promise half was dropped without being fulfilled.
    Abandoned,
}

/// Relies on futures' oneshot `channel`: a fresh single-use
/// promise/future pair for one delivery status.
#[verifier::external_body]
pub(crate) fn delivery_channel() -> (Sender<DeliveryStatus>, Receiver<DeliveryStatus>) {
    futures::channel::oneshot::channel()
}

/// Relies on futures' oneshot `Sender::send`: fulfils the promise,
/// consuming it; when the future half is already gone the value comes
/// back unread, without a panic, so fulfilling with no reader is a no-op.
/// Returns whether a reader was still attached.
#[verifier::external_body]
pub(crate) fn fulfil(tx: Sender<DeliveryStatus>, status: DeliveryStatus) -> bool {
    tx.send(status).is_ok()
}

/// Relies on futures' oneshot `Receiver::try_recv`: reports, without
/// blocking, whether the value is still pending, was delivered, or the
/// promise half was dropped unfulfilled.
#[verifier::external_body]
pub(crate) fn try_take(rx: &mut Receiver<DeliveryStatus>) -> DeliveryPoll {
    match rx.try_recv() {
        Ok(Some(status)) => DeliveryPoll::Delivered(status),
        Ok(None) => DeliveryPoll::Pending,
        Err(_) => DeliveryPoll::Abandoned,
    }
}

} // verus!
