//! Declarations and wrappers for the standard mpsc channel halves that a
//! client session is bridged over. The queues' contents are runtime
//! state shared with other threads, so nothing is promised of a send or
//! a receive beyond its shape: the verified callers state what holds of
//! their own state whatever the channel did.

use vstd::prelude::*;
use std::sync::mpsc::Receiver;
use std::sync::mpsc::Sender;
use crate::lcommand::Lcommand;

verus! {

#[verifier::external_type_specification]
#[verifier::external_body]
#[verifier::reject_recursive_types(T)]
pub struct ExSender<T>(Sender<T>);

#[verifier::external_type_specification]
#[verifier::external_body]
#[verifier::reject_recursive_types(T)]
pub struct ExReceiver<T>(Receiver<T>);

/// Relies on std::sync::mpsc::Sender::send: the value is queued for the
/// receiving end unless that end has disconnected. Whether it was taken
/// depends on the other thread, so nothing is promised of the result.
#[verifier::external_body]
pub(crate) fn send_cmd(tx: &Sender<Lcommand>, msg: Lcommand) -> (r: bool) {
    tx.send(msg).is_ok()
}

/// Relies on std::sync::mpsc::Receiver::try_recv: hands out one queued
/// value if any is pending, without blocking. What arrives depends on the
/// sending thread, so nothing is promised of the result.
#[verifier::external_body]
pub(crate) fn try_recv_cmd(rx: &Receiver<Lcommand>) -> (r: Option<Lcommand>) {
    rx.try_recv().ok()
}

} // verus!
