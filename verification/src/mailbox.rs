//! The mailbox: an ordered, unbounded, multi-producer/single-consumer queue
//! of opaque message values. The queue is std's mpsc channel; the message
//! payload is rustc_serialize's `Json`, carried through untouched. The same
//! channel plumbing, at `()`, carries each actor's completion signal.

use std::sync::mpsc::Receiver;
use std::sync::mpsc::Sender;

use rustc_serialize::json::Json;

use vstd::prelude::*;

verus! {

#[verifier::external_type_specification]
#[verifier::external_body]
#[verifier::reject_recursive_types(T)]
pub struct ExSender<T>(Sender<T>);

#[verifier::external_type_specification]
#[verifier::external_body]
#[verifier::reject_recursive_types(T)]
pub struct ExReceiver<T>(Receiver<T>);

#[verifier::external_type_specification]
#[verifier::external_body]
pub struct ExJson(Json);

/// Relies on std::sync::mpsc::channel: returns the sending and receiving
/// halves of a fresh, empty, unbounded queue, connected to each other and to
/// no other queue. Its documentation promises that values sent through one
/// sender arrive at the receiver in send order.
#[verifier::external_body]
pub(crate) fn channel_pair<T>() -> (Sender<T>, Receiver<T>) {
    std::sync::mpsc::channel()
}

/// Relies on std::sync::mpsc::Sender::send: enqueues the value without
/// blocking, preserving per-sender send order. It fails only when the
/// receiving half has been dropped, handing the undelivered value back.
#[verifier::external_body]
pub(crate) fn channel_send<T>(tx: &Sender<T>, value: T) -> (r: Result<(), T>)
    ensures
        r matches Err(v) ==> v == value,
{
    match tx.send(value) {
        Ok(()) => Ok(()),
        Err(e) => Err(e.0),
    }
}

/// Relies on std::sync::mpsc::Receiver::recv: blocks until a value arrives,
/// or returns nothing once every sending half has been dropped and the queue
/// has been drained. The value comes from another thread, so nothing is
/// promised of it.
#[verifier::external_body]
pub(crate) fn channel_recv<T>(rx: &Receiver<T>) -> Option<T> {
    match rx.recv() {
        Ok(v) => Some(v),
        Err(_) => None,
    }
}

} // verus!
