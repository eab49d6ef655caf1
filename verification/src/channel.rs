//! The channel primitives the service protocol is built on: an unbounded
//! multi-producer queue and a one-shot reply slot, both from `tokio_channel`.
//!
//! Nothing in this file is proved. Each function states what the channel
//! crate's source shows of the call it makes, and the rest of the library is
//! verified against those statements.

use vstd::prelude::*;

verus! {

/// `tokio_channel::mpsc::UnboundedSender`, the sending half of a request
/// queue. Opaque to the verifier.
#[verifier::external_type_specification]
#[verifier::external_body]
#[verifier::reject_recursive_types(T)]
pub struct ExUnboundedSender<T>(tokio_channel::mpsc::UnboundedSender<T>);

/// `tokio_channel::mpsc::Receiver`, the receiving half of a request queue.
/// Opaque to the verifier.
#[verifier::external_type_specification]
#[verifier::external_body]
#[verifier::reject_recursive_types(T)]
pub struct ExQueueReceiver<T>(tokio_channel::mpsc::Receiver<T>);

/// `tokio_channel::oneshot::Sender`, the writing half of a reply slot.
/// Opaque to the verifier.
#[verifier::external_type_specification]
#[verifier::external_body]
#[verifier::reject_recursive_types(T)]
pub struct ExSlotSender<T>(tokio_channel::oneshot::Sender<T>);

/// `tokio_channel::oneshot::Receiver`, the reading half of a reply slot.
/// Opaque to the verifier.
#[verifier::external_type_specification]
#[verifier::external_body]
#[verifier::reject_recursive_types(T)]
pub struct ExSlotReceiver<T>(tokio_channel::oneshot::Receiver<T>);

/// `tokio_channel::oneshot::Canceled`, what the reading half of a reply slot
/// yields when the writing half went away without writing.
#[verifier::external_type_specification]
#[verifier::external_body]
pub struct ExCanceled(tokio_channel::oneshot::Canceled);

/// Calls `tokio_channel::mpsc::unbounded`, which allocates a fresh queue and
/// returns its two halves. Nothing is claimed of them.
#[verifier::external_body]
pub(crate) fn unbounded<T>() -> (halves: (
    tokio_channel::mpsc::UnboundedSender<T>,
    tokio_channel::mpsc::Receiver<T>,
)) {
    tokio_channel::mpsc::unbounded()
}

/// Calls `clone` on a `tokio_channel::mpsc::UnboundedSender`, which hands out
/// one more sender for the same queue.
///
/// The copy shares the original's channel state, and its own task slot and
/// parked flag start out empty and unset. An unbounded sender never parks,
/// so the original's are in that state too: the copy is the same sender as
/// the original, which is what the clause says. (The channel refuses more
/// than `usize::MAX / 4` senders at a time, a number no program reaches
/// before memory runs out.)
#[verifier::external_body]
pub(crate) fn clone_sender<T>(
    tx: &tokio_channel::mpsc::UnboundedSender<T>,
) -> (copy: tokio_channel::mpsc::UnboundedSender<T>)
    ensures
        copy == *tx,
{
    tx.clone()
}

/// Calls `tokio_channel::mpsc::UnboundedSender::unbounded_send`, and on
/// failure `SendError::into_inner` on the error it returned.
///
/// The send fails only when the receiving half has closed the queue, and the
/// error then holds the very message that was offered; `into_inner` hands it
/// out. So an `Err` carries `msg` itself. Whether the send succeeds depends
/// on what other tasks have done to the queue, and is left open. (The
/// channel gives up on a queue that holds `usize::MAX / 2` messages; memory
/// runs out long before.)
#[verifier::external_body]
pub(crate) fn unbounded_send<T>(
    tx: &tokio_channel::mpsc::UnboundedSender<T>,
    msg: T,
) -> (sent: Result<(), T>)
    ensures
        sent is Err ==> sent->Err_0 == msg,
{
    match tx.unbounded_send(msg) {
        Ok(()) => Ok(()),
        Err(refused) => Err(refused.into_inner()),
    }
}

/// Calls `tokio_channel::oneshot::channel`, which allocates a fresh reply
/// slot and returns its two halves. Nothing is claimed of them.
#[verifier::external_body]
pub(crate) fn oneshot<T>() -> (halves: (
    tokio_channel::oneshot::Sender<T>,
    tokio_channel::oneshot::Receiver<T>,
)) {
    tokio_channel::oneshot::channel()
}

/// Calls `tokio_channel::oneshot::Sender::send`, which consumes the writing
/// half of a reply slot.
///
/// When the reading half is already gone the value comes back unchanged in
/// the `Err`; otherwise it is stored for the reader and `Ok(())` is returned.
/// Which of the two happens depends on what the reader has done, and is left
/// open.
#[verifier::external_body]
pub(crate) fn send_reply<T>(
    tx: tokio_channel::oneshot::Sender<T>,
    value: T,
) -> (sent: Result<(), T>)
    ensures
        sent is Err ==> sent->Err_0 == value,
{
    tx.send(value)
}

} // verus!
