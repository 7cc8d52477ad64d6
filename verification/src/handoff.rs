//! The one-shot channel between a download and the slot that waits for it.
//!
//! The channel is a `crossbeam_channel` of capacity one. The download holds
//! the sending end and writes once; the slot holds the receiving end and only
//! ever peeks without blocking.

use vstd::prelude::*;
use crossbeam_channel::Receiver;
use crossbeam_channel::Sender;
use crossbeam_channel::TryRecvError;
use crate::fetch::Fetched;

verus! {

/// `crossbeam_channel::Sender`. Opaque here.
#[verifier::external_type_specification]
#[verifier::external_body]
#[verifier::reject_recursive_types(T)]
pub struct ExSender<T>(Sender<T>);

/// `crossbeam_channel::Receiver`. Opaque here.
#[verifier::external_type_specification]
#[verifier::external_body]
#[verifier::reject_recursive_types(T)]
pub struct ExReceiver<T>(Receiver<T>);

/// Room for exactly one message.
pub const ONE_SHOT: usize = 1;

/// What one look at the receiving end found.
#[derive(Debug)]
pub enum Handoff {
    /// Nothing yet, and the download is still alive.
    Waiting,
    /// The download's message.
    Arrived(Fetched),
    /// Nothing, and the sending end is gone.
    Closed,
}

/// Calls `crossbeam_channel::bounded`. The capacity is kept small, since the
/// outside function panics on one too large to allocate. Nothing is claimed
/// of the two ends.
#[verifier::external_body]
pub(crate) fn channel(capacity: usize) -> (ends: (Sender<Fetched>, Receiver<Fetched>))
    requires
        capacity <= u16::MAX,
{
    crossbeam_channel::bounded(capacity)
}

/// Calls `crossbeam_channel::Sender::try_send`, which never blocks. Whether
/// the message was taken depends on the other end, so the outcome is dropped
/// and nothing is claimed.
#[verifier::external_body]
pub(crate) fn offer(sender: &Sender<Fetched>, message: Fetched) {
    let _ = sender.try_send(message);
}

/// Calls `crossbeam_channel::Receiver::try_recv`, which never blocks, and
/// renames its three outcomes. Which of them comes back depends on how far
/// the download has got, so nothing is claimed.
#[verifier::external_body]
pub(crate) fn try_receive(receiver: &Receiver<Fetched>) -> (found: Handoff) {
    match receiver.try_recv() {
        Ok(message) => Handoff::Arrived(message),
        Err(TryRecvError::Empty) => Handoff::Waiting,
        Err(TryRecvError::Disconnected) => Handoff::Closed,
    }
}

} // verus!
