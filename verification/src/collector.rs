//! The bridge from the engine's candidate notifications, which arrive when
//! they arrive, to the drain of a round, which takes them one at a time.
//!
//! The notifications pass through a queue of a single slot. The handler
//! that the engine calls owns the sending end, wrapped in a
//! [`CandidateSink`]; the round's driver owns the receiving end and waits on
//! it.

use crate::candidate::Candidate;
use crate::engine::Failure;
use futures_channel::mpsc::{Receiver, Sender};
use vstd::prelude::*;

verus! {

/// `futures_channel::mpsc::Sender`, the sending end of a bounded queue.
/// Nothing is said of what is inside.
#[verifier::external_type_specification]
#[verifier::external_body]
#[verifier::reject_recursive_types(T)]
pub struct ExSender<T>(Sender<T>);

/// `futures_channel::mpsc::Receiver`, the receiving end of a bounded queue.
/// Nothing is said of what is inside.
#[verifier::external_type_specification]
#[verifier::external_body]
#[verifier::reject_recursive_types(T)]
pub struct ExReceiver<T>(Receiver<T>);

/// One notification of the candidate handler: a discovered candidate, or
/// `None` for the engine's signal that discovery is complete.
pub type Notification = Option<Candidate>;

/// How many notifications the queue buffers beyond the one slot that the
/// sending end always has: none, so that the queue has a single slot.
pub const BUFFER: usize = 0;

/// Why the queue did not take a notification.
#[derive(Debug, Clone, Copy, PartialEq, Eq, Structural)]
pub enum Refusal {
    /// The queue is at capacity.
    Full,
    /// The receiving end is gone.
    Disconnected,
}

/// The buffer that `futures_channel::mpsc::channel` was given when it made
/// the queue that this sending end belongs to. The queue keeps it for as
/// long as it lives.
pub uninterp spec fn buffer_of(sender: Sender<Notification>) -> usize;

/// Calls `futures_channel::mpsc::channel`, which makes a bounded queue and
/// hands out its two ends. That function panics on a buffer of a quarter
/// of the address space or more, so such a buffer is not admitted. The queue
/// is made with the buffer that was asked for; nothing else is claimed of the
/// two ends.
#[verifier::external_body]
fn channel(buffer: usize) -> (ends: (Sender<Notification>, Receiver<Notification>))
    requires
        buffer < usize::MAX / 4,
    ensures
        buffer_of(ends.0) == buffer,
{
    futures_channel::mpsc::channel(buffer)
}

/// Calls `futures_channel::mpsc::Sender::try_send`, which queues the
/// notification if the sending end has room and the receiving end is still
/// there, and otherwise says which of the two failed. Whether there is room
/// depends on how far the receiving end has read, so nothing is claimed of
/// the result. The sending end stays on its queue, whose buffer does not
/// change.
#[verifier::external_body]
fn try_send(sender: &mut Sender<Notification>, notification: Notification) -> (sent: Result<
    (),
    Refusal,
>)
    ensures
        buffer_of(*final(sender)) == buffer_of(*old(sender)),
{
    match sender.try_send(notification) {
        Ok(()) => Ok(()),
        Err(error) => if error.is_full() {
            Err(Refusal::Full)
        } else {
            Err(Refusal::Disconnected)
        },
    }
}

/// The sending end of the candidate queue, as the candidate handler holds
/// it. It remembers whether the signal that discovery is complete has gone
/// through: that signal comes once, and nothing comes after it.
pub struct CandidateSink {
    sender: Sender<Notification>,
    finished: bool,
}

/// What the sink remembers and answers once the queue has taken or refused
/// a notification: whether discovery is now known to be complete, and what
/// the handler is told. A refusal is a violation of the protocol, since the
/// one reader of the queue keeps it from filling.
pub open spec fn settled(sentinel: bool, sent: Result<(), Refusal>) -> (bool, bool) {
    (sentinel && sent is Ok, sent is Ok)
}

/// Decides what the sink remembers and answers once the queue has taken or
/// refused a notification; `sentinel` says that the notification was the
/// signal that discovery is complete.
pub fn settle(sentinel: bool, sent: Result<(), Refusal>) -> (answer: (bool, Result<(), Failure>))
    ensures
        answer.0 == settled(sentinel, sent).0,
        answer.1 is Ok == settled(sentinel, sent).1,
        answer.1 matches Err(failure) ==> failure == Failure::ProtocolInvariantViolation,
{
    match sent {
        Ok(_) => (sentinel, Ok(())),
        Err(_) => (false, Err(Failure::ProtocolInvariantViolation)),
    }
}

impl CandidateSink {
    /// The signal that discovery is complete has gone through this sink.
    pub closed spec fn finished(&self) -> bool {
        self.finished
    }

    /// The buffer of the queue that this sink sends into: how many
    /// notifications it holds beyond the one slot that the sink always has.
    pub closed spec fn buffer(&self) -> usize {
        buffer_of(self.sender)
    }

    /// Says whether the signal that discovery is complete has gone through.
    pub fn is_finished(&self) -> (finished: bool)
        ensures
            finished == self.finished(),
    {
        self.finished
    }

    /// Passes one notification of the engine on to the queue. After the
    /// signal that discovery is complete nothing more is passed on: a
    /// second signal, or a candidate after it, is refused as a violation of
    /// the protocol and the queue is not touched. Before it, the queue
    /// decides: a notification that it takes is passed on, and the sink is
    /// finished if it was the signal; one that it refuses is a violation of
    /// the protocol and leaves the sink unfinished.
    pub fn forward(&mut self, notification: Notification) -> (result: Result<(), Failure>)
        ensures
            final(self).buffer() == old(self).buffer(),
            result matches Err(failure) ==> failure == Failure::ProtocolInvariantViolation,
            old(self).finished() ==> result is Err && final(self).finished(),
            !old(self).finished() && result is Ok ==> final(self).finished()
                == notification is None,
            !old(self).finished() && result is Err ==> !final(self).finished(),
    {
        if self.finished {
            return Err(Failure::ProtocolInvariantViolation);
        }
        let sentinel = notification.is_none();
        let sent = try_send(&mut self.sender, notification);
        let (finished, result) = settle(sentinel, sent);
        self.finished = finished;
        result
    }
}

/// Opens the candidate queue for one round: the sink for the candidate
/// handler, and the receiving end for the drain. The queue is new and has a
/// single slot: it is made with a buffer of [`BUFFER`], which leaves it the
/// one slot of its one sending end, and the signal that discovery is
/// complete has not gone through its sink.
pub fn listen_ice_candidates() -> (ends: (CandidateSink, Receiver<Notification>))
    ensures
        ends.0.buffer() == BUFFER,
        !ends.0.finished(),
{
    let (sender, receiver) = channel(BUFFER);
    (CandidateSink { sender, finished: false }, receiver)
}

} // verus!
