//! The unbounded queues that carry messages between tasks.
//!
//! The queues are those of `futures::channel::mpsc`. Verus sees their two
//! ends as opaque values; nothing is claimed of what a queue holds, because
//! the receiving task drains it while senders fill it. What the contracts of
//! this crate do record is which two ends were made together, see
//! [`paired`], which sends took place and how each one ended, see
//! [`delivered`] and [`refused`], and, for every [`Outbox`], the messages
//! that its queue accepted from it, in order.

use futures::channel::mpsc::{TrySendError, UnboundedReceiver, UnboundedSender};
use vstd::prelude::*;

verus! {

/// `futures::channel::mpsc::UnboundedSender`, the sending end of a queue.
#[verifier::external_type_specification]
#[verifier::external_body]
#[verifier::reject_recursive_types(T)]
pub struct ExUnboundedSender<T>(UnboundedSender<T>);

/// `futures::channel::mpsc::UnboundedReceiver`, the receiving end of a queue.
#[verifier::external_type_specification]
#[verifier::external_body]
#[verifier::reject_recursive_types(T)]
pub struct ExUnboundedReceiver<T>(UnboundedReceiver<T>);

/// `futures::channel::mpsc::TrySendError`, which hands a message back when
/// the queue does not take it.
#[verifier::external_type_specification]
#[verifier::external_body]
#[verifier::reject_recursive_types(T)]
pub struct ExTrySendError<T>(TrySendError<T>);

/// Sending end of an unbounded queue.
pub type Sender<T> = UnboundedSender<T>;

/// Receiving end of an unbounded queue.
pub type Receiver<T> = UnboundedReceiver<T>;

/// Calls `futures::channel::mpsc::unbounded`, which makes a fresh queue and
/// returns its two ends. Nothing is claimed of them.
#[verifier::external_body]
pub(crate) fn open_channel<M>() -> (ends: (UnboundedSender<M>, UnboundedReceiver<M>)) {
    futures::channel::mpsc::unbounded()
}

/// Calls `UnboundedSender::unbounded_send`, which puts `message` on the
/// queue without waiting, or hands it back inside the error when the
/// receiving end is closed or gone. Nothing is claimed of the outcome: it
/// depends on what the receiving task has done. (The call panics only once
/// the queue holds half of `usize::MAX` messages, which no memory can hold.)
#[verifier::external_body]
pub(crate) fn enqueue<M>(sender: &UnboundedSender<M>, message: M) -> (outcome: Result<
    (),
    TrySendError<M>,
>) {
    sender.unbounded_send(message)
}

/// `sender` and `receiver` are the two ends of one queue: they were made
/// together, by one opening of a queue.
///
/// No function can establish this without opening the queue.
pub closed spec fn paired<M>(sender: Sender<M>, receiver: Receiver<M>) -> bool {
    call_ensures(open_channel::<M>, (), (sender, receiver))
}

/// A send of `message` on `sender` took place and the queue accepted it.
///
/// No function can establish this without making the send.
pub closed spec fn delivered<M>(sender: Sender<M>, message: M) -> bool {
    exists|outcome: Result<(), TrySendError<M>>|
        outcome is Ok && call_ensures(enqueue::<M>, (&sender, message), outcome)
}

/// A send of `message` on `sender` took place and the queue turned it down,
/// which it does when its receiving end is closed or dropped.
pub closed spec fn refused<M>(sender: Sender<M>, message: M) -> bool {
    exists|outcome: Result<(), TrySendError<M>>|
        outcome is Err && call_ensures(enqueue::<M>, (&sender, message), outcome)
}

/// Runs `post` on the two arguments and reports what it returned, so that
/// the caller knows of the result that it came out of this very call.
fn hand_over<M, F>(post: F, sender: &Sender<M>, message: M) -> (outcome: Result<
    (),
    TrySendError<M>,
>) where
    F: FnOnce(&Sender<M>, M) -> Result<(), TrySendError<M>>,

    requires
        call_requires(post, (sender, message)),
    ensures
        call_ensures(post, (sender, message), outcome),
{
    post(sender, message)
}

/// Runs `open` and reports the pair it returned, so that the caller knows of
/// the two ends that they came out of this very call.
fn made_by<M, F>(open: F) -> (ends: (Sender<M>, Receiver<M>)) where
    F: FnOnce() -> (Sender<M>, Receiver<M>),

    requires
        call_requires(open, ()),
    ensures
        call_ensures(open, (), ends),
{
    open()
}

/// A fresh queue: its sending end and its receiving end.
pub fn channel<M>() -> (ends: (Sender<M>, Receiver<M>))
    ensures
        paired(ends.0, ends.1),
{
    made_by(open_channel::<M>)
}

/// Puts `message` on the queue behind `sender`. Returns whether the queue
/// took it; it does not when the task that drains it is gone.
pub fn send<M>(sender: &Sender<M>, message: M) -> (sent: bool)
    ensures
        sent ==> delivered(*sender, message),
        !sent ==> refused(*sender, message),
{
    was_accepted(hand_over(enqueue::<M>, sender, message))
}

/// Whether a send ended well. The message that a failed send hands back is
/// dropped.
pub fn was_accepted<M>(outcome: Result<(), TrySendError<M>>) -> (sent: bool)
    ensures
        sent == (outcome is Ok),
{
    match outcome {
        Ok(()) => true,
        Err(_) => false,
    }
}

/// The sending end of a queue, together with the record of what the queue
/// accepted through it.
///
/// The sending end is out of reach of every other module: through this
/// outbox a message gets onto the queue by [`Outbox::push`] and in no other
/// way. Who made the outbox from a sender and kept a clone of it has another
/// way onto the same queue, of which the record knows nothing.
#[verifier::reject_recursive_types(M)]
pub struct Outbox<M> {
    sender: Sender<M>,
    sent: Ghost<Seq<M>>,
}

impl<M> Outbox<M> {
    /// The sending end.
    pub closed spec fn queue(&self) -> Sender<M> {
        self.sender
    }

    /// The messages that the queue accepted through this outbox, oldest
    /// first.
    pub closed spec fn accepted(&self) -> Seq<M> {
        self.sent@
    }

    /// An outbox on `sender` through which nothing was sent yet.
    pub fn new(sender: Sender<M>) -> (outbox: Self)
        ensures
            outbox.queue() == sender,
            outbox.accepted() == Seq::<M>::empty(),
    {
        Outbox { sender, sent: Ghost(Seq::empty()) }
    }

    /// Sends `message` once. Returns whether the queue took it; where it did
    /// not, nothing has changed.
    pub fn push(&mut self, message: M) -> (sent: bool)
        ensures
            final(self).queue() == old(self).queue(),
            sent ==> delivered(old(self).queue(), message) && final(self).accepted() == old(
                self,
            ).accepted().push(message),
            !sent ==> refused(old(self).queue(), message) && *final(self) == *old(self),
    {
        let ghost recorded = message;
        let sent = send(&self.sender, message);
        if sent {
            self.sent = Ghost(self.sent@.push(recorded));
        }
        sent
    }
}

} // verus!
