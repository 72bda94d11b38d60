//! The client's handle on its outbound queue.
//!
//! A client has one connection and needs no broker: its reader turns what it
//! reads into values with a [`FrameReader`](crate::network::frame::FrameReader)
//! and its writer follows [`writer_turn`](crate::network::frame::writer_turn).
//! What is left is the queue between the application and the writer.

use crate::network::channel::{delivered, refused, Outbox, Sender};
use crate::network::trait_knet::KnetTransform;
use vstd::prelude::*;

verus! {

/// The writer of the connection is gone: nothing can be sent any more.
#[derive(Debug, Clone, Copy, PartialEq, Eq, Structural)]
pub struct ChannelClosed;

/// The client's end of its outbound queue, with the record of what was
/// queued through it.
#[verifier::reject_recursive_types(T)]
pub struct InnerClient<T> {
    outbox: Outbox<T>,
}

impl<T> InnerClient<T> {
    /// The sending end of the outbound queue.
    pub closed spec fn queue(&self) -> Sender<T> {
        self.outbox.queue()
    }

    /// The values that were queued for the writer, oldest first.
    pub closed spec fn accepted(&self) -> Seq<T> {
        self.outbox.accepted()
    }
}

impl<T: KnetTransform> InnerClient<T> {
    /// A client that queues on `sender`, the sending end of the queue that
    /// its writer drains. Nothing is queued yet.
    pub fn new(sender: Sender<T>) -> (client: Self)
        ensures
            client.queue() == sender,
            client.accepted() == Seq::<T>::empty(),
    {
        InnerClient { outbox: Outbox::new(sender) }
    }

    /// Queues `data` for the writer, once. Returns when the value is on the
    /// queue, not when it is on the wire; fails when the writer is gone, and
    /// then nothing was queued.
    pub fn write(&mut self, data: T) -> (result: Result<(), ChannelClosed>)
        ensures
            final(self).queue() == old(self).queue(),
            result is Ok ==> delivered(old(self).queue(), data),
            result is Ok ==> final(self).accepted() == old(self).accepted().push(data),
            result is Err ==> refused(old(self).queue(), data),
            result is Err ==> *final(self) == *old(self),
    {
        if self.outbox.push(data) {
            Ok(())
        } else {
            Err(ChannelClosed)
        }
    }
}

} // verus!
