//! The server's connection table and the decisions of its broker.
//!
//! One task, the broker, owns every change to the table and every event
//! that the application sees. The accept loop and the per-connection readers
//! feed it [`InnerEvent`]s; writers that end report their slot. The loops
//! themselves wait on sockets and queues and live with the caller; what they
//! decide at each turn is decided here.
//!
//! The table keeps, with every connection, the record of what was queued for
//! it. The contracts of [`InnerServer::write`] and [`InnerServer::write_all`]
//! say through it who got a value, how often, and who did not.

use crate::network::channel::{
    channel, delivered, paired, refused, Outbox, Receiver, Sender,
};
use crate::network::frame::{
    encode, supplied, FrameReader, ReadOutcome, WriterAction, WriterInput,
};
use crate::network::slots::{first_gap, occupy, vacate, Id, MAX_SLOTS};
use crate::network::trait_knet::{encodes, KnetTransform};
use async_std::net::TcpStream;
use std::sync::Arc;
use vstd::prelude::*;

verus! {

/// `async_std::net::TcpStream`, the socket of a connection. The broker only
/// passes it on.
#[verifier::external_type_specification]
#[verifier::external_body]
pub struct ExTcpStream(TcpStream);

/// What readers and the accept loop tell the broker, and what the table
/// puts on the outbound queue of a connection.
#[derive(Debug)]
pub enum InnerEvent<T> {
    /// A peer connected and was given slot `id`. `shutdown` is the signal
    /// that its writer listens to.
    NewPeer { id: Id, stream: Arc<TcpStream>, shutdown: Receiver<()> },
    /// A value read from, or to be written to, the connection in a slot.
    Data((Id, T)),
}

/// What the application sees of the server.
///
/// The broker forwards values only: it emits `Data` and neither of the two
/// other variants, which are there for applications that track connections
/// themselves.
#[derive(Debug)]
pub enum Event<T> {
    NewConnection(Id),
    Data((Id, T)),
    ConnectionDrop(Id),
}

/// Why a write to a peer did not happen.
#[derive(Debug, Clone, Copy, PartialEq, Eq, Structural)]
pub enum WriteError {
    /// The outbound queue of the connection in this slot is closed: its
    /// writer is gone.
    ChannelClosed(Id),
    /// No connection lives in this slot.
    UnknownConnection(Id),
}

/// One live peer: its slot and its outbound queue, with the record of what
/// was queued for it.
#[verifier::reject_recursive_types(T)]
pub struct Connection<T> {
    id: Id,
    outbox: Outbox<InnerEvent<T>>,
}

impl<T> Connection<T> {
    /// The slot of the connection.
    pub closed spec fn slot(&self) -> Id {
        self.id
    }

    /// The sending end of its outbound queue.
    pub closed spec fn queue(&self) -> Sender<InnerEvent<T>> {
        self.outbox.queue()
    }

    /// What was queued for the connection since it was made, oldest first.
    pub closed spec fn accepted(&self) -> Seq<InnerEvent<T>> {
        self.outbox.accepted()
    }

    /// `after` is this connection with `message` queued for it once more,
    /// and nothing else.
    pub open spec fn queued(&self, message: InnerEvent<T>, after: Self) -> bool {
        &&& after.slot() == self.slot()
        &&& after.queue() == self.queue()
        &&& after.accepted() == self.accepted().push(message)
    }

    /// The connection in slot `id` that queues on `sender`. Nothing is
    /// queued for it yet.
    pub fn new(id: Id, sender: Sender<InnerEvent<T>>) -> (connection: Self)
        ensures
            connection.slot() == id,
            connection.queue() == sender,
            connection.accepted() == Seq::<InnerEvent<T>>::empty(),
    {
        Connection { id, outbox: Outbox::new(sender) }
    }

    /// Queues `message` for the connection, once. Returns whether its queue
    /// took it; where it did not, nothing has changed.
    fn push(&mut self, message: InnerEvent<T>) -> (sent: bool)
        ensures
            sent ==> delivered(old(self).queue(), message) && old(self).queued(
                message,
                *final(self),
            ),
            !sent ==> refused(old(self).queue(), message) && *final(self) == *old(self),
    {
        self.outbox.push(message)
    }
}

/// The connection table: slot `i` holds the connection with identifier `i`,
/// or nothing when the slot is free.
#[verifier::reject_recursive_types(T)]
pub struct InnerServer<T> {
    connections: Vec<Option<Connection<T>>>,
}

impl<T> View for InnerServer<T> {
    type V = Seq<Option<Connection<T>>>;

    closed spec fn view(&self) -> Seq<Option<Connection<T>>> {
        self.connections@
    }
}

/// What the broker's select yielded.
pub enum BrokerInput<T> {
    /// The internal queue yielded an event, or `None` because the accept
    /// loop and every reader are gone.
    Event(Option<InnerEvent<T>>),
    /// The writer of the connection in this slot ended.
    Disconnect(Id),
}

/// What the broker does after a step.
#[verifier::reject_recursive_types(T)]
pub enum BrokerAction<T> {
    /// Start a writer for the connection that was just put in slot `id`: it
    /// drains `messages`, writes to `stream` and listens to `shutdown`.
    SpawnWriter {
        id: Id,
        messages: Receiver<InnerEvent<T>>,
        stream: Arc<TcpStream>,
        shutdown: Receiver<()>,
    },
    /// Slot `id` is taken: the peer behind `stream` gets no connection.
    Refuse { id: Id, stream: Arc<TcpStream> },
    /// Put this event on the application's queue.
    Emit(Event<T>),
    /// Nothing to do outside the table.
    Continue,
    /// Leave the loop; the table is empty.
    Stop,
}

impl<T> InnerServer<T> {
    /// Slots are never more than there are identifiers, and a connection
    /// sits in the slot that its identifier names, so that no two live
    /// connections share one.
    #[verifier::type_invariant]
    pub open spec fn wf(&self) -> bool {
        &&& self@.len() <= MAX_SLOTS
        &&& forall|i: int|
            0 <= i < self@.len() ==> (#[trigger] self@[i] matches Some(connection)
                ==> connection.slot() == i)
    }

    /// One flag per slot: whether a connection lives there.
    pub open spec fn occupancy(&self) -> Seq<bool> {
        self@.map_values(|entry: Option<Connection<T>>| entry is Some)
    }

    /// Whether a connection lives in slot `id`.
    pub open spec fn is_live(&self, id: Id) -> bool {
        id < self@.len() && self@[id as int] is Some
    }

    /// The sending end of the outbound queue of the connection in slot `id`.
    pub open spec fn queue(&self, id: Id) -> Sender<InnerEvent<T>>
        recommends
            self.is_live(id),
    {
        self@[id as int]->0.queue()
    }

    /// What was queued for the connection in slot `id` since it was
    /// registered, oldest first.
    pub open spec fn accepted(&self, id: Id) -> Seq<InnerEvent<T>>
        recommends
            self.is_live(id),
    {
        self@[id as int]->0.accepted()
    }

    /// The table `post` is the table `pre` after `data` was queued, once
    /// and under its own identifier, for every connection in a slot below
    /// `upto`: those connections have one message more, and every other
    /// slot, free or at `upto` and above, is as it was.
    pub open spec fn fanned_out(
        pre: Seq<Option<Connection<T>>>,
        data: T,
        upto: int,
        post: Seq<Option<Connection<T>>>,
    ) -> bool {
        &&& post.len() == pre.len()
        &&& forall|j: int|
            0 <= j < pre.len() ==> if j < upto && pre[j] is Some {
                &&& #[trigger] post[j] matches Some(after)
                &&& pre[j]->0.queued(InnerEvent::Data((j as Id, data)), after)
            } else {
                post[j] == pre[j]
            }
    }

    /// The table after slot `id` of the table `pre` was given to a new
    /// connection: the table has grown up to `id` if it was shorter, slot
    /// `id` holds a connection with that identifier, and every other slot is
    /// as it was, or free if it is new.
    pub open spec fn registered(
        pre: Seq<Option<Connection<T>>>,
        id: Id,
        post: Seq<Option<Connection<T>>>,
    ) -> bool
        recommends
            !(id < pre.len() && pre[id as int] is Some),
    {
        &&& post.len() == if id < pre.len() {
            pre.len() as int
        } else {
            id + 1
        }
        &&& post[id as int] matches Some(connection) && connection.slot() == id
            && connection.accepted() == Seq::<InnerEvent<T>>::empty()
        &&& forall|j: int| 0 <= j < pre.len() && j != id ==> post[j] == pre[j]
        &&& forall|j: int| pre.len() <= j < id ==> post[j] is None
    }

    /// The table `pre` without the connection in slot `id`, if there was one.
    pub open spec fn released(pre: Seq<Option<Connection<T>>>, id: Id) -> Seq<
        Option<Connection<T>>,
    > {
        if id < pre.len() {
            pre.update(id as int, None)
        } else {
            pre
        }
    }

    /// No two live connections hold the same identifier: each holds the
    /// index of its own slot.
    pub proof fn live_ids_are_distinct(&self, one: Id, other: Id)
        requires
            self.wf(),
            self.is_live(one),
            self.is_live(other),
            one != other,
        ensures
            self@[one as int]->0.slot() == one,
            self@[other as int]->0.slot() == other,
            self@[one as int]->0.slot() != self@[other as int]->0.slot(),
    {
    }

    /// An empty table.
    pub fn new() -> (server: Self)
        ensures
            server@ == Seq::<Option<Connection<T>>>::empty(),
    {
        InnerServer { connections: Vec::new() }
    }

    /// The slot for the next connection: the lowest free one, or the first
    /// past the end when every slot is taken. `None` when all `MAX_SLOTS`
    /// identifiers are in use.
    pub fn free_slot(&self) -> (slot: Option<Id>)
        ensures
            match slot {
                Some(id) => first_gap(self.occupancy(), id as int),
                None => first_gap(self.occupancy(), MAX_SLOTS as int),
            },
    {
        proof {
            use_type_invariant(self);
        }
        let mut i: usize = 0;
        while i < self.connections.len()
            invariant
                i <= self.connections@.len() <= MAX_SLOTS,
                forall|j: int| 0 <= j < i ==> self.connections@[j] is Some,
            decreases self.connections@.len() - i,
        {
            if self.connections[i].is_none() {
                return Some(i as Id);
            }
            i += 1;
        }
        if i < MAX_SLOTS {
            Some(i as Id)
        } else {
            None
        }
    }

    /// Puts a connection that queues on `sender` into slot `id`, and says
    /// whether it did: a slot that is taken stays as it is. A slot past the
    /// end makes the table grow up to it, with free slots in between.
    pub fn insert(&mut self, id: Id, sender: Sender<InnerEvent<T>>) -> (placed: bool)
        ensures
            placed <==> !old(self).is_live(id),
            !placed ==> final(self)@ == old(self)@,
            placed ==> Self::registered(old(self)@, id, final(self)@),
            placed ==> final(self).queue(id) == sender,
            placed ==> final(self).occupancy() == occupy(old(self).occupancy(), id as int),
    {
        proof {
            use_type_invariant(&*self);
        }
        let slot = id as usize;
        if slot < self.connections.len() && self.connections[slot].is_some() {
            return false;
        }
        let mut table = Vec::new();
        core::mem::swap(&mut self.connections, &mut table);
        if slot < table.len() {
            table.set(slot, Some(Connection::new(id, sender)));
        } else {
            while table.len() < slot
                invariant
                    old(self)@.len() <= table@.len() <= slot < MAX_SLOTS,
                    forall|j: int|
                        0 <= j < old(self)@.len() ==> table@[j] == old(self)@[j],
                    forall|j: int|
                        old(self)@.len() <= j < table@.len() ==> table@[j] is None,
                decreases slot - table@.len(),
            {
                table.push(None);
            }
            table.push(Some(Connection::new(id, sender)));
        }
        self.connections = table;
        assert(self.occupancy() =~= occupy(old(self).occupancy(), id as int));
        true
    }

    /// Gives slot `id` to a new connection with a fresh outbound queue and
    /// returns the receiving end of that queue, for its writer: what is
    /// queued for the connection from now on comes out there. A slot that is
    /// taken stays as it is, and `None` is returned.
    pub fn register(&mut self, id: Id) -> (messages: Option<Receiver<InnerEvent<T>>>)
        ensures
            messages is None <==> old(self).is_live(id),
            old(self).is_live(id) ==> final(self)@ == old(self)@,
            !old(self).is_live(id) ==> Self::registered(old(self)@, id, final(self)@),
            !old(self).is_live(id) ==> final(self).occupancy() == occupy(
                old(self).occupancy(),
                id as int,
            ),
            messages matches Some(receiver) ==> paired(final(self).queue(id), receiver),
    {
        let (sender, receiver) = channel();
        if self.insert(id, sender) {
            Some(receiver)
        } else {
            None
        }
    }

    /// Frees slot `id`. A slot that is free or past the end stays as it is.
    pub fn release(&mut self, id: Id)
        ensures
            final(self)@ == Self::released(old(self)@, id),
            final(self).occupancy() == vacate(old(self).occupancy(), id as int),
    {
        proof {
            use_type_invariant(&*self);
        }
        let slot = id as usize;
        if slot < self.connections.len() {
            let mut table = Vec::new();
            core::mem::swap(&mut self.connections, &mut table);
            table.set(slot, None);
            self.connections = table;
        }
        assert(self.occupancy() =~= vacate(old(self).occupancy(), id as int));
    }

    /// Forgets every connection.
    pub fn clear(&mut self)
        ensures
            final(self)@ == Seq::<Option<Connection<T>>>::empty(),
    {
        self.connections = Vec::new();
    }
}

impl<T: KnetTransform> InnerServer<T> {
    /// Queues `data` once for every live connection, from the lowest slot
    /// up, and stops at the first queue that is closed. On `Ok` every live
    /// connection has the value on its queue; on `ChannelClosed(id)` those
    /// below `id` have it, `id` turned it down and those above were not
    /// tried. Free slots stay free, and no connection comes or goes.
    pub fn write_all(&mut self, data: T) -> (result: Result<(), WriteError>)
        ensures
            match result {
                Ok(()) => {
                    &&& Self::fanned_out(old(self)@, data, old(self)@.len() as int, final(self)@)
                    &&& forall|id: Id| #[trigger]
                        old(self).is_live(id) ==> delivered(
                            old(self).queue(id),
                            InnerEvent::Data((id, data)),
                        )
                },
                Err(WriteError::ChannelClosed(failed)) => {
                    &&& old(self).is_live(failed)
                    &&& refused(old(self).queue(failed), InnerEvent::Data((failed, data)))
                    &&& Self::fanned_out(old(self)@, data, failed as int, final(self)@)
                    &&& forall|id: Id| #[trigger]
                        old(self).is_live(id) && id < failed ==> delivered(
                            old(self).queue(id),
                            InnerEvent::Data((id, data)),
                        )
                },
                Err(WriteError::UnknownConnection(_)) => false,
            },
    {
        proof {
            use_type_invariant(&*self);
        }
        let mut table = Vec::new();
        core::mem::swap(&mut self.connections, &mut table);
        let mut i: usize = 0;
        while i < table.len()
            invariant
                i <= table@.len() <= MAX_SLOTS,
                old(self).wf(),
                self.connections@.len() == 0,
                Self::fanned_out(old(self)@, data, i as int, table@),
                forall|id: Id| #[trigger]
                    old(self).is_live(id) && id < i ==> delivered(
                        old(self).queue(id),
                        InnerEvent::Data((id, data)),
                    ),
            decreases table@.len() - i,
        {
            let id = i as Id;
            let mut entry: Option<Connection<T>> = None;
            table.set_and_swap(i, &mut entry);
            match entry {
                Some(mut connection) => {
                    let sent = connection.push(InnerEvent::Data((id, data)));
                    table.set(i, Some(connection));
                    if !sent {
                        self.connections = table;
                        return Err(WriteError::ChannelClosed(id));
                    }
                },
                None => {},
            }
            i += 1;
        }
        self.connections = table;
        Ok(())
    }

    /// Queues `data` once for the connection in slot `id`, and touches no
    /// other. Fails with `UnknownConnection` where no connection lives in
    /// that slot, and with `ChannelClosed` where its queue is closed; either
    /// way nothing was queued for anyone.
    pub fn write(&mut self, data: T, id: Id) -> (result: Result<(), WriteError>)
        ensures
            !old(self).is_live(id) <==> result == Err::<(), WriteError>(
                WriteError::UnknownConnection(id),
            ),
            final(self)@.len() == old(self)@.len(),
            forall|j: int|
                0 <= j < old(self)@.len() && j != id ==> final(self)@[j] == old(self)@[j],
            match result {
                Ok(()) => {
                    &&& delivered(old(self).queue(id), InnerEvent::Data((id, data)))
                    &&& final(self)@[id as int] matches Some(after)
                    &&& old(self)@[id as int]->0.queued(InnerEvent::Data((id, data)), after)
                },
                Err(WriteError::ChannelClosed(failed)) => {
                    &&& failed == id
                    &&& refused(old(self).queue(id), InnerEvent::Data((id, data)))
                    &&& final(self)@ == old(self)@
                },
                Err(WriteError::UnknownConnection(unknown)) => {
                    &&& unknown == id
                    &&& final(self)@ == old(self)@
                },
            },
    {
        proof {
            use_type_invariant(&*self);
        }
        let slot = id as usize;
        if slot >= self.connections.len() || self.connections[slot].is_none() {
            return Err(WriteError::UnknownConnection(id));
        }
        let mut table = Vec::new();
        core::mem::swap(&mut self.connections, &mut table);
        let mut entry: Option<Connection<T>> = None;
        table.set_and_swap(slot, &mut entry);
        let sent = match entry {
            Some(mut connection) => {
                let sent = connection.push(InnerEvent::Data((id, data)));
                table.set(slot, Some(connection));
                sent
            },
            None => false,
        };
        self.connections = table;
        if sent {
            Ok(())
        } else {
            Err(WriteError::ChannelClosed(id))
        }
    }

    /// One turn of the broker: what `input` does to the table, and what the
    /// broker does next.
    ///
    /// A new peer is registered in the slot it was given and gets a writer,
    /// unless a connection already lives there; a value is passed on to the
    /// application; a writer that ended frees its slot; the internal queue
    /// closing empties the table and ends the broker.
    pub fn broker_step(&mut self, input: BrokerInput<T>) -> (action: BrokerAction<T>)
        ensures
            match input {
                BrokerInput::Event(Some(InnerEvent::NewPeer { id, stream, shutdown })) => if old(
                    self,
                ).is_live(id) {
                    &&& action == (BrokerAction::<T>::Refuse { id, stream })
                    &&& final(self)@ == old(self)@
                } else {
                    &&& action matches BrokerAction::SpawnWriter {
                        id: slot,
                        messages,
                        stream: socket,
                        shutdown: signal,
                    }
                    &&& slot == id
                    &&& socket == stream
                    &&& signal == shutdown
                    &&& paired(final(self).queue(id), messages)
                    &&& Self::registered(old(self)@, id, final(self)@)
                    &&& final(self).occupancy() == occupy(old(self).occupancy(), id as int)
                },
                BrokerInput::Event(Some(InnerEvent::Data((id, value)))) => {
                    &&& action == BrokerAction::Emit(Event::Data((id, value)))
                    &&& final(self)@ == old(self)@
                },
                BrokerInput::Event(None) => {
                    &&& action is Stop
                    &&& final(self)@ == Seq::<Option<Connection<T>>>::empty()
                },
                BrokerInput::Disconnect(id) => {
                    &&& action is Continue
                    &&& final(self)@ == Self::released(old(self)@, id)
                    &&& final(self).occupancy() == vacate(old(self).occupancy(), id as int)
                },
            },
    {
        match input {
            BrokerInput::Event(Some(InnerEvent::NewPeer { id, stream, shutdown })) => {
                match self.register(id) {
                    Some(messages) => BrokerAction::SpawnWriter { id, messages, stream, shutdown },
                    None => BrokerAction::Refuse { id, stream },
                }
            },
            BrokerInput::Event(Some(InnerEvent::Data((id, value)))) => BrokerAction::Emit(
                Event::Data((id, value)),
            ),
            BrokerInput::Event(None) => {
                self.clear();
                BrokerAction::Stop
            },
            BrokerInput::Disconnect(id) => {
                self.release(id);
                BrokerAction::Continue
            },
        }
    }

    /// One turn of the reader of the connection in slot `id`: hands the
    /// outcome of a read to `reader` and wraps the value of a completed
    /// frame for the broker.
    pub fn connection_step(
        id: Id,
        reader: &mut FrameReader<T>,
        outcome: ReadOutcome,
    ) -> (announce: Option<InnerEvent<T>>)
        ensures
            match announce {
                Some(InnerEvent::Data((slot, value))) => slot == id && supplied(
                    old(reader)@,
                    outcome,
                    final(reader)@,
                    Some(value),
                ),
                Some(InnerEvent::NewPeer { .. }) => false,
                None => supplied(old(reader)@, outcome, final(reader)@, None::<T>),
            },
    {
        match reader.supply(outcome) {
            Some(value) => Some(InnerEvent::Data((id, value))),
            None => None,
        }
    }

    /// What the writer of a connection does with what one of its queues
    /// yielded: a value is written as its frame; any other message and a
    /// token on the shutdown queue change nothing; either queue closing ends
    /// the writer.
    pub fn writer_step(input: WriterInput<InnerEvent<T>>) -> (action: WriterAction)
        ensures
            match input {
                WriterInput::Message(Some(InnerEvent::Data((_, value)))) => {
                    &&& action matches WriterAction::Write(bytes)
                    &&& encodes(value, bytes@)
                },
                WriterInput::Message(Some(InnerEvent::NewPeer { .. })) => action is Wait,
                WriterInput::Message(None) => action is Stop,
                WriterInput::Shutdown(Some(_)) => action is Wait,
                WriterInput::Shutdown(None) => action is Stop,
            },
    {
        match input {
            WriterInput::Message(Some(InnerEvent::Data((_, value)))) => WriterAction::Write(
                encode(&value),
            ),
            WriterInput::Message(Some(InnerEvent::NewPeer { .. })) => WriterAction::Wait,
            WriterInput::Message(None) => WriterAction::Stop,
            WriterInput::Shutdown(Some(_)) => WriterAction::Wait,
            WriterInput::Shutdown(None) => WriterAction::Stop,
        }
    }
}

} // verus!
