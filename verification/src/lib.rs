//! The core of a small framed-message transport over TCP.
//!
//! A server multiplexes many connections through one broker that owns the
//! connection table; a client speaks the same framing over one connection.
//! Values are turned into bytes and back by the [`KnetTransform`] of their
//! type, and every value travels as one frame: a header of fixed length,
//! then as many bytes of data as the header announces.
//!
//! This crate holds everything that is decided, and nothing that waits:
//!
//! * [`FrameReader`] splits a byte stream into frames and decodes them;
//! * [`InnerServer`] is the connection table: it assigns slots, registers
//!   and releases connections, queues values for one peer or for all, and
//!   takes the broker's decisions in [`InnerServer::broker_step`];
//! * [`InnerClient`] queues values for the client's writer;
//! * [`writer_turn`] and [`InnerServer::writer_step`] say what a writer does
//!   with what its queues yield.
//!
//! The tasks that read sockets, await queues and spawn each other call into
//! these at every turn.

pub mod network;

pub use network::channel::{Outbox, Receiver, Sender};
pub use network::client::{ChannelClosed, InnerClient};
pub use network::frame::{writer_turn, FrameReader, ReadOutcome, WriterAction, WriterInput};
pub use network::server::{
    BrokerAction, BrokerInput, Connection, Event, InnerEvent, InnerServer, WriteError,
};
pub use network::slots::{Id, MAX_SLOTS};
pub use network::trait_knet::KnetTransform;
