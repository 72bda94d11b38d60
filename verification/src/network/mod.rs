//! The transport, piece by piece: the codec it calls into, frames on a byte
//! stream, the queues between tasks, the server's connection table with its
//! broker, and the client's outbound queue.

pub mod channel;
pub mod client;
pub mod frame;
pub mod server;
pub mod slots;
pub mod trait_knet;

pub use client::InnerClient;
pub use server::{Event, InnerServer};
pub use slots::Id;
pub use trait_knet::KnetTransform;
