//! Synchronous client and server sessions over a message-oriented socket.
//!
//! The socket I/O itself lives with the embedding application; this crate
//! holds the session state, the per-step decisions of the client, of the
//! per-connection workers and of the accept loop, the bounded close sequence
//! and the server's control plane.

pub mod error;
pub mod transport;
pub mod close;
pub mod client;
pub mod worker;
pub mod server;
pub mod delivery;

pub use error::SimpleSockleError;
pub use transport::{CloseCode, CloseFrame, Fault, FaultKind, Inbound};
pub use client::{ReadMode, ReadStep, SimpleSockleClient};
pub use server::{SimpleSockleServer, SockleServerMessage};

