//! The decision logic of a small concurrent echo server.
//!
//! The server accepts connections, reads one message per read, decodes it,
//! and writes the re-encoded message back. Everything that decides what
//! happens next lives here, as state machines over plain values:
//!
//! * [`codec`]: the wire form of a message;
//! * [`session`]: one connection's read, decode, respond cycle;
//! * [`acceptor`]: the loop that turns incoming connections into sessions;
//! * [`server`]: the lifecycle of the server and its run flag.
//!
//! Sockets, threads and the shared atomic flag belong to the caller, which
//! performs the actions these machines ask for and feeds back what happened.

pub mod acceptor;
pub mod codec;
pub mod server;
pub mod session;

pub use acceptor::{AcceptOutcome, Acceptor, AcceptorAction, ACCEPT_POLL_MILLIS};
pub use codec::{DecodeFailure, EchoMessage};
pub use server::{BindError, Phase, RunError, Server, StopReport};
pub use session::{Client, IoFault, ReadOutcome, SessionState, WriteOutcome, READ_CAPACITY};
