//! Server-side acceptance and demultiplexing for KCP connections that share
//! one datagram socket.
//!
//! Every datagram carries a connection identifier (`conv`) in the first field
//! of its header. The [`session::SessionTable`] maps the identifiers of the
//! live connections to their input queues and hands out unused identifiers;
//! the [`listener::KcpListener`] routes each datagram to the connection it
//! belongs to or admits a new connection for it. The socket itself is not
//! part of this crate: callers hand the listener the datagrams they read.

pub mod addr;
pub mod config;
pub mod listener;
pub mod session;
pub mod theorems;
pub mod wire;

pub use addr::PeerAddr;
pub use config::{KcpConfig, KcpNoDelayConfig};
pub use listener::{Accepted, Datagram, Incoming, KcpListener, ListenerError, Routing};
pub use session::{Session, SessionError, SessionTable};
