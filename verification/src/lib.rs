//! The decisions of a KCP endpoint: which session a datagram belongs to, when a
//! session is replaced, expires or shuts down, and what is handed to the KCP
//! machine. Sockets, channels and tasks live outside; they report events and
//! carry out the actions that this library returns.

pub mod addr;
pub mod channel;
pub mod dispatcher;
pub mod dispatcher_laws;
pub mod draws;
pub mod endpoint_laws;
pub mod header;
pub mod listener;
pub mod manager;
pub mod packet_laws;
pub mod session;
pub mod session_laws;
