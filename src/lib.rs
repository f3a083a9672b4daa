//! Event-style sockets: a per-connection wrapper that owns one transport
//! handle, carries a stable identifier derived from an address, and
//! dispatches each inbound message to the handler registered under the
//! message text itself.

pub mod identity;
pub mod registry;
pub mod message;
pub mod socket;
pub mod http;
pub mod lines;
pub mod server_loop;
