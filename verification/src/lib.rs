//! Master-side session engine for a DNP3-style request/response protocol.
//!
//! The crate holds the decisions of the master: which task runs next, how a
//! request is encoded, which received fragments are accepted, when a
//! confirmation is owed and how the per-outstation state evolves. Waiting on
//! sockets, timers and queues is left to the caller, which feeds the engine
//! one event at a time.

pub mod enums;
pub mod header;
pub mod types;
pub mod cursor;
pub mod variation;
pub mod format;
pub mod request;
pub mod objects;
pub mod command;
pub mod tasks;
pub mod association;
pub mod session;
