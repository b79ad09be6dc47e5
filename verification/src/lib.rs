//! Session manager for a single local content-addressed storage node.
//!
//! The crate owns the node's lifecycle state machine, the per-operation
//! progress bus, and the upload/download orchestration rules.  The native
//! storage engine itself (peer discovery, chunk transfer) is an external
//! collaborator: its calls happen outside this crate, and their outcomes are
//! handed to the manager as plain values, so that every decision the manager
//! makes is verified.
//!
//! The manager models the serialized view of the session: the surrounding
//! application guards it with its locks, and each method here is one atomic
//! transition of that state, stated as a spec-level function and proved of
//! the executable code.  The laws module proves the properties that hold
//! across whole sequences of such transitions.

pub mod bus;
pub mod error;
pub mod ids;
pub mod laws;
pub mod manager;
pub mod node;
pub mod progress;
pub mod transfer;
pub mod types;
