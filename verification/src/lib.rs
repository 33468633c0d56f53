//! Per-core I/O channel and remote-target attachment layer of a storage
//! data-plane node.
//!
//! The driver transport layer (queue-pair allocation, poll groups, pollers,
//! device create/delete) is an external collaborator: its replies enter this
//! library as plain values, and the decisions taken on them - resource
//! rollback, completion draining, reconnection, attachment handshakes and
//! URL parsing - are verified here.

pub mod attach;
pub mod channel;
pub mod poller;
pub mod registry;
pub mod uri;
