//! Inbound network event handling for a node of a distributed hash table.
//!
//! Peers send each other direct messages, here used to fetch the validation
//! package of an entry, and replication instructions: to hold an entry, or to
//! attach metadata to an entry that is already held. The handlers in this
//! crate decide, for one delivered event, what the node does: which diagnostic
//! it records, which command it submits for reduction and which workflow has
//! to run.
//!
//! The handlers perform no I/O and never wait. They take an event whose
//! payload has been decoded, read and write a [`context::Context`], and return
//! the workflow that they want run. Each decision is stated as a function of
//! the event and of the state, and each handler is proved to decide just so,
//! for every input and without panicking.
//!
//! - [`send`]: direct messages, as requests and as replies.
//! - [`store`]: replication instructions.
//! - [`pending`]: the table that ties a reply to the request it answers.
//! - [`protocol`]: the events.
//! - [`direct_message`], [`entry`], [`address`]: what the events carry.
//! - [`action`], [`error`]: what the handlers answer.

pub mod action;
pub mod address;
pub mod context;
pub mod direct_message;
pub mod entry;
pub mod error;
pub mod pending;
pub mod protocol;
pub mod send;
pub mod store;
