//! Query of the packet commitments that are outstanding on one end of a
//! channel: the command's arguments, the run of one query as a state machine,
//! and the report that ends it.
//!
//! The library performs no I/O. The caller owns the connection to the chain
//! and feeds what the chain answered back into [`query::step`].

pub mod arguments;
pub mod command;
pub mod identifier;
pub mod packet;
pub mod query;
pub mod report;
