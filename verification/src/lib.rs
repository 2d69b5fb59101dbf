//! The logic of a small key-value server that speaks a line protocol.
//!
//! Clients send `SET`, `GET` and `DELETE` commands, one to a line, and get
//! one line back for each. One owner holds the store and serves the
//! operations of all connections one after another; each connection is a
//! session that parses lines, hands operations to the owner and reports the
//! replies.
//!
//! - [`text`]: whitespace, tokens, joining.
//! - [`command`]: the operations and the grammar of a command line.
//! - [`reply`]: replies and the response lines that report them.
//! - [`store`]: the store and the meaning of each operation.
//! - [`owner`]: the owner as a step function on its queue, and what holds of
//!   the operations it has served.
//! - [`session`]: a connection as a state machine.
//! - [`protocol`]: one request line and its response line, end to end.
//!
//! Nothing here reads, writes or waits. The owner and the session say what
//! is to be done next; the program around them does it and reports back.

pub mod command;
pub mod owner;
pub mod protocol;
pub mod reply;
pub mod session;
pub mod store;
pub mod text;
