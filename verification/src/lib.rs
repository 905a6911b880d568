//! A typed message channel over a full-duplex, frame-oriented connection.
//!
//! The crate holds the decisions of such a channel and none of its I/O: which
//! address is acceptable, which frame a value becomes, and what a sequence of
//! inbound frames amounts to for the caller. The code that owns the socket
//! performs the reads and writes and reports each outcome back.

pub mod address;
pub mod channel;
pub mod frame;
pub mod protocol;
pub mod replay;

