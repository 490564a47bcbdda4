//! Client side of a command/acknowledgement protocol spoken over two named
//! pipes: commands go out one line at a time, and every command that was
//! delivered is answered by exactly one reply line, matched purely by order.
//!
//! The crate holds the rules of that exchange and none of its I/O: how a
//! reply line is read, what is printed for each outcome, when a batch stops,
//! and which exit status it ends with.

pub mod batch;
pub mod dispatch;
pub mod error;
pub mod logview;
pub mod reply;
pub mod report;
pub mod trace;
