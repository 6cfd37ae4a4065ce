//! A transient status-message row for a terminal text editor: a single screen
//! row that shows a short-lived notification and blanks itself a fixed time
//! after the message was posted, while avoiding redundant screen writes.
//!
//! All state transitions are driven by an explicit clock reading, a `u64`
//! count of elapsed milliseconds, handed in by the caller on every poll; the
//! surrounding UI loop supplies the wall clock and performs the terminal
//! write itself.

pub mod messagebar;
