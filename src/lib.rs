//! Running an external command while relaying its output to the terminal
//! and signalling a progress indicator.
//!
//! The library holds the decisions of that work: how a command line becomes
//! an argument vector, how a reader publishes what it read, what the display
//! loop writes and when it stops, and in which order the progress session is
//! signalled. Processes, pipes, threads and the terminal belong to the caller.
pub mod invocation;
pub mod mailbox;
pub mod outcome;
pub mod reader;
pub mod display;
pub mod session;
