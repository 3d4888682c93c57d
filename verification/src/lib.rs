//! The decisions behind the packet sources that drive an operating system's traffic redirector:
//! how a redirector is started, how its output is relayed, and how the connection to it is kept up.
//!
//! Everything here is free of I/O. Each long-running task is a state machine: it names the
//! operation to perform next, and is told how that operation went.

pub mod backoff;
pub mod linux;
pub mod relay;
pub mod startup;
pub mod text;
pub mod windows;
