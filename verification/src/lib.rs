//! Decision logic of a supervisor that keeps a tunnel agent and a forwarding
//! proxy running together.
//!
//! The crate performs no I/O. A caller spawns the processes, sleeps, sends the
//! health request and waits for signals; after each such step it reports what
//! happened and is told what to do next.

pub mod command;
pub mod cycle;
pub mod endpoint;
pub mod health;
pub mod history;
pub mod launch;
pub mod report;
pub mod shutdown;
pub mod trace;
