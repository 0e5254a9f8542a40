//! Tracking shell commands through their lifecycle.
//!
//! An operator submits raw command strings; a fixed pool of workers drains
//! the pending queue, executes each command as a child process, and records
//! the captured output.  This crate holds everything that can be reasoned
//! about: the command parser, the task records, the task store with its
//! queue/running/finished protocol, the laws that protocol obeys, and the
//! rolling performance log.  Spawning processes, worker threads and the
//! terminal front end live in the embedding program, which drives the store
//! through the verified transitions under a single lock.

pub mod task;
pub mod parse;
pub mod store;
pub mod laws;
pub mod perf;
