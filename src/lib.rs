//! Asynchronous command execution: job admission, result tracking, and the
//! decisions of the local and remote executors, as verified functions over
//! plain values.

pub mod admission;
pub mod executor;
pub mod laws;
pub mod record;
pub mod remote;
pub mod store;
pub mod text;
