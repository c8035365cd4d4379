//! Provisioning of isolated per-name runtime environments for a companion
//! server process.
//!
//! Given a logical name, the library derives a private environment path under
//! a home directory, synthesizes the commands that materialize the
//! environment and its dependencies, renders the launcher script that starts
//! the server payload detached, and models the shared configuration store
//! that records the spawned process's identity and communication channel.
//!
//! The library itself performs no I/O. Every subprocess run, file write and
//! store query is an action handed to the caller; the caller reports each
//! action's outcome back, and the workflow state machines decide what happens
//! next. This keeps the sequencing rules (a failed step aborts the rest of
//! the chain) inside verified code while the host process owns the edges.

pub mod commands;
pub mod fs_model;
pub mod launcher;
pub mod paths;
pub mod store;
pub mod workflow;
