//! Lifecycle supervision core of a blockchain node.
//!
//! The crate holds the decisions a node makes while it starts, bootstraps from
//! the network, wires its long-running tasks together and shuts down, together
//! with the small data structures those decisions are made on. Everything that
//! waits, sleeps, reads or prints is left to the caller: the state machines
//! here take events and answer with the next actions to perform.

pub mod lifecycle;
pub mod settings;
pub mod error;
pub mod services;
pub mod mailbox;
pub mod cancel;
pub mod context;
pub mod bootstrap;
pub mod bootstrap_laws;
pub mod topology;
pub mod topology_laws;
pub mod node;
pub mod decimal;
pub mod show;
pub mod standard;
pub mod startup;
pub mod startup_laws;
pub mod signals;
pub mod scalars;
pub mod node_time;
pub mod lifecycle_laws;
