//! Module-sandboxing core of a blockchain host.
//!
//! Untrusted modules are loaded into isolated execution environments
//! ("sandboxes") by pluggable backends ("sandboxers"). A process-wide
//! registry maps a backend identifier to a shared backend handle, and the
//! load protocol assigns compact integer identifiers to a module's services
//! and members so that later cross-boundary calls avoid string lookups.

pub mod common_params;
pub mod idmap;
pub mod miner;
pub mod node;
pub mod registry;
pub mod sandbox;
pub mod stub;
