//! The capability-hosting layer of a sandboxed actor runtime: the lifecycle
//! of the capabilities granted to a component, the registry that drives
//! them in order, and the HTTP framework capability with its servers and
//! routes.
//!
//! The library decides; it performs no I/O. Work that only the host can do
//! (registering functions with a component, binding a listener, calling a
//! component's export) is done by the caller, who reports how it went as a
//! [`capability::HostOutcome`].

pub mod capability;
pub mod error;
pub mod permissions;
pub mod registry;
pub mod search;
pub mod framework;
pub mod handler;
