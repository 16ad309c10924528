//! Lifecycle management for a sidecar rendering engine: provisioning of the
//! engine bundle, port allocation, process launch, readiness probing and
//! shutdown, written as decision procedures whose effects the host performs.

pub mod control;
pub mod copy;
pub mod digest;
pub mod disk;
pub mod endpoint;
pub mod error;
pub mod install;
pub mod launch;
pub mod paths;
pub mod platform;
pub mod port;
pub mod provision;
pub mod readiness;
pub mod reply;
pub mod store;
pub mod text;
pub mod tree;
