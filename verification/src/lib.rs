//! Declarative machine provisioning: a layered configuration model
//! (tools / modules / profiles with overlay merging), resolution of a
//! selected profile into a flat list of concrete steps, and deterministic,
//! fail-fast planning of the commands those steps issue.
//!
//! Everything that computes or decides is verified here; the surrounding
//! program performs the planned effects (process spawning, HTTP, archive
//! extraction) and feeds results back in as plain values.

pub mod commands;
pub mod config;
pub mod errors;
pub mod invocation;
pub mod modules;
pub mod registry;
pub mod text;
pub mod utils;
