//! Orchestration of sandboxed workload execution.
//!
//! The library classifies a workload by its path, finds the binaries it
//! needs in the local cache or asks for them from the registry, assembles the
//! configuration of the execution engine, and takes the run through its
//! stages. It performs no input or output itself: the file system, the
//! registry and the engine are reached through the actions of
//! [`runtime::Orchestrator`], which the embedding program carries out.

pub mod cache;
mod clock;
pub mod config;
pub mod error;
pub mod invocation;
pub mod paths;
pub mod protocol;
pub mod surroundings;
pub mod runtime;
pub mod text;
pub mod workload;

pub use cache::{get_cached_binary_path, is_binary_cached};
pub use config::RuntimeConfig;
pub use error::RunError;
pub use runtime::Runtime;
pub use workload::WorkloadType;
