//! Builds the command lines of the Singularity container runtime from a
//! structured description of a run, and classifies what the runtime reports
//! back. The crate never starts a process itself: it hands out argument
//! vectors and takes exit codes and captured streams as plain values.

pub mod command;
pub mod env_map;
pub mod gateway;
pub mod host;
pub mod laws;
pub mod model;
pub mod singularity;
pub mod text;

pub use gateway::{ExecError, ProcessOutput, PullError, Spawned, VersionError};
pub use host::HostConfig;
pub use singularity::{PullStep, Singularity, COMMAND_BASE};
