//! Verified core of a service that vendors the cargo home registry of a
//! Rust project: the cargo invocations it makes, the choice of the project
//! root inside an unpacked source, where lockfiles land, which registry
//! leftovers are removed and how the resulting archive is named, all driven
//! by a step function that the executable runs against the filesystem.

pub mod error;
pub mod paths;
pub mod cli;
pub mod cargo;
pub mod layout;
pub mod run;
pub mod laws;
