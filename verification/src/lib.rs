//! Supervision of a single long-running local server process.
//!
//! The crate holds the decision logic of the supervisor: the state machine
//! that guarantees idempotent start/stop semantics, the resolution of bundled
//! resource paths, the fallback rule for the reachable address, and the error
//! kinds surfaced to the host application. All I/O (spawning the process,
//! probing the network, reading the filesystem) is performed by the host
//! shell, which feeds the outcomes back into the verified state machine.

pub mod address;
pub mod errors;
pub mod info;
pub mod resources;
pub mod supervisor;
