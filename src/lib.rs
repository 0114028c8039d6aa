//! Supervision of child processes for a desktop launcher: a registry of the
//! processes it spawned, line-by-line streaming of their output, the decisions
//! around running a command, the state machine of the one long-running
//! backend, and the sweep of processes left by an earlier run.
//!
//! The decisions live here and are verified; the program around them spawns
//! processes, reads pipes and touches the disk.

pub mod conda;
pub mod filesystem;
pub mod registry;
pub mod runner;
pub mod streamer;
pub mod supervisor;
pub mod sweeper;
