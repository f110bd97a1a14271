//! Adapter for a host-provided Linux-subsystem virtualization backend.
//!
//! The crate builds the exact command lines that drive the host CLI,
//! interprets the captured output of those commands (NUL stripping,
//! line splitting, sentinel matching), and tracks the bootstrap of a
//! distinguished helper instance as a verified state machine.  Running
//! child processes and downloading images is left to the embedding
//! program, which feeds the raw results back into the verified core.

pub mod bootstrap;
pub mod docker_api;
pub mod text;
pub mod windows_helper_instance;
pub mod wsl_api;
