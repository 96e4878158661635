//! Orchestration core of a lightweight virtual-machine monitor.
//!
//! The crate decides *what* has to happen and in which order when a machine
//! is built and driven through its life cycle; the host performs the work.

pub mod cmd_parser;
pub mod config;
pub mod devices;
pub mod error;
pub mod lifecycle;
pub mod machine;
pub mod memory;
pub mod pipeline;
pub mod power;
pub mod scream;
pub mod scsi;
pub mod seccomp;
pub mod text;
pub mod vcpu;
