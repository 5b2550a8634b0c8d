//! Lifecycle management for lightweight QEMU virtual-machine definitions:
//! the persisted descriptor of a machine, the decisions taken when one is
//! created or deleted, and the discovery of the hypervisor and its firmware.
//!
//! The library decides and the program around it acts. What can be computed
//! from plain values is a function with an exact contract. Where the host
//! has to be asked for a path, a file or a fresh identifier, the question
//! goes through `host`, and the function that asks is verified for every
//! answer. Where the host has to act in between, creating a directory,
//! running a tool or asking the operator, the operation is a sequence of
//! steps: `vm::creator::Creation` and `vm::manager::Deletion` take the
//! outcome of the last action and say what to do next.

pub mod config;
pub mod error;
pub mod host;
pub mod text;
pub mod utils;
pub mod vm;

pub use config::schema::VmConfig;
pub use error::QvmError;
pub use vm::manager::VmManager;
