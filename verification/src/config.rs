//! The persisted configuration of a machine.

pub mod schema;
