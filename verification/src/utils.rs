//! Paths under the storage root, and what the system is asked.

pub mod paths;
pub mod system;
