//! The lifecycle of a machine: its firmware, its creation, its launch and
//! its deletion.

pub mod config;
pub mod creator;
pub mod firmware;
pub mod launch;
pub mod manager;
