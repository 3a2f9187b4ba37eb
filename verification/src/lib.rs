//! Network configuration management for the StarForge command line:
//! endpoint validation, the configured set of networks, and the operations
//! that show, switch, add, remove, rename and test them.

pub mod text;
pub mod error;
pub mod endpoint;
pub mod config;
pub mod network;
pub mod laws;
