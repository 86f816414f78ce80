//! The guest machine: its components, the system that runs them, and the
//! laws that hold of them.

pub mod components;
pub mod guest_system;
pub mod laws;
