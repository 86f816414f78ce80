//! Stateless services: instruction decoding and command-line handling.

pub mod args_service;
pub mod interpreter;
