//! The parts of the guest machine, leaf first.

pub mod cpu;
pub mod display;
pub mod keypad;
pub mod memory;
pub mod semantics;
