//! An interpreter for a small 8-bit virtual machine: sixteen byte registers,
//! a 4 KiB heap with a call stack, two countdown timers and a 64x32
//! monochrome frame buffer.  Every function carries a contract over a
//! mathematical model of the machine, and the contracts are machine-checked.

pub mod config;
pub mod guestsystem;
pub mod host;
pub mod logic;
