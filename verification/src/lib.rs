//! A CHIP-8 interpreter core: a table-driven decoder from 16-bit instruction
//! words to operations, and the execution of those operations against machine
//! state (registers, memory, call stack, timers, framebuffer and key state).
//!
//! The decoder and every operation carry contracts that pin down the exact
//! word-to-effect mapping of the instruction set.

pub mod config;
pub mod operand;
pub mod instruction;
pub mod state;
pub mod machine;
pub mod operation;
pub mod options;
pub mod parser;
pub mod programs;
