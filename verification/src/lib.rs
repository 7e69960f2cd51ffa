//! Execution core of an 8-bit CPU interpreter with 6502-family semantics.
//!
//! Given an already decoded instruction and the processor state, the core
//! performs the operation and updates the registers, the status flags and the
//! memory. Every operation is specified over a mathematical model of the
//! processor, [`interp::state::Machine`].
pub mod instruction;
pub mod interp;
