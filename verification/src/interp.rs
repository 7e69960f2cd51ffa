//! The interpreter: processor state, operand resolution and the operations.
pub mod alu;
pub mod execution;
pub mod operand_decoder;
pub mod state;
