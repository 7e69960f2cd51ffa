//! Decoded instructions: an operation tag paired with an operand.
pub mod instruction;
pub mod instruction_type;
pub mod operand;
