use vstd::prelude::*;

verus! {

/// Operand of an instruction, one case per addressing mode. Each case carries
/// the literal bytes that followed the opcode.
#[derive(Clone, Copy, Debug, PartialEq, Eq, Structural)]
pub enum Operand {
    /// The instruction itself names what it works on.
    Implicit,
    /// Operate on the accumulator.
    Accumulator,
    /// The value is part of the instruction.
    Immediate(u8),
    /// 8-bit address on the first page of memory.
    ZeroPage(u8),
    /// `address = (X + value) mod 256`
    ZeroPageX(u8),
    /// `address = (Y + value) mod 256`
    ZeroPageY(u8),
    /// `address = PC + offset`, the offset being signed.
    Relative(i8),
    /// Full 16-bit address.
    Absolute(u16),
    /// `address = value + X`
    AbsoluteX(u16),
    /// `address = value + Y`
    AbsoluteY(u16),
    /// `address = *value`
    Indirect(u16),
    /// The value plus X is the zero-page address of a pointer.
    IndexedIndirect(u8),
    /// The value is the zero-page address of a pointer, to which Y is added.
    IndirectIndexed(u8),
}

} // verus!
