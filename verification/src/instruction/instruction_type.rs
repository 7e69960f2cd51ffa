use vstd::prelude::*;

verus! {

/// The operation an instruction performs. The status flags an operation may
/// change are named by their letters in `NV1BDIZC`.
#[derive(Clone, Copy, Debug, PartialEq, Eq, Structural)]
pub enum InstructionType {
    /// Add with carry. Affects `NVZC`.
    Adc,
    /// Bitwise and with the accumulator. Affects `NZ`.
    And,
    /// Arithmetic shift left. Affects `NZC`.
    Asl,
    /// Test bits of the operand against the accumulator. Affects `NVZ`.
    Bit,
    /// Branch if Negative is clear.
    Bpl,
    /// Branch if Negative is set.
    Bmi,
    /// Branch if Overflow is clear.
    Bvc,
    /// Branch if Overflow is set.
    Bvs,
    /// Branch if Carry is clear.
    Bcc,
    /// Branch if Carry is set.
    Bcs,
    /// Branch if Zero is clear.
    Bne,
    /// Branch if Zero is set.
    Beq,
    /// Software interrupt. Affects `B`.
    Brk,
    /// Compare with the accumulator. Affects `NZC`.
    Cmp,
    /// Compare with X. Affects `NZC`.
    Cpx,
    /// Compare with Y. Affects `NZC`.
    Cpy,
    /// Decrement memory. Affects `NZ`.
    Dec,
    /// Bitwise exclusive or with the accumulator. Affects `NZ`.
    Eor,
    /// Clear Carry.
    Clc,
    /// Set Carry.
    Sec,
    /// Clear Interrupt-disable.
    Cli,
    /// Set Interrupt-disable.
    Sei,
    /// Clear Overflow.
    Clv,
    /// Clear Decimal.
    Cld,
    /// Set Decimal.
    Sed,
    /// Increment memory. Affects `NZ`.
    Inc,
    /// Jump.
    Jmp,
    /// Jump to subroutine.
    Jsr,
    /// Load the accumulator. Affects `NZ`.
    Lda,
    /// Load X. Affects `NZ`.
    Ldx,
    /// Load Y. Affects `NZ`.
    Ldy,
    /// Logical shift right. Affects `NZC`.
    Lsr,
    /// No operation.
    Nop,
    /// Bitwise or with the accumulator. Affects `NZ`.
    Ora,
    /// Copy the accumulator to X. Affects `NZ`.
    Tax,
    /// Copy X to the accumulator. Affects `NZ`.
    Txa,
    /// Decrement X. Affects `NZ`.
    Dex,
    /// Increment X. Affects `NZ`.
    Inx,
    /// Copy the accumulator to Y. Affects `NZ`.
    Tay,
    /// Copy Y to the accumulator. Affects `NZ`.
    Tya,
    /// Decrement Y. Affects `NZ`.
    Dey,
    /// Increment Y. Affects `NZ`.
    Iny,
    /// Rotate left through Carry. Affects `NZC`.
    Rol,
    /// Rotate right through Carry. Affects `NZC`.
    Ror,
    /// Return from interrupt. Restores all flags.
    Rti,
    /// Return from subroutine.
    Rts,
    /// Subtract with carry. Affects `NVZC`.
    Sbc,
    /// Store the accumulator.
    Sta,
    /// Copy X to the stack pointer.
    Txs,
    /// Copy the stack pointer to X.
    Tsx,
    /// Push the accumulator.
    Pha,
    /// Pull the accumulator. Affects `NZ`.
    Pla,
    /// Push the status byte.
    Php,
    /// Pull the status byte. Restores all flags.
    Plp,
    /// Store X.
    Stx,
    /// Store Y.
    Sty,
}

} // verus!
