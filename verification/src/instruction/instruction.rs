use crate::instruction::instruction_type::InstructionType;
use crate::instruction::operand::Operand;
use vstd::prelude::*;

verus! {

/// A decoded instruction: an operation and the operand it works on.
pub struct Instruction {
    ty: InstructionType,
    operand: Operand,
}

impl View for Instruction {
    type V = (InstructionType, Operand);

    closed spec fn view(&self) -> (InstructionType, Operand) {
        (self.ty, self.operand)
    }
}

impl Instruction {
    /// The operation of the instruction.
    pub open spec fn kind(&self) -> InstructionType {
        self@.0
    }

    /// The operand of the instruction.
    pub open spec fn arg(&self) -> Operand {
        self@.1
    }

    /// An instruction that names what it works on by itself: its operand is
    /// `Implicit`.
    pub fn without_operand(ty: InstructionType) -> (r: Instruction)
        ensures
            r@ == (ty, Operand::Implicit),
    {
        Instruction { ty, operand: Operand::Implicit }
    }

    /// An instruction with the given operand.
    pub fn with_operand(ty: InstructionType, operand: Operand) -> (r: Instruction)
        ensures
            r@ == (ty, operand),
    {
        Instruction { ty, operand }
    }

    /// The operation of the instruction.
    pub fn get_type(&self) -> (r: InstructionType)
        ensures
            r == self.kind(),
    {
        self.ty
    }

    /// The operand of the instruction.
    pub fn get_operand(&self) -> (r: &Operand)
        ensures
            *r == self.arg(),
    {
        &self.operand
    }
}

} // verus!
