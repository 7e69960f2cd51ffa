use crate::instruction::instruction::Instruction;
use crate::instruction::instruction_type::InstructionType;
use crate::instruction::operand::Operand;
use crate::interp::alu;
use crate::interp::alu::{
    adc_carry, adc_value, add_overflow, after_adc, after_compare, after_memory, after_sbc,
    after_shift, lemma_with_cvzn, lemma_with_czn, lemma_with_zn, low_bit, rol_value, ror_value,
    sbc_carry, sbc_value, sub8, sub_overflow, with_accumulator, with_x, with_y,
};
use crate::interp::alu::{
    after_accumulator, after_x, after_y, flags_zn, is_negative, load_accumulator, load_x, load_y,
    negative8,
};
use crate::interp::operand_decoder::{
    add16, addressable, get_pointer, get_u8, has_pointer, has_u8, has_value, is_writable, memory_target,
    pointer_of, set_u8, value_of, writable, written,
};
use crate::interp::state::{
    high_byte, low_byte, pred8, succ8, Flags, Machine, State, PSW_BREAK_BIT, PSW_CARRY_BIT, PSW_DECIMAL_BIT, PSW_INTERRUPT_BIT,
    PSW_NEGATIVE_BIT, PSW_OVERFLOW_BIT, PSW_ZERO_BIT,
};
use vstd::prelude::*;

verus! {

/// The address of the interrupt vector that BRK jumps through.
pub const BRK_VECTOR: u16 = 0xFFFE;

/// The machine with the program counter at `pc`.
pub open spec fn with_pc(m: Machine, pc: u16) -> Machine {
    Machine { pc, ..m }
}

/// A branch: if it is taken, the program counter moves to the target of the
/// `Relative` operand, the counter plus the signed offset within sixteen
/// bits; if not, nothing changes.
pub open spec fn after_branch(m: Machine, op: Operand, taken: bool) -> Machine {
    if taken {
        with_pc(m, pointer_of(op, m).unwrap())
    } else {
        m
    }
}

/// Whether bit 6 of `v` is set.
pub open spec fn bit6(v: u8) -> bool {
    (v / 64) % 2 == 1
}

/// BIT: Zero says whether the accumulator and `v` share no bit, Negative is
/// bit 7 of `v` and Overflow bit 6 of `v`. Nothing else changes.
pub open spec fn after_bit(m: Machine, v: u8) -> Machine {
    m.with_flag(PSW_ZERO_BIT, m.accumulator & v == 0).with_flag(
        PSW_NEGATIVE_BIT,
        negative8(v),
    ).with_flag(PSW_OVERFLOW_BIT, bit6(v))
}

/// BRK: the program counter and then the status byte are pushed, Break is
/// set, and the program counter is loaded from the interrupt vector.
pub open spec fn after_brk(m: Machine) -> Machine {
    let s = m.pc_pushed().pushed(m.psw).with_flag(PSW_BREAK_BIT, true);
    with_pc(s, s.ram16(BRK_VECTOR))
}

/// PLP: the status byte is popped, all eight bits as they were pushed.
pub open spec fn after_plp(m: Machine) -> Machine {
    Machine { psw: m.top(), ..m.popped() }
}

/// RTI: the status byte is popped, then the program counter.
pub open spec fn after_rti(m: Machine) -> Machine {
    after_plp(m).pc_popped()
}

/// JSR: the program counter is pushed, then it moves to the address the
/// operand denotes.
pub open spec fn after_jsr(m: Machine, op: Operand) -> Machine {
    let s = m.pc_pushed();
    with_pc(s, pointer_of(op, s).unwrap())
}

/// PLA: the accumulator is popped, and Zero and Negative follow it.
pub open spec fn after_pla(m: Machine) -> Machine {
    after_accumulator(m.popped(), m.top())
}

/// Moves the program counter to the target of the `Relative` operand if
/// `taken`, and leaves the state as it is if not.
pub fn branch(state: &mut State, op: &Operand, taken: bool)
    requires
        *op is Relative,
    ensures
        final(state)@ == after_branch(old(state)@, *op, taken),
{
    if taken {
        state.pc = get_pointer(op, state).unwrap();
    }
}

/// BCC: branches if Carry is clear.
pub fn bcc(state: &mut State, op: &Operand)
    requires
        *op is Relative,
    ensures
        final(state)@ == after_branch(old(state)@, *op, !old(state)@.carry()),
{
    let taken: bool = !state.get_carry();
    branch(state, op, taken);
}

/// BCS: branches if Carry is set.
pub fn bcs(state: &mut State, op: &Operand)
    requires
        *op is Relative,
    ensures
        final(state)@ == after_branch(old(state)@, *op, old(state)@.carry()),
{
    let taken: bool = state.get_carry();
    branch(state, op, taken);
}

/// BEQ: branches if Zero is set.
pub fn beq(state: &mut State, op: &Operand)
    requires
        *op is Relative,
    ensures
        final(state)@ == after_branch(old(state)@, *op, old(state)@.zero()),
{
    let taken: bool = state.get_zero();
    branch(state, op, taken);
}

/// BNE: branches if Zero is clear.
pub fn bne(state: &mut State, op: &Operand)
    requires
        *op is Relative,
    ensures
        final(state)@ == after_branch(old(state)@, *op, !old(state)@.zero()),
{
    let taken: bool = !state.get_zero();
    branch(state, op, taken);
}

/// BMI: branches if Negative is set.
pub fn bmi(state: &mut State, op: &Operand)
    requires
        *op is Relative,
    ensures
        final(state)@ == after_branch(old(state)@, *op, old(state)@.negative()),
{
    let taken: bool = state.get_negative();
    branch(state, op, taken);
}

/// BPL: branches if Negative is clear.
pub fn bpl(state: &mut State, op: &Operand)
    requires
        *op is Relative,
    ensures
        final(state)@ == after_branch(old(state)@, *op, !old(state)@.negative()),
{
    let taken: bool = !state.get_negative();
    branch(state, op, taken);
}

/// BVC: branches if Overflow is clear.
pub fn bvc(state: &mut State, op: &Operand)
    requires
        *op is Relative,
    ensures
        final(state)@ == after_branch(old(state)@, *op, !old(state)@.overflow()),
{
    let taken: bool = !state.get_overflow();
    branch(state, op, taken);
}

/// BVS: branches if Overflow is set.
pub fn bvs(state: &mut State, op: &Operand)
    requires
        *op is Relative,
    ensures
        final(state)@ == after_branch(old(state)@, *op, old(state)@.overflow()),
{
    let taken: bool = state.get_overflow();
    branch(state, op, taken);
}

/// BIT: tests the operand against the accumulator, which stays as it is.
/// Zero says whether they share no bit; Negative and Overflow are bits 7 and
/// 6 of the operand.
pub fn bit(state: &mut State, op: &Operand)
    requires
        has_value(*op),
    ensures
        ({
            let m = old(state)@;
            let v = value_of(*op, m).unwrap();
            &&& final(state)@ == after_bit(m, v)
            &&& final(state)@.flags() == (Flags {
                zero: m.accumulator & v == 0,
                negative: negative8(v),
                overflow: bit6(v),
                ..m.flags()
            })
        }),
{
    let a: u8 = state.accumulator;
    let v: u8 = get_u8(op, state).unwrap();
    assert((v & 0x40 != 0) == ((v / 64) % 2 == 1)) by (bit_vector);
    state.set_zero(a & v == 0);
    state.set_negative(is_negative(v));
    state.set_overflow(v & 0x40 != 0);
}

/// BRK: pushes the program counter and the status byte, sets Break, and
/// loads the program counter from the interrupt vector at `0xFFFE`.
pub fn brk(state: &mut State, op: &Operand)
    requires
        *op is Implicit,
    ensures
        final(state)@ == after_brk(old(state)@),
        final(state)@.pc == old(state)@.ram16(BRK_VECTOR),
        final(state)@.sp == pred8(pred8(pred8(old(state)@.sp))),
        final(state)@.flags() == old(state)@.flags().with(PSW_BREAK_BIT, true),
{
    proof {
        lemma_brk(state@);
    }
    state.push_pc();
    let psw: u8 = state.psw;
    state.stack_push(psw);
    state.set_break(true);
    state.pc = get_pointer(&Operand::Indirect(BRK_VECTOR), state).unwrap();
}

/// RTI: pops the status byte, then the program counter.
pub fn rti(state: &mut State, op: &Operand)
    requires
        *op is Implicit,
    ensures
        final(state)@ == after_rti(old(state)@),
{
    state.psw = state.stack_pop();
    state.pop_pc();
}

/// CLC: clears Carry and changes nothing else. The operand is not looked at.
pub fn clc(state: &mut State, _op: &Operand)
    ensures
        final(state)@ == old(state)@.with_flag(PSW_CARRY_BIT, false),
        final(state)@.flags() == old(state)@.flags().with(PSW_CARRY_BIT, false),
{
    state.set_carry(false);
}

/// SEC: sets Carry and changes nothing else. The operand is not looked at.
pub fn sec(state: &mut State, _op: &Operand)
    ensures
        final(state)@ == old(state)@.with_flag(PSW_CARRY_BIT, true),
        final(state)@.flags() == old(state)@.flags().with(PSW_CARRY_BIT, true),
{
    state.set_carry(true);
}

/// CLI: clears Interrupt-disable and changes nothing else. The operand is not looked at.
pub fn cli(state: &mut State, _op: &Operand)
    ensures
        final(state)@ == old(state)@.with_flag(PSW_INTERRUPT_BIT, false),
        final(state)@.flags() == old(state)@.flags().with(PSW_INTERRUPT_BIT, false),
{
    state.set_interrupt(false);
}

/// SEI: sets Interrupt-disable and changes nothing else. The operand is not looked at.
pub fn sei(state: &mut State, _op: &Operand)
    ensures
        final(state)@ == old(state)@.with_flag(PSW_INTERRUPT_BIT, true),
        final(state)@.flags() == old(state)@.flags().with(PSW_INTERRUPT_BIT, true),
{
    state.set_interrupt(true);
}

/// CLV: clears Overflow and changes nothing else. The operand is not looked at.
pub fn clv(state: &mut State, _op: &Operand)
    ensures
        final(state)@ == old(state)@.with_flag(PSW_OVERFLOW_BIT, false),
        final(state)@.flags() == old(state)@.flags().with(PSW_OVERFLOW_BIT, false),
{
    state.set_overflow(false);
}

/// CLD: clears Decimal and changes nothing else. The operand is not looked at.
pub fn cld(state: &mut State, _op: &Operand)
    ensures
        final(state)@ == old(state)@.with_flag(PSW_DECIMAL_BIT, false),
        final(state)@.flags() == old(state)@.flags().with(PSW_DECIMAL_BIT, false),
{
    state.set_decimal(false);
}

/// SED: sets Decimal and changes nothing else. The operand is not looked at.
pub fn sed(state: &mut State, _op: &Operand)
    ensures
        final(state)@ == old(state)@.with_flag(PSW_DECIMAL_BIT, true),
        final(state)@.flags() == old(state)@.flags().with(PSW_DECIMAL_BIT, true),
{
    state.set_decimal(true);
}

/// JMP: moves the program counter to the address an `Absolute` or
/// `Indirect` operand denotes.
pub fn jmp(state: &mut State, op: &Operand)
    requires
        *op is Absolute || *op is Indirect,
    ensures
        final(state)@ == with_pc(old(state)@, pointer_of(*op, old(state)@).unwrap()),
{
    state.pc = get_pointer(op, state).unwrap();
}

/// JSR: pushes the program counter, then moves it to the address the operand
/// denotes.
pub fn jsr(state: &mut State, op: &Operand)
    requires
        addressable(*op),
    ensures
        final(state)@ == after_jsr(old(state)@, *op),
{
    state.push_pc();
    state.pc = get_pointer(op, state).unwrap();
}

/// RTS: pops the program counter. The operand is not looked at.
pub fn rts(state: &mut State, _op: &Operand)
    ensures
        final(state)@ == old(state)@.pc_popped(),
{
    state.pop_pc();
}

/// LDA: loads the accumulator with the operand; Zero and Negative follow it.
pub fn lda(state: &mut State, op: &Operand)
    requires
        has_value(*op),
    ensures
        ({
            let m = old(state)@;
            let v = value_of(*op, m).unwrap();
            &&& final(state)@ == after_accumulator(m, v)
            &&& final(state)@.flags() == flags_zn(m.flags(), v)
        }),
{
    let v: u8 = get_u8(op, state).unwrap();
    load_accumulator(state, v);
}

/// LDX: loads X with the operand; Zero and Negative follow it.
pub fn ldx(state: &mut State, op: &Operand)
    requires
        has_value(*op),
    ensures
        ({
            let m = old(state)@;
            let v = value_of(*op, m).unwrap();
            &&& final(state)@ == after_x(m, v)
            &&& final(state)@.flags() == flags_zn(m.flags(), v)
        }),
{
    let v: u8 = get_u8(op, state).unwrap();
    load_x(state, v);
}

/// LDY: loads Y with the operand; Zero and Negative follow it.
pub fn ldy(state: &mut State, op: &Operand)
    requires
        has_value(*op),
    ensures
        ({
            let m = old(state)@;
            let v = value_of(*op, m).unwrap();
            &&& final(state)@ == after_y(m, v)
            &&& final(state)@.flags() == flags_zn(m.flags(), v)
        }),
{
    let v: u8 = get_u8(op, state).unwrap();
    load_y(state, v);
}

/// Writes `r` to the byte of memory that `op` names.
fn store(state: &mut State, op: &Operand, r: u8)
    requires
        memory_target(*op),
    ensures
        final(state)@ == written(*op, r, old(state)@),
{
    match set_u8(op, r, state) {
        Ok(()) => {},
        Err(_) => {},
    }
}

/// STA: stores the accumulator at the address the operand denotes; no flag changes.
pub fn sta(state: &mut State, op: &Operand)
    requires
        memory_target(*op),
    ensures
        final(state)@ == written(*op, old(state)@.accumulator, old(state)@),
{
    let r: u8 = state.accumulator;
    store(state, op, r);
}

/// STX: stores X at the address the operand denotes; no flag changes.
pub fn stx(state: &mut State, op: &Operand)
    requires
        memory_target(*op),
    ensures
        final(state)@ == written(*op, old(state)@.x, old(state)@),
{
    let r: u8 = state.x;
    store(state, op, r);
}

/// STY: stores Y at the address the operand denotes; no flag changes.
pub fn sty(state: &mut State, op: &Operand)
    requires
        memory_target(*op),
    ensures
        final(state)@ == written(*op, old(state)@.y, old(state)@),
{
    let r: u8 = state.y;
    store(state, op, r);
}

/// TAX: copies the accumulator to X; Zero and Negative follow the copied
/// byte. The operand is not looked at.
pub fn tax(state: &mut State, _op: &Operand)
    ensures
        final(state)@ == after_x(old(state)@, old(state)@.accumulator),
        final(state)@.flags() == flags_zn(old(state)@.flags(), old(state)@.accumulator),
{
    let r: u8 = state.accumulator;
    load_x(state, r);
}

/// TXA: copies X to the accumulator; Zero and Negative follow the copied
/// byte. The operand is not looked at.
pub fn txa(state: &mut State, _op: &Operand)
    ensures
        final(state)@ == after_accumulator(old(state)@, old(state)@.x),
        final(state)@.flags() == flags_zn(old(state)@.flags(), old(state)@.x),
{
    let r: u8 = state.x;
    load_accumulator(state, r);
}

/// TAY: copies the accumulator to Y; Zero and Negative follow the copied
/// byte. The operand is not looked at.
pub fn tay(state: &mut State, _op: &Operand)
    ensures
        final(state)@ == after_y(old(state)@, old(state)@.accumulator),
        final(state)@.flags() == flags_zn(old(state)@.flags(), old(state)@.accumulator),
{
    let r: u8 = state.accumulator;
    load_y(state, r);
}

/// TYA: copies Y to the accumulator; Zero and Negative follow the copied
/// byte. The operand is not looked at.
pub fn tya(state: &mut State, _op: &Operand)
    ensures
        final(state)@ == after_accumulator(old(state)@, old(state)@.y),
        final(state)@.flags() == flags_zn(old(state)@.flags(), old(state)@.y),
{
    let r: u8 = state.y;
    load_accumulator(state, r);
}

/// TXS: copies X to the stack pointer; no flag changes. The operand is not
/// looked at.
pub fn txs(state: &mut State, _op: &Operand)
    ensures
        final(state)@ == (Machine { sp: old(state)@.x, ..old(state)@ }),
{
    state.sp = state.x;
}

/// TSX: copies the stack pointer to X; no flag changes. The operand is not
/// looked at.
pub fn tsx(state: &mut State, _op: &Operand)
    ensures
        final(state)@ == (Machine { x: old(state)@.sp, ..old(state)@ }),
{
    state.x = state.sp;
}

/// NOP: changes nothing.
pub fn nop(state: &mut State, _op: &Operand)
    ensures
        final(state)@ == old(state)@,
{
}

/// PHA: pushes the accumulator; no flag changes.
pub fn pha(state: &mut State, _op: &Operand)
    ensures
        final(state)@ == old(state)@.pushed(old(state)@.accumulator),
{
    let r: u8 = state.accumulator;
    state.stack_push(r);
}

/// PHP: pushes the status byte as it is; no flag changes.
pub fn php(state: &mut State, _op: &Operand)
    ensures
        final(state)@ == old(state)@.pushed(old(state)@.psw),
{
    let r: u8 = state.psw;
    state.stack_push(r);
}

/// PLA: pops the accumulator; Zero and Negative follow the popped byte.
pub fn pla(state: &mut State, _op: &Operand)
    ensures
        final(state)@ == after_pla(old(state)@),
        final(state)@.accumulator == old(state)@.top(),
        final(state)@.flags() == flags_zn(old(state)@.flags(), old(state)@.top()),
{
    let r: u8 = state.stack_pop();
    load_accumulator(state, r);
}

/// PLP: pops the status byte, all eight bits as they were pushed.
pub fn plp(state: &mut State, _op: &Operand)
    ensures
        final(state)@ == after_plp(old(state)@),
{
    state.psw = state.stack_pop();
}

/// Whether the operand has the shape the operation needs. An instruction
/// of any other shape is a defect of the decoder, and no operation is
/// defined on it.
pub open spec fn accepts(ty: InstructionType, op: Operand) -> bool {
    match ty {
        InstructionType::Adc | InstructionType::And | InstructionType::Ora
        | InstructionType::Eor | InstructionType::Sbc | InstructionType::Cmp
        | InstructionType::Cpx | InstructionType::Cpy | InstructionType::Bit
        | InstructionType::Lda | InstructionType::Ldx | InstructionType::Ldy => has_value(op),
        InstructionType::Asl | InstructionType::Lsr | InstructionType::Rol
        | InstructionType::Ror => writable(op),
        InstructionType::Inc | InstructionType::Dec | InstructionType::Sta
        | InstructionType::Stx | InstructionType::Sty => memory_target(op),
        InstructionType::Bpl | InstructionType::Bmi | InstructionType::Bvc
        | InstructionType::Bvs | InstructionType::Bcc | InstructionType::Bcs
        | InstructionType::Bne | InstructionType::Beq => op is Relative,
        InstructionType::Jmp => op is Absolute || op is Indirect,
        InstructionType::Jsr => addressable(op),
        InstructionType::Brk | InstructionType::Rti => op is Implicit,
        _ => true,
    }
}

/// The byte the operand of an accepted instruction denotes.
pub open spec fn operand_value(op: Operand, m: Machine) -> u8 {
    value_of(op, m).unwrap()
}

/// The address the operand of an accepted instruction denotes.
pub open spec fn operand_pointer(op: Operand, m: Machine) -> u16 {
    pointer_of(op, m).unwrap()
}

/// The machine after one instruction: what each operation does to the
/// registers, the flags and the memory.
pub open spec fn step(ty: InstructionType, op: Operand, m: Machine) -> Machine {
    let v = operand_value(op, m);
    let p = operand_pointer(op, m);
    match ty {
        InstructionType::Adc => after_adc(m, v),
        InstructionType::Sbc => after_sbc(m, v),
        InstructionType::And => after_accumulator(m, m.accumulator & v),
        InstructionType::Ora => after_accumulator(m, m.accumulator | v),
        InstructionType::Eor => after_accumulator(m, m.accumulator ^ v),
        InstructionType::Asl => after_shift(m, op, rol_value(v, false), negative8(v)),
        InstructionType::Lsr => after_shift(m, op, ror_value(v, false), low_bit(v)),
        InstructionType::Rol => after_shift(m, op, rol_value(v, m.carry()), negative8(v)),
        InstructionType::Ror => after_shift(m, op, ror_value(v, m.carry()), low_bit(v)),
        InstructionType::Inc => after_memory(m, p, succ8(m.ram(p))),
        InstructionType::Dec => after_memory(m, p, pred8(m.ram(p))),
        InstructionType::Inx => after_x(m, succ8(m.x)),
        InstructionType::Dex => after_x(m, pred8(m.x)),
        InstructionType::Iny => after_y(m, succ8(m.y)),
        InstructionType::Dey => after_y(m, pred8(m.y)),
        InstructionType::Cmp => after_compare(m, m.accumulator, v),
        InstructionType::Cpx => after_compare(m, m.x, v),
        InstructionType::Cpy => after_compare(m, m.y, v),
        InstructionType::Bit => after_bit(m, v),
        InstructionType::Bcc => after_branch(m, op, !m.carry()),
        InstructionType::Bcs => after_branch(m, op, m.carry()),
        InstructionType::Beq => after_branch(m, op, m.zero()),
        InstructionType::Bne => after_branch(m, op, !m.zero()),
        InstructionType::Bmi => after_branch(m, op, m.negative()),
        InstructionType::Bpl => after_branch(m, op, !m.negative()),
        InstructionType::Bvc => after_branch(m, op, !m.overflow()),
        InstructionType::Bvs => after_branch(m, op, m.overflow()),
        InstructionType::Brk => after_brk(m),
        InstructionType::Rti => after_rti(m),
        InstructionType::Clc => m.with_flag(PSW_CARRY_BIT, false),
        InstructionType::Sec => m.with_flag(PSW_CARRY_BIT, true),
        InstructionType::Cli => m.with_flag(PSW_INTERRUPT_BIT, false),
        InstructionType::Sei => m.with_flag(PSW_INTERRUPT_BIT, true),
        InstructionType::Clv => m.with_flag(PSW_OVERFLOW_BIT, false),
        InstructionType::Cld => m.with_flag(PSW_DECIMAL_BIT, false),
        InstructionType::Sed => m.with_flag(PSW_DECIMAL_BIT, true),
        InstructionType::Jmp => with_pc(m, p),
        InstructionType::Jsr => after_jsr(m, op),
        InstructionType::Rts => m.pc_popped(),
        InstructionType::Lda => after_accumulator(m, v),
        InstructionType::Ldx => after_x(m, v),
        InstructionType::Ldy => after_y(m, v),
        InstructionType::Sta => written(op, m.accumulator, m),
        InstructionType::Stx => written(op, m.x, m),
        InstructionType::Sty => written(op, m.y, m),
        InstructionType::Tax => after_x(m, m.accumulator),
        InstructionType::Txa => after_accumulator(m, m.x),
        InstructionType::Tay => after_y(m, m.accumulator),
        InstructionType::Tya => after_accumulator(m, m.y),
        InstructionType::Txs => Machine { sp: m.x, ..m },
        InstructionType::Tsx => Machine { x: m.sp, ..m },
        InstructionType::Pha => m.pushed(m.accumulator),
        InstructionType::Php => m.pushed(m.psw),
        InstructionType::Pla => after_pla(m),
        InstructionType::Plp => after_plp(m),
        InstructionType::Nop => m,
    }
}

/// Whether the operand of `instruction` has the shape its operation needs:
/// whether `execute` is defined on it.
pub fn is_well_formed(instruction: &Instruction) -> (r: bool)
    ensures
        r == accepts(instruction.kind(), instruction.arg()),
{
    let op = instruction.get_operand();
    match instruction.get_type() {
        InstructionType::Adc | InstructionType::And | InstructionType::Ora
        | InstructionType::Eor | InstructionType::Sbc | InstructionType::Cmp
        | InstructionType::Cpx | InstructionType::Cpy | InstructionType::Bit
        | InstructionType::Lda | InstructionType::Ldx | InstructionType::Ldy => has_u8(op),
        InstructionType::Asl | InstructionType::Lsr | InstructionType::Rol
        | InstructionType::Ror => is_writable(op),
        InstructionType::Inc | InstructionType::Dec | InstructionType::Sta
        | InstructionType::Stx | InstructionType::Sty => has_pointer(op) && is_writable(op),
        InstructionType::Bpl | InstructionType::Bmi | InstructionType::Bvc
        | InstructionType::Bvs | InstructionType::Bcc | InstructionType::Bcs
        | InstructionType::Bne | InstructionType::Beq => match op {
            Operand::Relative(_) => true,
            _ => false,
        },
        InstructionType::Jmp => match op {
            Operand::Absolute(_) | Operand::Indirect(_) => true,
            _ => false,
        },
        InstructionType::Jsr => has_pointer(op),
        InstructionType::Brk | InstructionType::Rti => match op {
            Operand::Implicit => true,
            _ => false,
        },
        _ => true,
    }
}

/// Performs one instruction on the state: routes it to the operation its
/// tag names.
pub fn execute(instruction: &Instruction, state: &mut State)
    requires
        accepts(instruction.kind(), instruction.arg()),
    ensures
        final(state)@ == step(instruction.kind(), instruction.arg(), old(state)@),
{
    let op = instruction.get_operand();
    match instruction.get_type() {
        InstructionType::Adc => alu::adc(state, op),
        InstructionType::And => alu::and(state, op),
        InstructionType::Asl => alu::asl(state, op),
        InstructionType::Bit => bit(state, op),
        InstructionType::Bpl => bpl(state, op),
        InstructionType::Bmi => bmi(state, op),
        InstructionType::Bvc => bvc(state, op),
        InstructionType::Bvs => bvs(state, op),
        InstructionType::Bcc => bcc(state, op),
        InstructionType::Bcs => bcs(state, op),
        InstructionType::Bne => bne(state, op),
        InstructionType::Beq => beq(state, op),
        InstructionType::Brk => brk(state, op),
        InstructionType::Cmp => alu::cmp(state, op),
        InstructionType::Cpx => alu::cpx(state, op),
        InstructionType::Cpy => alu::cpy(state, op),
        InstructionType::Dec => alu::dec(state, op),
        InstructionType::Eor => alu::eor(state, op),
        InstructionType::Clc => clc(state, op),
        InstructionType::Sec => sec(state, op),
        InstructionType::Cli => cli(state, op),
        InstructionType::Sei => sei(state, op),
        InstructionType::Clv => clv(state, op),
        InstructionType::Cld => cld(state, op),
        InstructionType::Sed => sed(state, op),
        InstructionType::Inc => alu::inc(state, op),
        InstructionType::Jmp => jmp(state, op),
        InstructionType::Jsr => jsr(state, op),
        InstructionType::Lda => lda(state, op),
        InstructionType::Ldx => ldx(state, op),
        InstructionType::Ldy => ldy(state, op),
        InstructionType::Lsr => alu::lsr(state, op),
        InstructionType::Nop => nop(state, op),
        InstructionType::Ora => alu::ora(state, op),
        InstructionType::Tax => tax(state, op),
        InstructionType::Txa => txa(state, op),
        InstructionType::Dex => alu::dex(state, op),
        InstructionType::Inx => alu::inx(state, op),
        InstructionType::Tay => tay(state, op),
        InstructionType::Tya => tya(state, op),
        InstructionType::Dey => alu::dey(state, op),
        InstructionType::Iny => alu::iny(state, op),
        InstructionType::Rol => alu::rol(state, op),
        InstructionType::Ror => alu::ror(state, op),
        InstructionType::Rti => rti(state, op),
        InstructionType::Rts => rts(state, op),
        InstructionType::Sbc => alu::sbc(state, op),
        InstructionType::Sta => sta(state, op),
        InstructionType::Txs => txs(state, op),
        InstructionType::Tsx => tsx(state, op),
        InstructionType::Pha => pha(state, op),
        InstructionType::Pla => pla(state, op),
        InstructionType::Php => php(state, op),
        InstructionType::Plp => plp(state, op),
        InstructionType::Stx => stx(state, op),
        InstructionType::Sty => sty(state, op),
    }
}

/// BRK leaves the program counter at the word the interrupt vector holds,
/// lowers the stack pointer by three, sets Break and changes no other flag.
pub proof fn lemma_brk(m: Machine)
    requires
        m.wf(),
    ensures
        after_brk(m).pc == m.ram16(BRK_VECTOR),
        after_brk(m).sp == pred8(pred8(pred8(m.sp))),
        after_brk(m).flags() == m.flags().with(PSW_BREAK_BIT, true),
        after_brk(m).wf(),
{
    let s = m.pc_pushed().pushed(m.psw);
    s.lemma_with_flag_flags(PSW_BREAK_BIT, true);
}

/// RTI is the inverse of BRK: it restores the program counter, the stack
/// pointer and the whole status byte, Break included, to what they were
/// before the BRK.
pub proof fn lemma_rti_inverts_brk(m: Machine)
    requires
        m.wf(),
    ensures
        after_rti(after_brk(m)).pc == m.pc,
        after_rti(after_brk(m)).sp == m.sp,
        after_rti(after_brk(m)).psw == m.psw,
        after_rti(after_brk(m)).accumulator == m.accumulator,
        after_rti(after_brk(m)).x == m.x,
        after_rti(after_brk(m)).y == m.y,
{
    let a = m.pushed(high_byte(m.pc));
    let b = a.pushed(low_byte(m.pc));
    let c = b.pushed(m.psw);
    m.lemma_push_pop(high_byte(m.pc));
    a.lemma_push_pop(low_byte(m.pc));
    b.lemma_push_pop(m.psw);
    let d = after_brk(m);
    assert(d.memory == c.memory);
    assert(d.sp == c.sp);
    assert(d.top() == m.psw);
    let e = after_plp(d);
    assert(e.sp == b.sp);
    assert(e.top() == low_byte(m.pc));
    assert(e.popped().sp == a.sp);
    assert(e.popped().top() == high_byte(m.pc));
}

/// RTS is the inverse of JSR: it restores the program counter and the stack
/// pointer to what they were before the JSR.
pub proof fn lemma_rts_inverts_jsr(m: Machine, op: Operand)
    requires
        m.wf(),
    ensures
        after_jsr(m, op).pc_popped().pc == m.pc,
        after_jsr(m, op).pc_popped().sp == m.sp,
{
    let a = m.pushed(high_byte(m.pc));
    let b = a.pushed(low_byte(m.pc));
    m.lemma_push_pop(high_byte(m.pc));
    a.lemma_push_pop(low_byte(m.pc));
    let d = after_jsr(m, op);
    assert(d.memory == b.memory);
    assert(d.sp == b.sp);
    assert(d.top() == low_byte(m.pc));
    assert(d.popped().sp == a.sp);
    assert(d.popped().top() == high_byte(m.pc));
}

/// A branch that is taken moves the program counter by the signed offset,
/// within sixteen bits; one that is not taken changes nothing.
pub proof fn lemma_branch(m: Machine, offset: i8, taken: bool)
    ensures
        after_branch(m, Operand::Relative(offset), taken) == (if taken {
            with_pc(m, add16(m.pc, offset as int))
        } else {
            m
        }),
        0 <= m.pc + offset < 65536 ==> add16(m.pc, offset as int) == m.pc + offset,
        m.pc + offset < 0 ==> add16(m.pc, offset as int) == m.pc + offset + 65536,
        m.pc + offset >= 65536 ==> add16(m.pc, offset as int) == m.pc + offset - 65536,
{
}

/// Only PLP and RTI, which restore the whole status byte from the stack,
/// can change its hardwired bit: every other instruction leaves it as it is.
pub proof fn lemma_step_keeps_hardwired_bit(ty: InstructionType, op: Operand, m: Machine)
    requires
        ty != InstructionType::Plp,
        ty != InstructionType::Rti,
    ensures
        step(ty, op, m).flags().one == m.flags().one,
{
    let v = operand_value(op, m);
    let p = operand_pointer(op, m);
    let a = m.accumulator;
    let c = m.carry();
    match ty {
        InstructionType::Adc => {
            lemma_with_cvzn(
                with_accumulator(m, adc_value(a, v, c)),
                adc_carry(a, v, c),
                add_overflow(a, v, c),
                adc_value(a, v, c),
            );
        },
        InstructionType::Sbc => {
            lemma_with_cvzn(
                with_accumulator(m, sbc_value(a, v, c)),
                sbc_carry(a, v, c),
                sub_overflow(a, v, c),
                sbc_value(a, v, c),
            );
        },
        InstructionType::And => lemma_with_zn(with_accumulator(m, a & v), a & v),
        InstructionType::Ora => lemma_with_zn(with_accumulator(m, a | v), a | v),
        InstructionType::Eor => lemma_with_zn(with_accumulator(m, a ^ v), a ^ v),
        InstructionType::Asl => lemma_with_czn(
            written(op, rol_value(v, false), m),
            negative8(v),
            rol_value(v, false),
        ),
        InstructionType::Lsr => lemma_with_czn(
            written(op, ror_value(v, false), m),
            low_bit(v),
            ror_value(v, false),
        ),
        InstructionType::Rol => lemma_with_czn(
            written(op, rol_value(v, c), m),
            negative8(v),
            rol_value(v, c),
        ),
        InstructionType::Ror => lemma_with_czn(
            written(op, ror_value(v, c), m),
            low_bit(v),
            ror_value(v, c),
        ),
        InstructionType::Inc => lemma_with_zn(m.with_ram(p, succ8(m.ram(p))), succ8(m.ram(p))),
        InstructionType::Dec => lemma_with_zn(m.with_ram(p, pred8(m.ram(p))), pred8(m.ram(p))),
        InstructionType::Inx => lemma_with_zn(with_x(m, succ8(m.x)), succ8(m.x)),
        InstructionType::Dex => lemma_with_zn(with_x(m, pred8(m.x)), pred8(m.x)),
        InstructionType::Iny => lemma_with_zn(with_y(m, succ8(m.y)), succ8(m.y)),
        InstructionType::Dey => lemma_with_zn(with_y(m, pred8(m.y)), pred8(m.y)),
        InstructionType::Cmp => lemma_with_czn(m, a >= v, sub8(a, v)),
        InstructionType::Cpx => lemma_with_czn(m, m.x >= v, sub8(m.x, v)),
        InstructionType::Cpy => lemma_with_czn(m, m.y >= v, sub8(m.y, v)),
        InstructionType::Bit => {
            let s = m.with_flag(PSW_ZERO_BIT, a & v == 0);
            m.lemma_with_flag_flags(PSW_ZERO_BIT, a & v == 0);
            s.lemma_with_flag_flags(PSW_NEGATIVE_BIT, negative8(v));
            s.with_flag(PSW_NEGATIVE_BIT, negative8(v)).lemma_with_flag_flags(
                PSW_OVERFLOW_BIT,
                bit6(v),
            );
        },
        InstructionType::Brk => {
            m.pc_pushed().pushed(m.psw).lemma_with_flag_flags(PSW_BREAK_BIT, true);
        },
        InstructionType::Clc => m.lemma_with_flag_flags(PSW_CARRY_BIT, false),
        InstructionType::Sec => m.lemma_with_flag_flags(PSW_CARRY_BIT, true),
        InstructionType::Cli => m.lemma_with_flag_flags(PSW_INTERRUPT_BIT, false),
        InstructionType::Sei => m.lemma_with_flag_flags(PSW_INTERRUPT_BIT, true),
        InstructionType::Clv => m.lemma_with_flag_flags(PSW_OVERFLOW_BIT, false),
        InstructionType::Cld => m.lemma_with_flag_flags(PSW_DECIMAL_BIT, false),
        InstructionType::Sed => m.lemma_with_flag_flags(PSW_DECIMAL_BIT, true),
        InstructionType::Lda => lemma_with_zn(with_accumulator(m, v), v),
        InstructionType::Ldx => lemma_with_zn(with_x(m, v), v),
        InstructionType::Ldy => lemma_with_zn(with_y(m, v), v),
        InstructionType::Tax => lemma_with_zn(with_x(m, a), a),
        InstructionType::Txa => lemma_with_zn(with_accumulator(m, m.x), m.x),
        InstructionType::Tay => lemma_with_zn(with_y(m, a), a),
        InstructionType::Tya => lemma_with_zn(with_accumulator(m, m.y), m.y),
        InstructionType::Pla => lemma_with_zn(with_accumulator(m.popped(), m.top()), m.top()),
        _ => {},
    }
}

/// ADC and SBC never consult Decimal: with the flag set or cleared
/// beforehand they give the same accumulator and the same Carry.
pub proof fn lemma_arithmetic_ignores_decimal(m: Machine, b: u8, d: bool)
    ensures
        after_adc(m.with_flag(PSW_DECIMAL_BIT, d), b).accumulator == after_adc(m, b).accumulator,
        after_sbc(m.with_flag(PSW_DECIMAL_BIT, d), b).accumulator == after_sbc(m, b).accumulator,
        after_adc(m.with_flag(PSW_DECIMAL_BIT, d), b).carry() == after_adc(m, b).carry(),
        after_sbc(m.with_flag(PSW_DECIMAL_BIT, d), b).carry() == after_sbc(m, b).carry(),
{
    let n = m.with_flag(PSW_DECIMAL_BIT, d);
    m.lemma_with_flag_flags(PSW_DECIMAL_BIT, d);
    assert(n.carry() == m.carry());
    let a = m.accumulator;
    let c = m.carry();
    lemma_with_cvzn(
        with_accumulator(m, adc_value(a, b, c)),
        adc_carry(a, b, c),
        add_overflow(a, b, c),
        adc_value(a, b, c),
    );
    lemma_with_cvzn(
        with_accumulator(n, adc_value(a, b, c)),
        adc_carry(a, b, c),
        add_overflow(a, b, c),
        adc_value(a, b, c),
    );
    lemma_with_cvzn(
        with_accumulator(m, sbc_value(a, b, c)),
        sbc_carry(a, b, c),
        sub_overflow(a, b, c),
        sbc_value(a, b, c),
    );
    lemma_with_cvzn(
        with_accumulator(n, sbc_value(a, b, c)),
        sbc_carry(a, b, c),
        sub_overflow(a, b, c),
        sbc_value(a, b, c),
    );
}

} // verus!
