use cpu6502::instruction::instruction::Instruction;
use cpu6502::instruction::instruction_type::InstructionType;
use cpu6502::instruction::operand::Operand;
use cpu6502::interp::execution::{
    bcc, bcs, beq, bit, bmi, bne, bpl, brk, bvc, bvs, clc, cld, cli, clv, execute,
    is_well_formed, jmp, jsr, lda, ldx, ldy, nop, pha, php, pla, plp, rti, rts, sec, sed, sei,
    sta, stx, sty, tax, tay, tsx, txa, txs, tya,
};
use cpu6502::interp::state::State;

#[test]
fn test_bcc_carry_not_clear() {
    let mut state = State::new_undefined();
    state.pc = 0;
    state.set_carry(true);
    let op = Operand::Relative(100);
    bcc(&mut state, &op);

    assert_eq!(state.pc, 0);
}

#[test]
fn test_bcc_carry_clear() {
    let mut state = State::new_undefined();
    state.pc = 0;
    state.set_carry(false);
    let op = Operand::Relative(100);
    bcc(&mut state, &op);

    assert_eq!(state.pc, 100);
}

#[test]
fn test_bit_zeros() {
    let mut state = State::new_undefined();
    state.accumulator = 0;
    state.set_negative(true);
    state.set_overflow(true);

    let op = Operand::Immediate(0xFF);
    bit(&mut state, &op);

    // Negative and Overflow are bits 7 and 6 of the operand, whatever the
    // accumulator holds; Zero says that the two share no bit
    assert!(state.get_overflow());
    assert!(state.get_negative());
    assert!(state.get_zero());
    assert_eq!(state.accumulator, 0);
}

#[test]
fn test_bit_ones() {
    let mut state = State::new_undefined();
    state.accumulator = 0xFF;
    state.set_negative(false);
    state.set_overflow(false);

    let op = Operand::Immediate(0xFF);
    bit(&mut state, &op);

    assert!(state.get_overflow());
    assert!(state.get_negative());
    assert!(!state.get_zero());
}

#[test]
fn test_bit_mixed_7() {
    let mut state = State::new_undefined();

    state.accumulator = 0b1000_0000;

    state.set_negative(false);
    state.set_overflow(true);

    let op = Operand::Immediate(0xFF);
    bit(&mut state, &op);

    // bit 6 of the operand is set, though the accumulator does not hold it
    assert!(state.get_overflow());
    assert!(state.get_negative());
    assert!(!state.get_zero());
}

#[test]
fn test_bit_mixed_6() {
    let mut state = State::new_undefined();

    state.accumulator = 0b0100_0000;

    state.set_negative(true);
    state.set_overflow(false);

    let op = Operand::Immediate(0xFF);
    bit(&mut state, &op);

    // bit 7 of the operand is set, though the accumulator does not hold it
    assert!(state.get_overflow());
    assert!(state.get_negative());
    assert!(!state.get_zero());
}

#[test]
fn bit_takes_flags_from_operand_bits() {
    let mut state = State::new_undefined();
    state.accumulator = 0xFF;
    state.set_negative(true);
    state.set_overflow(true);
    bit(&mut state, &Operand::Immediate(0x3F));
    assert!(!state.get_overflow());
    assert!(!state.get_negative());
    assert!(!state.get_zero());

    bit(&mut state, &Operand::Immediate(0x40));
    assert!(state.get_overflow());
    assert!(!state.get_negative());

    bit(&mut state, &Operand::Immediate(0x80));
    assert!(!state.get_overflow());
    assert!(state.get_negative());

    state.accumulator = 0x0F;
    state.ram_set(0x0020, 0xF0);
    bit(&mut state, &Operand::ZeroPage(0x20));
    assert!(state.get_zero());
    assert!(state.get_overflow());
    assert!(state.get_negative());
    assert_eq!(state.accumulator, 0x0F);
}

#[test]
fn bcc_wraps_below_zero() {
    let mut state = State::new_undefined();
    state.pc = 0;
    state.set_carry(false);
    bcc(&mut state, &Operand::Relative(-5));
    assert_eq!(state.pc, 0xFFFB);
}

#[test]
fn each_branch_tests_its_flag() {
    let op = Operand::Relative(0x10);
    let mut state = State::new_undefined();

    state.pc = 0x100;
    state.set_carry(true);
    bcs(&mut state, &op);
    assert_eq!(state.pc, 0x110);
    state.set_carry(false);
    bcs(&mut state, &op);
    assert_eq!(state.pc, 0x110);

    state.set_zero(true);
    beq(&mut state, &op);
    assert_eq!(state.pc, 0x120);
    bne(&mut state, &op);
    assert_eq!(state.pc, 0x120);
    state.set_zero(false);
    bne(&mut state, &op);
    assert_eq!(state.pc, 0x130);
    beq(&mut state, &op);
    assert_eq!(state.pc, 0x130);

    state.set_negative(true);
    bmi(&mut state, &op);
    assert_eq!(state.pc, 0x140);
    bpl(&mut state, &op);
    assert_eq!(state.pc, 0x140);
    state.set_negative(false);
    bpl(&mut state, &op);
    assert_eq!(state.pc, 0x150);
    bmi(&mut state, &op);
    assert_eq!(state.pc, 0x150);

    state.set_overflow(true);
    bvs(&mut state, &op);
    assert_eq!(state.pc, 0x160);
    bvc(&mut state, &op);
    assert_eq!(state.pc, 0x160);
    state.set_overflow(false);
    bvc(&mut state, &op);
    assert_eq!(state.pc, 0x170);
    bvs(&mut state, &op);
    assert_eq!(state.pc, 0x170);
}

#[test]
fn branch_wraps_above_the_top() {
    let mut state = State::new_undefined();
    state.pc = 0xFFF0;
    state.set_zero(true);
    beq(&mut state, &Operand::Relative(0x20));
    assert_eq!(state.pc, 0x0010);
}

#[test]
fn brk_pushes_and_jumps_through_the_vector() {
    let mut state = State::new_undefined();
    state.sp = 0xFF;
    state.pc = 0x1234;
    state.set_carry(true);
    state.ram_set(0xFFFE, 0x00);
    state.ram_set(0xFFFF, 0x80);
    brk(&mut state, &Operand::Implicit);
    assert_eq!(state.pc, 0x8000);
    assert_eq!(state.sp, 0xFC);
    assert_eq!(state.ram_get(0x01FF), 0x12);
    assert_eq!(state.ram_get(0x01FE), 0x34);
    // the status byte goes to the stack as it was before Break is set
    assert_eq!(state.ram_get(0x01FD), 0x21);
    assert!(state.get_break());
    assert_eq!(state.psw, 0x31);
}

#[test]
fn rti_undoes_brk() {
    let mut state = State::new_undefined();
    state.sp = 0x80;
    state.pc = 0xABCD;
    state.set_negative(true);
    state.set_zero(true);
    state.ram_set(0xFFFE, 0x10);
    state.ram_set(0xFFFF, 0x20);
    let psw = state.psw;
    brk(&mut state, &Operand::Implicit);
    assert_eq!(state.pc, 0x2010);
    rti(&mut state, &Operand::Implicit);
    assert_eq!(state.pc, 0xABCD);
    assert_eq!(state.sp, 0x80);
    assert_eq!(state.psw, psw);
    assert!(!state.get_break());
}

#[test]
fn rti_restores_status_then_counter() {
    let mut state = State::new_undefined();
    state.sp = 0x10;
    state.ram_set(0x0111, 0xC3);
    state.ram_set(0x0112, 0x78);
    state.ram_set(0x0113, 0x56);
    rti(&mut state, &Operand::Implicit);
    assert_eq!(state.psw, 0xC3);
    assert_eq!(state.pc, 0x5678);
    assert_eq!(state.sp, 0x13);
}

#[test]
fn flag_instructions_touch_one_flag() {
    let mut state = State::new_undefined();
    let op = Operand::Implicit;
    sec(&mut state, &op);
    assert_eq!(state.psw, 0x21);
    sei(&mut state, &op);
    assert_eq!(state.psw, 0x25);
    sed(&mut state, &op);
    assert_eq!(state.psw, 0x2D);
    state.set_overflow(true);
    assert_eq!(state.psw, 0x6D);
    clv(&mut state, &op);
    assert_eq!(state.psw, 0x2D);
    clc(&mut state, &op);
    assert_eq!(state.psw, 0x2C);
    cli(&mut state, &op);
    assert_eq!(state.psw, 0x28);
    cld(&mut state, &op);
    assert_eq!(state.psw, 0x20);
}

#[test]
fn jmp_absolute_and_indirect() {
    let mut state = State::new_undefined();
    state.sp = 0x40;
    jmp(&mut state, &Operand::Absolute(0x4321));
    assert_eq!(state.pc, 0x4321);
    state.ram_set(0x0300, 0x78);
    state.ram_set(0x0301, 0x56);
    jmp(&mut state, &Operand::Indirect(0x0300));
    assert_eq!(state.pc, 0x5678);
    assert_eq!(state.sp, 0x40);
}

#[test]
fn jsr_then_rts() {
    let mut state = State::new_undefined();
    state.sp = 0xFF;
    state.pc = 0x0602;
    jsr(&mut state, &Operand::Absolute(0x9000));
    assert_eq!(state.pc, 0x9000);
    assert_eq!(state.sp, 0xFD);
    assert_eq!(state.ram_get(0x01FF), 0x06);
    assert_eq!(state.ram_get(0x01FE), 0x02);
    rts(&mut state, &Operand::Implicit);
    assert_eq!(state.pc, 0x0602);
    assert_eq!(state.sp, 0xFF);
}

#[test]
fn loads_set_zero_and_negative() {
    let mut state = State::new_undefined();
    state.set_carry(true);
    lda(&mut state, &Operand::Immediate(0x00));
    assert_eq!(state.accumulator, 0);
    assert!(state.get_zero());
    assert!(!state.get_negative());
    ldx(&mut state, &Operand::Immediate(0x80));
    assert_eq!(state.x, 0x80);
    assert!(!state.get_zero());
    assert!(state.get_negative());
    state.ram_set(0x0080, 0x7F);
    ldy(&mut state, &Operand::ZeroPageX(0x00));
    assert_eq!(state.y, 0x7F);
    assert!(!state.get_zero());
    assert!(!state.get_negative());
    assert!(state.get_carry());
}

#[test]
fn stores_leave_flags() {
    let mut state = State::new_undefined();
    state.accumulator = 0x00;
    state.x = 0x80;
    state.y = 0x01;
    sta(&mut state, &Operand::Absolute(0x0400));
    stx(&mut state, &Operand::ZeroPage(0x10));
    sty(&mut state, &Operand::ZeroPageX(0x10));
    assert_eq!(state.ram_get(0x0400), 0x00);
    assert_eq!(state.ram_get(0x0010), 0x80);
    assert_eq!(state.ram_get(0x0090), 0x01);
    assert_eq!(state.psw, 0x20);
}

#[test]
fn transfers_set_flags_but_not_through_the_stack_pointer() {
    let mut state = State::new_undefined();
    let op = Operand::Implicit;
    state.accumulator = 0x80;
    tax(&mut state, &op);
    assert_eq!(state.x, 0x80);
    assert!(state.get_negative());
    state.accumulator = 0x00;
    tay(&mut state, &op);
    assert_eq!(state.y, 0x00);
    assert!(state.get_zero());
    assert!(!state.get_negative());
    txa(&mut state, &op);
    assert_eq!(state.accumulator, 0x80);
    assert!(state.get_negative());
    assert!(!state.get_zero());
    tya(&mut state, &op);
    assert_eq!(state.accumulator, 0x00);
    assert!(state.get_zero());

    let psw = state.psw;
    state.x = 0x00;
    txs(&mut state, &op);
    assert_eq!(state.sp, 0x00);
    assert_eq!(state.psw, psw);
    state.sp = 0xF0;
    state.set_zero(true);
    state.set_negative(false);
    let psw = state.psw;
    tsx(&mut state, &op);
    assert_eq!(state.x, 0xF0);
    assert_eq!(state.psw, psw);
}

#[test]
fn stack_instructions() {
    let mut state = State::new_undefined();
    let op = Operand::Implicit;
    state.sp = 0xFF;
    state.accumulator = 0x80;
    pha(&mut state, &op);
    assert_eq!(state.ram_get(0x01FF), 0x80);
    assert_eq!(state.psw, 0x20);
    state.set_carry(true);
    php(&mut state, &op);
    assert_eq!(state.ram_get(0x01FE), 0x21);
    assert_eq!(state.sp, 0xFD);

    state.set_carry(false);
    state.set_overflow(true);
    plp(&mut state, &op);
    assert_eq!(state.psw, 0x21);
    state.accumulator = 0;
    pla(&mut state, &op);
    assert_eq!(state.accumulator, 0x80);
    assert!(state.get_negative());
    assert!(!state.get_zero());
    assert!(state.get_carry());
    assert_eq!(state.sp, 0xFF);
}

#[test]
fn plp_restores_the_byte_verbatim() {
    let mut state = State::new_undefined();
    let op = Operand::Implicit;
    state.sp = 0x20;
    state.ram_set(0x0121, 0x00);
    plp(&mut state, &op);
    assert_eq!(state.psw, 0x00);
    state.ram_set(0x0122, 0xFF);
    plp(&mut state, &op);
    assert_eq!(state.psw, 0xFF);
}

#[test]
fn pla_of_zero_sets_zero() {
    let mut state = State::new_undefined();
    state.sp = 0x20;
    state.accumulator = 0x55;
    pla(&mut state, &Operand::Implicit);
    assert_eq!(state.accumulator, 0x00);
    assert!(state.get_zero());
    assert!(!state.get_negative());
}

#[test]
fn nop_changes_nothing() {
    let mut state = State::new_undefined();
    state.pc = 0x1111;
    state.sp = 0x22;
    state.accumulator = 0x33;
    state.x = 0x44;
    state.y = 0x55;
    state.psw = 0xE3;
    nop(&mut state, &Operand::Implicit);
    assert_eq!(state.pc, 0x1111);
    assert_eq!(state.sp, 0x22);
    assert_eq!(state.accumulator, 0x33);
    assert_eq!(state.x, 0x44);
    assert_eq!(state.y, 0x55);
    assert_eq!(state.psw, 0xE3);
}

#[test]
fn instruction_accessors() {
    let i = Instruction::without_operand(InstructionType::Nop);
    assert!(matches!(i.get_type(), InstructionType::Nop));
    assert_eq!(*i.get_operand(), Operand::Implicit);
    let j = Instruction::with_operand(InstructionType::Lda, Operand::Immediate(7));
    assert_eq!(j.get_type(), InstructionType::Lda);
    assert_eq!(*j.get_operand(), Operand::Immediate(7));
}

#[test]
fn well_formed_instructions() {
    let ok = [
        Instruction::with_operand(InstructionType::Adc, Operand::Immediate(1)),
        Instruction::with_operand(InstructionType::Asl, Operand::Accumulator),
        Instruction::with_operand(InstructionType::Inc, Operand::ZeroPage(1)),
        Instruction::with_operand(InstructionType::Sta, Operand::AbsoluteX(1)),
        Instruction::with_operand(InstructionType::Beq, Operand::Relative(1)),
        Instruction::with_operand(InstructionType::Jmp, Operand::Indirect(1)),
        Instruction::with_operand(InstructionType::Jsr, Operand::Absolute(1)),
        Instruction::without_operand(InstructionType::Brk),
        Instruction::without_operand(InstructionType::Rti),
        Instruction::without_operand(InstructionType::Nop),
        Instruction::without_operand(InstructionType::Inx),
    ];
    for i in ok.iter() {
        assert!(is_well_formed(i));
    }
    let bad = [
        Instruction::without_operand(InstructionType::Adc),
        Instruction::without_operand(InstructionType::Cmp),
        Instruction::with_operand(InstructionType::Asl, Operand::Immediate(1)),
        Instruction::with_operand(InstructionType::Ror, Operand::Relative(1)),
        Instruction::with_operand(InstructionType::Inc, Operand::Accumulator),
        Instruction::with_operand(InstructionType::Sta, Operand::Immediate(1)),
        Instruction::with_operand(InstructionType::Stx, Operand::Relative(1)),
        Instruction::with_operand(InstructionType::Beq, Operand::Absolute(1)),
        Instruction::with_operand(InstructionType::Jmp, Operand::ZeroPage(1)),
        Instruction::without_operand(InstructionType::Jsr),
        Instruction::with_operand(InstructionType::Brk, Operand::Immediate(1)),
        Instruction::with_operand(InstructionType::Rti, Operand::Accumulator),
    ];
    for i in bad.iter() {
        assert!(!is_well_formed(i));
    }
}

#[test]
fn execute_routes_by_operation() {
    let mut state = State::new_undefined();
    state.sp = 0xFF;
    let program = [
        Instruction::with_operand(InstructionType::Lda, Operand::Immediate(0x7F)),
        Instruction::without_operand(InstructionType::Clc),
        Instruction::with_operand(InstructionType::Adc, Operand::Immediate(0x01)),
        Instruction::with_operand(InstructionType::Sta, Operand::Absolute(0x0200)),
        Instruction::without_operand(InstructionType::Tax),
        Instruction::without_operand(InstructionType::Inx),
        Instruction::with_operand(InstructionType::Asl, Operand::Absolute(0x0200)),
        Instruction::without_operand(InstructionType::Pha),
        Instruction::with_operand(InstructionType::Cpx, Operand::Immediate(0x81)),
    ];
    for i in program.iter() {
        assert!(is_well_formed(i));
        execute(i, &mut state);
    }
    assert_eq!(state.accumulator, 0x80);
    assert_eq!(state.x, 0x81);
    assert_eq!(state.ram_get(0x0200), 0x00);
    assert_eq!(state.ram_get(0x01FF), 0x80);
    assert_eq!(state.sp, 0xFE);
    assert!(state.get_zero());
    assert!(state.get_carry());
    assert!(!state.get_negative());
    assert!(state.get_overflow());
}

#[test]
fn execute_every_operation_once() {
    let all = [
        (InstructionType::Adc, Operand::Immediate(1)),
        (InstructionType::And, Operand::Immediate(1)),
        (InstructionType::Asl, Operand::Accumulator),
        (InstructionType::Bit, Operand::Immediate(1)),
        (InstructionType::Bpl, Operand::Relative(1)),
        (InstructionType::Bmi, Operand::Relative(1)),
        (InstructionType::Bvc, Operand::Relative(1)),
        (InstructionType::Bvs, Operand::Relative(1)),
        (InstructionType::Bcc, Operand::Relative(1)),
        (InstructionType::Bcs, Operand::Relative(1)),
        (InstructionType::Bne, Operand::Relative(1)),
        (InstructionType::Beq, Operand::Relative(1)),
        (InstructionType::Brk, Operand::Implicit),
        (InstructionType::Cmp, Operand::Immediate(1)),
        (InstructionType::Cpx, Operand::Immediate(1)),
        (InstructionType::Cpy, Operand::Immediate(1)),
        (InstructionType::Dec, Operand::ZeroPage(1)),
        (InstructionType::Eor, Operand::Immediate(1)),
        (InstructionType::Clc, Operand::Implicit),
        (InstructionType::Sec, Operand::Implicit),
        (InstructionType::Cli, Operand::Implicit),
        (InstructionType::Sei, Operand::Implicit),
        (InstructionType::Clv, Operand::Implicit),
        (InstructionType::Cld, Operand::Implicit),
        (InstructionType::Sed, Operand::Implicit),
        (InstructionType::Inc, Operand::ZeroPage(1)),
        (InstructionType::Jmp, Operand::Absolute(1)),
        (InstructionType::Jsr, Operand::Absolute(1)),
        (InstructionType::Lda, Operand::Immediate(1)),
        (InstructionType::Ldx, Operand::Immediate(1)),
        (InstructionType::Ldy, Operand::Immediate(1)),
        (InstructionType::Lsr, Operand::Accumulator),
        (InstructionType::Nop, Operand::Implicit),
        (InstructionType::Ora, Operand::Immediate(1)),
        (InstructionType::Tax, Operand::Implicit),
        (InstructionType::Txa, Operand::Implicit),
        (InstructionType::Dex, Operand::Implicit),
        (InstructionType::Inx, Operand::Implicit),
        (InstructionType::Tay, Operand::Implicit),
        (InstructionType::Tya, Operand::Implicit),
        (InstructionType::Dey, Operand::Implicit),
        (InstructionType::Iny, Operand::Implicit),
        (InstructionType::Rol, Operand::Accumulator),
        (InstructionType::Ror, Operand::Accumulator),
        (InstructionType::Rti, Operand::Implicit),
        (InstructionType::Rts, Operand::Implicit),
        (InstructionType::Sbc, Operand::Immediate(1)),
        (InstructionType::Sta, Operand::ZeroPage(1)),
        (InstructionType::Txs, Operand::Implicit),
        (InstructionType::Tsx, Operand::Implicit),
        (InstructionType::Pha, Operand::Implicit),
        (InstructionType::Pla, Operand::Implicit),
        (InstructionType::Php, Operand::Implicit),
        (InstructionType::Plp, Operand::Implicit),
        (InstructionType::Stx, Operand::ZeroPage(1)),
        (InstructionType::Sty, Operand::ZeroPage(1)),
    ];
    assert_eq!(all.len(), 56);
    let mut state = State::new_undefined();
    for (ty, op) in all {
        let i = Instruction::with_operand(ty, op);
        assert!(is_well_formed(&i));
        execute(&i, &mut state);
    }
}

#[test]
fn execute_clv_clears_overflow_only() {
    let mut state = State::new_undefined();
    state.psw = 0xFF;
    execute(&Instruction::without_operand(InstructionType::Clv), &mut state);
    assert_eq!(state.psw, 0xBF);
}

#[test]
fn execute_is_deterministic() {
    let program = [
        Instruction::with_operand(InstructionType::Lda, Operand::Immediate(0xC8)),
        Instruction::with_operand(InstructionType::Adc, Operand::Immediate(0x64)),
        Instruction::with_operand(InstructionType::Sta, Operand::ZeroPage(0x40)),
        Instruction::with_operand(InstructionType::Ror, Operand::ZeroPage(0x40)),
        Instruction::without_operand(InstructionType::Php),
    ];
    let mut one = State::new_undefined();
    let mut two = State::new_undefined();
    for i in program.iter() {
        execute(i, &mut one);
    }
    for i in program.iter() {
        execute(i, &mut two);
    }
    assert_eq!(one.accumulator, two.accumulator);
    assert_eq!(one.psw, two.psw);
    assert_eq!(one.sp, two.sp);
    assert_eq!(one.ram_get(0x40), two.ram_get(0x40));
    assert_eq!(one.ram_get(0x0100), two.ram_get(0x0100));
    assert_eq!(one.accumulator, 0x2C);
    assert_eq!(one.ram_get(0x40), 0x96);
}
