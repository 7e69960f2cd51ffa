use crate::instruction::operand::Operand;
use crate::interp::operand_decoder::{
    get_pointer, get_u8, has_value, memory_target, pointer_of, set_u8, value_of, writable, written,
};
use crate::interp::state::{
    low_byte_of, pred8, succ8, Flags, Machine, State, PSW_CARRY_BIT, PSW_NEGATIVE_BIT,
    PSW_OVERFLOW_BIT, PSW_ZERO_BIT,
};
use vstd::prelude::*;

verus! {

/// Whether `a`, read as an 8-bit two's-complement integer, is below zero:
/// whether its high bit is set.
pub open spec fn negative8(a: u8) -> bool {
    a >= 0x80
}

/// The integer that `a` stands for in 8-bit two's complement.
pub open spec fn signed8(a: u8) -> int {
    if a >= 0x80 {
        a - 256
    } else {
        a as int
    }
}

/// One for a set carry, zero for a clear one.
pub open spec fn bit(carry: bool) -> int {
    if carry {
        1
    } else {
        0
    }
}

/// The unsigned sum `a + b + carry`, not yet cut to eight bits.
pub open spec fn adc_total(a: u8, b: u8, carry: bool) -> int {
    a + b + bit(carry)
}

/// The sum `a + b + carry` within eight bits.
pub open spec fn adc_value(a: u8, b: u8, carry: bool) -> u8 {
    (adc_total(a, b, carry) % 256) as u8
}

/// The carry out of `a + b + carry`: whether the unsigned sum exceeds 255.
pub open spec fn adc_carry(a: u8, b: u8, carry: bool) -> bool {
    adc_total(a, b, carry) > 255
}

/// The signed-overflow rule of addition: both terms have the same sign, and
/// the sum within eight bits has the other one.
pub open spec fn add_overflow(a: u8, b: u8, carry: bool) -> bool {
    negative8(a) == negative8(b) && negative8(adc_value(a, b, carry)) != negative8(a)
}

/// The difference `a - b - (1 - carry)`, not yet cut to eight bits.
pub open spec fn sbc_total(a: u8, b: u8, carry: bool) -> int {
    a - b - (1 - bit(carry))
}

/// The difference `a - b - (1 - carry)` within eight bits.
pub open spec fn sbc_value(a: u8, b: u8, carry: bool) -> u8 {
    (sbc_total(a, b, carry) % 256) as u8
}

/// The carry out of `a - b - (1 - carry)`: whether no borrow occurred.
pub open spec fn sbc_carry(a: u8, b: u8, carry: bool) -> bool {
    sbc_total(a, b, carry) >= 0
}

/// The signed-overflow rule of subtraction: the terms have different signs,
/// and the difference within eight bits has not the sign of the minuend.
pub open spec fn sub_overflow(a: u8, b: u8, carry: bool) -> bool {
    negative8(a) != negative8(b) && negative8(sbc_value(a, b, carry)) != negative8(a)
}

/// `a - b` within eight bits.
pub open spec fn sub8(a: u8, b: u8) -> u8 {
    ((a - b) % 256) as u8
}

/// `v` shifted left by one bit within eight bits, `carry` filling bit 0.
pub open spec fn rol_value(v: u8, carry: bool) -> u8 {
    ((v * 2) % 256 + bit(carry)) as u8
}

/// `v` shifted right by one bit, `carry` filling bit 7.
pub open spec fn ror_value(v: u8, carry: bool) -> u8 {
    (v / 2 + 128 * bit(carry)) as u8
}

/// The bit that a right shift moves out of `v`.
pub open spec fn low_bit(v: u8) -> bool {
    v % 2 == 1
}

/// Flags with Zero and Negative taken from the result `r`.
pub open spec fn flags_zn(f: Flags, r: u8) -> Flags {
    Flags { zero: r == 0, negative: negative8(r), ..f }
}

/// Flags with Carry set to `c`, and Zero and Negative taken from `r`.
pub open spec fn flags_czn(f: Flags, c: bool, r: u8) -> Flags {
    Flags { carry: c, zero: r == 0, negative: negative8(r), ..f }
}

/// Flags with Carry set to `c`, Overflow to `v`, and Zero and Negative taken
/// from `r`.
pub open spec fn flags_cvzn(f: Flags, c: bool, v: bool, r: u8) -> Flags {
    Flags { carry: c, overflow: v, zero: r == 0, negative: negative8(r), ..f }
}

/// The machine after Zero and Negative are taken from the result `r`.
pub open spec fn with_zn(m: Machine, r: u8) -> Machine {
    m.with_flag(PSW_ZERO_BIT, r == 0).with_flag(PSW_NEGATIVE_BIT, negative8(r))
}

/// The machine after Carry is set to `c`, then Zero and Negative are taken
/// from `r`.
pub open spec fn with_czn(m: Machine, c: bool, r: u8) -> Machine {
    with_zn(m.with_flag(PSW_CARRY_BIT, c), r)
}

/// The machine after Carry is set to `c` and Overflow to `v`, then Zero and
/// Negative are taken from `r`.
pub open spec fn with_cvzn(m: Machine, c: bool, v: bool, r: u8) -> Machine {
    with_zn(m.with_flag(PSW_CARRY_BIT, c).with_flag(PSW_OVERFLOW_BIT, v), r)
}

/// The machine with `r` in the accumulator.
pub open spec fn with_accumulator(m: Machine, r: u8) -> Machine {
    Machine { accumulator: r, ..m }
}

/// The machine with `r` in X.
pub open spec fn with_x(m: Machine, r: u8) -> Machine {
    Machine { x: r, ..m }
}

/// The machine with `r` in Y.
pub open spec fn with_y(m: Machine, r: u8) -> Machine {
    Machine { y: r, ..m }
}

/// ADC: the accumulator takes `accumulator + b + Carry` within eight bits;
/// Carry, Overflow, Zero and Negative follow.
pub open spec fn after_adc(m: Machine, b: u8) -> Machine {
    let a = m.accumulator;
    let c = m.carry();
    with_cvzn(
        with_accumulator(m, adc_value(a, b, c)),
        adc_carry(a, b, c),
        add_overflow(a, b, c),
        adc_value(a, b, c),
    )
}

/// SBC: the accumulator takes `accumulator - b - (1 - Carry)` within eight
/// bits; Carry, Overflow, Zero and Negative follow.
pub open spec fn after_sbc(m: Machine, b: u8) -> Machine {
    let a = m.accumulator;
    let c = m.carry();
    with_cvzn(
        with_accumulator(m, sbc_value(a, b, c)),
        sbc_carry(a, b, c),
        sub_overflow(a, b, c),
        sbc_value(a, b, c),
    )
}

/// AND, ORA, EOR and the loads into the accumulator: it takes `r`, and Zero
/// and Negative follow.
pub open spec fn after_accumulator(m: Machine, r: u8) -> Machine {
    with_zn(with_accumulator(m, r), r)
}

/// INX, DEX and the loads into X: X takes `r`, and Zero and Negative follow.
pub open spec fn after_x(m: Machine, r: u8) -> Machine {
    with_zn(with_x(m, r), r)
}

/// INY, DEY and the loads into Y: Y takes `r`, and Zero and Negative follow.
pub open spec fn after_y(m: Machine, r: u8) -> Machine {
    with_zn(with_y(m, r), r)
}

/// INC and DEC: the byte at `p` takes `r`, and Zero and Negative follow.
pub open spec fn after_memory(m: Machine, p: u16, r: u8) -> Machine {
    with_zn(m.with_ram(p, r), r)
}

/// The shifts and rotations: the place `op` names takes `r`, Carry takes the
/// bit moved out, and Zero and Negative follow from `r`.
pub open spec fn after_shift(m: Machine, op: Operand, r: u8, out: bool) -> Machine {
    with_czn(written(op, r, m), out, r)
}

/// CMP, CPX and CPY: `reg - v` is computed and not stored; Carry says
/// whether `reg >= v`, Zero whether they are equal, Negative is the high bit
/// of the difference within eight bits.
pub open spec fn after_compare(m: Machine, reg: u8, v: u8) -> Machine {
    with_czn(m, reg >= v, sub8(reg, v))
}

/// Whether `a` is zero or above, read as an 8-bit two's-complement integer.
pub fn is_positive(a: u8) -> (r: bool)
    ensures
        r == !negative8(a),
{
    a < 0x80
}

/// Whether `a` is below zero, read as an 8-bit two's-complement integer.
pub fn is_negative(a: u8) -> (r: bool)
    ensures
        r == negative8(a),
{
    !is_positive(a)
}

/// Whether `a + b + carry` sets Overflow: whether the signed sum leaves the
/// range of 8-bit two's complement.
pub fn is_add_overflow(a: u8, b: u8, carry: bool) -> (r: bool)
    ensures
        r == add_overflow(a, b, carry),
        r == !(-128 <= signed8(a) + signed8(b) + bit(carry) <= 127),
{
    if is_positive(a) != is_positive(b) {
        return false;
    }
    let c: u8 = if carry {
        1
    } else {
        0
    };
    let n: u8 = a.wrapping_add(b).wrapping_add(c);
    is_positive(a) != is_positive(n)
}

/// Whether `a - b - (1 - carry)` sets Overflow: whether the signed
/// difference leaves the range of 8-bit two's complement.
pub fn is_sub_overflow(a: u8, b: u8, carry: bool) -> (r: bool)
    ensures
        r == sub_overflow(a, b, carry),
        r == !(-128 <= signed8(a) - signed8(b) - (1 - bit(carry)) <= 127),
{
    if is_positive(a) == is_positive(b) {
        return false;
    }
    let c: u8 = if carry {
        0
    } else {
        1
    };
    let n: u8 = a.wrapping_sub(b).wrapping_sub(c);
    is_positive(a) != is_positive(n)
}

/// Takes Zero and Negative from the result `r`.
pub fn set_zn(state: &mut State, r: u8)
    ensures
        final(state)@ == with_zn(old(state)@, r),
        final(state)@.flags() == flags_zn(old(state)@.flags(), r),
{
    state.set_zero(r == 0);
    state.set_negative(is_negative(r));
}

/// Sets Carry to `c`, then takes Zero and Negative from the result `r`.
pub fn set_czn(state: &mut State, c: bool, r: u8)
    ensures
        final(state)@ == with_czn(old(state)@, c, r),
        final(state)@.flags() == flags_czn(old(state)@.flags(), c, r),
{
    state.set_carry(c);
    set_zn(state, r);
}

/// Sets Carry to `c` and Overflow to `v`, then takes Zero and Negative from
/// the result `r`.
pub fn set_cvzn(state: &mut State, c: bool, v: bool, r: u8)
    ensures
        final(state)@ == with_cvzn(old(state)@, c, v, r),
        final(state)@.flags() == flags_cvzn(old(state)@.flags(), c, v, r),
{
    state.set_carry(c);
    state.set_overflow(v);
    set_zn(state, r);
}

/// ADC: adds the operand and Carry to the accumulator, within eight bits.
/// Carry says whether the unsigned sum exceeds 255, Overflow whether the
/// signed sum leaves the 8-bit range; Zero and Negative follow the result.
pub fn adc(state: &mut State, op: &Operand)
    requires
        has_value(*op),
    ensures
        ({
            let m = old(state)@;
            let b = value_of(*op, m).unwrap();
            let r = adc_value(m.accumulator, b, m.carry());
            &&& final(state)@ == after_adc(m, b)
            &&& final(state)@.accumulator == r
            &&& final(state)@.flags() == flags_cvzn(
                m.flags(),
                adc_carry(m.accumulator, b, m.carry()),
                add_overflow(m.accumulator, b, m.carry()),
                r,
            )
        }),
{
    let b: u8 = get_u8(op, state).unwrap();
    let a: u8 = state.accumulator;
    let carry_in: bool = state.get_carry();
    let c: u16 = if carry_in {
        1
    } else {
        0
    };
    let total: u16 = a as u16 + b as u16 + c;
    let r: u8 = low_byte_of(total);
    let overflow: bool = is_add_overflow(a, b, carry_in);
    state.accumulator = r;
    set_cvzn(state, total > 255, overflow, r);
}

/// SBC: subtracts the operand and the complement of Carry from the
/// accumulator, within eight bits. Carry says whether no borrow occurred,
/// Overflow whether the signed difference leaves the 8-bit range; Zero and
/// Negative follow the result.
pub fn sbc(state: &mut State, op: &Operand)
    requires
        has_value(*op),
    ensures
        ({
            let m = old(state)@;
            let b = value_of(*op, m).unwrap();
            let r = sbc_value(m.accumulator, b, m.carry());
            &&& final(state)@ == after_sbc(m, b)
            &&& final(state)@.accumulator == r
            &&& final(state)@.flags() == flags_cvzn(
                m.flags(),
                sbc_carry(m.accumulator, b, m.carry()),
                sub_overflow(m.accumulator, b, m.carry()),
                r,
            )
        }),
{
    let b: u8 = get_u8(op, state).unwrap();
    let a: u8 = state.accumulator;
    let carry_in: bool = state.get_carry();
    let borrow: u8 = if carry_in {
        0
    } else {
        1
    };
    let r: u8 = a.wrapping_sub(b).wrapping_sub(borrow);
    let no_borrow: bool = a as u16 >= b as u16 + borrow as u16;
    let overflow: bool = is_sub_overflow(a, b, carry_in);
    state.accumulator = r;
    set_cvzn(state, no_borrow, overflow, r);
}

/// Puts `r` into the accumulator and takes Zero and Negative from it.
pub fn load_accumulator(state: &mut State, r: u8)
    ensures
        final(state)@ == after_accumulator(old(state)@, r),
        final(state)@.flags() == flags_zn(old(state)@.flags(), r),
{
    state.accumulator = r;
    set_zn(state, r);
}

/// AND: the accumulator takes its bitwise and with the operand; Zero and
/// Negative follow, Carry and Overflow stay.
pub fn and(state: &mut State, op: &Operand)
    requires
        has_value(*op),
    ensures
        ({
            let m = old(state)@;
            let r = m.accumulator & value_of(*op, m).unwrap();
            &&& final(state)@ == after_accumulator(m, r)
            &&& final(state)@.flags() == flags_zn(m.flags(), r)
        }),
{
    let v: u8 = get_u8(op, state).unwrap();
    let r: u8 = state.accumulator & v;
    load_accumulator(state, r);
}

/// ORA: the accumulator takes its bitwise or with the operand; Zero and
/// Negative follow, Carry and Overflow stay.
pub fn ora(state: &mut State, op: &Operand)
    requires
        has_value(*op),
    ensures
        ({
            let m = old(state)@;
            let r = m.accumulator | value_of(*op, m).unwrap();
            &&& final(state)@ == after_accumulator(m, r)
            &&& final(state)@.flags() == flags_zn(m.flags(), r)
        }),
{
    let v: u8 = get_u8(op, state).unwrap();
    let r: u8 = state.accumulator | v;
    load_accumulator(state, r);
}

/// EOR: the accumulator takes its bitwise exclusive or with the operand;
/// Zero and Negative follow, Carry and Overflow stay.
pub fn eor(state: &mut State, op: &Operand)
    requires
        has_value(*op),
    ensures
        ({
            let m = old(state)@;
            let r = m.accumulator ^ value_of(*op, m).unwrap();
            &&& final(state)@ == after_accumulator(m, r)
            &&& final(state)@.flags() == flags_zn(m.flags(), r)
        }),
{
    let v: u8 = get_u8(op, state).unwrap();
    let r: u8 = state.accumulator ^ v;
    load_accumulator(state, r);
}

/// Writes the shifted byte `r` back to the place `op` names, puts the bit
/// moved out into Carry, and takes Zero and Negative from `r`.
fn finish_shift(state: &mut State, op: &Operand, r: u8, out: bool)
    requires
        writable(*op),
    ensures
        final(state)@ == after_shift(old(state)@, *op, r, out),
        final(state)@.flags() == flags_czn(old(state)@.flags(), out, r),
{
    match set_u8(op, r, state) {
        Ok(()) => {},
        Err(_) => {},
    }
    set_czn(state, out, r);
}

/// ASL: shifts the accumulator or the byte in memory left by one bit. Bit 7
/// goes to Carry, bit 0 becomes zero; Zero and Negative follow the result.
pub fn asl(state: &mut State, op: &Operand)
    requires
        writable(*op),
    ensures
        ({
            let m = old(state)@;
            let v = value_of(*op, m).unwrap();
            &&& final(state)@ == after_shift(m, *op, rol_value(v, false), negative8(v))
            &&& final(state)@.flags() == flags_czn(m.flags(), negative8(v), rol_value(v, false))
        }),
{
    let v: u8 = get_u8(op, state).unwrap();
    let r: u8 = v << 1;
    assert(v << 1 == (v * 2) % 256) by (bit_vector);
    finish_shift(state, op, r, is_negative(v));
}

/// LSR: shifts the accumulator or the byte in memory right by one bit. Bit 0
/// goes to Carry, bit 7 becomes zero; Zero and Negative follow the result.
pub fn lsr(state: &mut State, op: &Operand)
    requires
        writable(*op),
    ensures
        ({
            let m = old(state)@;
            let v = value_of(*op, m).unwrap();
            &&& final(state)@ == after_shift(m, *op, ror_value(v, false), low_bit(v))
            &&& final(state)@.flags() == flags_czn(m.flags(), low_bit(v), ror_value(v, false))
        }),
{
    let v: u8 = get_u8(op, state).unwrap();
    let r: u8 = v >> 1;
    assert(v >> 1 == v / 2) by (bit_vector);
    finish_shift(state, op, r, v % 2 == 1);
}

/// ROL: as ASL, but bit 0 takes the Carry of before the operation.
pub fn rol(state: &mut State, op: &Operand)
    requires
        writable(*op),
    ensures
        ({
            let m = old(state)@;
            let v = value_of(*op, m).unwrap();
            let r = rol_value(v, m.carry());
            &&& final(state)@ == after_shift(m, *op, r, negative8(v))
            &&& final(state)@.flags() == flags_czn(m.flags(), negative8(v), r)
        }),
{
    let v: u8 = get_u8(op, state).unwrap();
    let lsb: u8 = if state.get_carry() {
        1
    } else {
        0
    };
    let r: u8 = (v << 1) | lsb;
    assert(lsb <= 1 ==> (v << 1) | lsb == (v * 2) % 256 + lsb) by (bit_vector);
    finish_shift(state, op, r, is_negative(v));
}

/// ROR: as LSR, but bit 7 takes the Carry of before the operation.
pub fn ror(state: &mut State, op: &Operand)
    requires
        writable(*op),
    ensures
        ({
            let m = old(state)@;
            let v = value_of(*op, m).unwrap();
            let r = ror_value(v, m.carry());
            &&& final(state)@ == after_shift(m, *op, r, low_bit(v))
            &&& final(state)@.flags() == flags_czn(m.flags(), low_bit(v), r)
        }),
{
    let v: u8 = get_u8(op, state).unwrap();
    let msb: u8 = if state.get_carry() {
        0x80
    } else {
        0
    };
    let r: u8 = (v >> 1) | msb;
    assert((msb == 0 || msb == 0x80) ==> (v >> 1) | msb == v / 2 + msb) by (bit_vector);
    finish_shift(state, op, r, v % 2 == 1);
}

/// Stores `r` at `p` and takes Zero and Negative from it.
fn store_memory(state: &mut State, p: u16, r: u8)
    ensures
        final(state)@ == after_memory(old(state)@, p, r),
        final(state)@.flags() == flags_zn(old(state)@.flags(), r),
{
    state.ram_set(p, r);
    set_zn(state, r);
}

/// INC: adds one to the byte in memory, wrapping from 255 to 0; Zero and
/// Negative follow, Carry and Overflow stay.
pub fn inc(state: &mut State, op: &Operand)
    requires
        memory_target(*op),
    ensures
        ({
            let m = old(state)@;
            let p = pointer_of(*op, m).unwrap();
            &&& final(state)@ == after_memory(m, p, succ8(m.ram(p)))
            &&& final(state)@.flags() == flags_zn(m.flags(), succ8(m.ram(p)))
        }),
{
    let p: u16 = get_pointer(op, state).unwrap();
    let r: u8 = state.ram_get(p).wrapping_add(1);
    store_memory(state, p, r);
}

/// DEC: subtracts one from the byte in memory, wrapping from 0 to 255; Zero
/// and Negative follow, Carry and Overflow stay.
pub fn dec(state: &mut State, op: &Operand)
    requires
        memory_target(*op),
    ensures
        ({
            let m = old(state)@;
            let p = pointer_of(*op, m).unwrap();
            &&& final(state)@ == after_memory(m, p, pred8(m.ram(p)))
            &&& final(state)@.flags() == flags_zn(m.flags(), pred8(m.ram(p)))
        }),
{
    let p: u16 = get_pointer(op, state).unwrap();
    let r: u8 = state.ram_get(p).wrapping_sub(1);
    store_memory(state, p, r);
}

/// Puts `r` into X and takes Zero and Negative from it.
pub fn load_x(state: &mut State, r: u8)
    ensures
        final(state)@ == after_x(old(state)@, r),
        final(state)@.flags() == flags_zn(old(state)@.flags(), r),
{
    state.x = r;
    set_zn(state, r);
}

/// Puts `r` into Y and takes Zero and Negative from it.
pub fn load_y(state: &mut State, r: u8)
    ensures
        final(state)@ == after_y(old(state)@, r),
        final(state)@.flags() == flags_zn(old(state)@.flags(), r),
{
    state.y = r;
    set_zn(state, r);
}

/// INX: adds one to X, wrapping; Zero and Negative follow. The operand is
/// not looked at.
pub fn inx(state: &mut State, _op: &Operand)
    ensures
        final(state)@ == after_x(old(state)@, succ8(old(state)@.x)),
        final(state)@.flags() == flags_zn(old(state)@.flags(), succ8(old(state)@.x)),
{
    let r: u8 = state.x.wrapping_add(1);
    load_x(state, r);
}

/// INY: adds one to Y, wrapping; Zero and Negative follow. The operand is
/// not looked at.
pub fn iny(state: &mut State, _op: &Operand)
    ensures
        final(state)@ == after_y(old(state)@, succ8(old(state)@.y)),
        final(state)@.flags() == flags_zn(old(state)@.flags(), succ8(old(state)@.y)),
{
    let r: u8 = state.y.wrapping_add(1);
    load_y(state, r);
}

/// DEX: subtracts one from X, wrapping; Zero and Negative follow. The
/// operand is not looked at.
pub fn dex(state: &mut State, _op: &Operand)
    ensures
        final(state)@ == after_x(old(state)@, pred8(old(state)@.x)),
        final(state)@.flags() == flags_zn(old(state)@.flags(), pred8(old(state)@.x)),
{
    let r: u8 = state.x.wrapping_sub(1);
    load_x(state, r);
}

/// DEY: subtracts one from Y, wrapping; Zero and Negative follow. The
/// operand is not looked at.
pub fn dey(state: &mut State, _op: &Operand)
    ensures
        final(state)@ == after_y(old(state)@, pred8(old(state)@.y)),
        final(state)@.flags() == flags_zn(old(state)@.flags(), pred8(old(state)@.y)),
{
    let r: u8 = state.y.wrapping_sub(1);
    load_y(state, r);
}

/// Compares `reg` with the operand: the difference is computed and not
/// stored. Carry says whether `reg` is at least the operand, Zero whether
/// they are equal, Negative is the high bit of the difference.
pub fn compare(state: &mut State, reg: u8, op: &Operand)
    requires
        has_value(*op),
    ensures
        ({
            let m = old(state)@;
            let v = value_of(*op, m).unwrap();
            &&& final(state)@ == after_compare(m, reg, v)
            &&& final(state)@.flags() == flags_czn(m.flags(), reg >= v, sub8(reg, v))
            &&& final(state)@.zero() == (reg == v)
        }),
{
    let v: u8 = get_u8(op, state).unwrap();
    let diff: u8 = reg.wrapping_sub(v);
    set_czn(state, reg >= v, diff);
}

/// CMP: compares the accumulator with the operand.
pub fn cmp(state: &mut State, op: &Operand)
    requires
        has_value(*op),
    ensures
        ({
            let m = old(state)@;
            let v = value_of(*op, m).unwrap();
            &&& final(state)@ == after_compare(m, m.accumulator, v)
            &&& final(state)@.flags() == flags_czn(
                m.flags(),
                m.accumulator >= v,
                sub8(m.accumulator, v),
            )
        }),
{
    let reg: u8 = state.accumulator;
    compare(state, reg, op);
}

/// CPX: compares X with the operand.
pub fn cpx(state: &mut State, op: &Operand)
    requires
        has_value(*op),
    ensures
        ({
            let m = old(state)@;
            let v = value_of(*op, m).unwrap();
            &&& final(state)@ == after_compare(m, m.x, v)
            &&& final(state)@.flags() == flags_czn(m.flags(), m.x >= v, sub8(m.x, v))
        }),
{
    let reg: u8 = state.x;
    compare(state, reg, op);
}

/// CPY: compares Y with the operand.
pub fn cpy(state: &mut State, op: &Operand)
    requires
        has_value(*op),
    ensures
        ({
            let m = old(state)@;
            let v = value_of(*op, m).unwrap();
            &&& final(state)@ == after_compare(m, m.y, v)
            &&& final(state)@.flags() == flags_czn(m.flags(), m.y >= v, sub8(m.y, v))
        }),
{
    let reg: u8 = state.y;
    compare(state, reg, op);
}

/// Taking Zero and Negative from a result changes these two flags alone.
pub proof fn lemma_with_zn(m: Machine, r: u8)
    ensures
        with_zn(m, r).flags() == flags_zn(m.flags(), r),
{
    m.lemma_with_flag_flags(PSW_ZERO_BIT, r == 0);
    m.with_flag(PSW_ZERO_BIT, r == 0).lemma_with_flag_flags(PSW_NEGATIVE_BIT, negative8(r));
}

/// Setting Carry and taking Zero and Negative from a result changes these
/// three flags alone.
pub proof fn lemma_with_czn(m: Machine, c: bool, r: u8)
    ensures
        with_czn(m, c, r).flags() == flags_czn(m.flags(), c, r),
{
    m.lemma_with_flag_flags(PSW_CARRY_BIT, c);
    lemma_with_zn(m.with_flag(PSW_CARRY_BIT, c), r);
}

/// Setting Carry and Overflow and taking Zero and Negative from a result
/// changes these four flags alone.
pub proof fn lemma_with_cvzn(m: Machine, c: bool, v: bool, r: u8)
    ensures
        with_cvzn(m, c, v, r).flags() == flags_cvzn(m.flags(), c, v, r),
{
    m.lemma_with_flag_flags(PSW_CARRY_BIT, c);
    m.with_flag(PSW_CARRY_BIT, c).lemma_with_flag_flags(PSW_OVERFLOW_BIT, v);
    lemma_with_zn(m.with_flag(PSW_CARRY_BIT, c).with_flag(PSW_OVERFLOW_BIT, v), r);
}

/// The carry out of an addition says whether the unsigned sum exceeds 255,
/// and its overflow whether both terms have one sign and the result the
/// other, which is to say that the signed sum leaves the 8-bit range.
pub proof fn lemma_adc_flags(a: u8, b: u8, carry: bool)
    ensures
        adc_carry(a, b, carry) == (a + b + bit(carry) > 255),
        add_overflow(a, b, carry) == (negative8(a) == negative8(b) && negative8(
            adc_value(a, b, carry),
        ) != negative8(a)),
        add_overflow(a, b, carry) == !(-128 <= signed8(a) + signed8(b) + bit(carry) <= 127),
        signed8(adc_value(a, b, carry)) == signed8(a) + signed8(b) + bit(carry) + (if add_overflow(
            a,
            b,
            carry,
        ) {
            if negative8(a) {
                256int
            } else {
                -256int
            }
        } else {
            0int
        }),
{
}

/// The carry out of a subtraction says whether no borrow occurred, and its
/// overflow whether the terms have different signs and the result not that
/// of the minuend, which is to say that the signed difference leaves the
/// 8-bit range.
pub proof fn lemma_sbc_flags(a: u8, b: u8, carry: bool)
    ensures
        sbc_carry(a, b, carry) == (a >= b + (1 - bit(carry))),
        sub_overflow(a, b, carry) == !(-128 <= signed8(a) - signed8(b) - (1 - bit(carry)) <= 127),
{
}

/// Subtraction undoes addition when its carry is the complement of the
/// carry that went into the addition: a borrow for a carry.
pub proof fn lemma_sbc_inverts_adc(a: u8, b: u8, carry: bool)
    ensures
        sbc_value(adc_value(a, b, carry), b, !carry) == a,
        adc_value(sbc_value(a, b, carry), b, !carry) == a,
{
    let t = adc_total(a, b, carry);
    let s = adc_value(a, b, carry);
    assert(s == if t >= 256 {
        t - 256
    } else {
        t
    });
    assert(sbc_total(s, b, !carry) == s - b - bit(carry));
    assert(sbc_total(s, b, !carry) == a || sbc_total(s, b, !carry) == a - 256);
    let u = sbc_total(a, b, carry);
    let d = sbc_value(a, b, carry);
    assert(d == if u < 0 {
        u + 256
    } else {
        u
    });
    assert(adc_total(d, b, !carry) == d + b + 1 - bit(carry));
    assert(adc_total(d, b, !carry) == a || adc_total(d, b, !carry) == a + 256);
}

/// An ADC without carry followed by an SBC of the same byte with Carry set
/// brings the accumulator back to what it was.
pub proof fn lemma_sbc_after_adc(m: Machine, b: u8)
    requires
        !m.carry(),
    ensures
        after_sbc(after_adc(m, b).with_flag(PSW_CARRY_BIT, true), b).accumulator
            == m.accumulator,
{
    let s = after_adc(m, b);
    s.lemma_with_flag_flags(PSW_CARRY_BIT, true);
    lemma_sbc_inverts_adc(m.accumulator, b, false);
}

/// Subtracting with Carry set is adding the complement: SBC of `b` gives the
/// same result and the same Carry as ADC of `255 - b`.
pub proof fn lemma_sbc_is_adc_of_complement(a: u8, b: u8, carry: bool)
    ensures
        sbc_value(a, b, carry) == adc_value(a, (255 - b) as u8, carry),
        sbc_carry(a, b, carry) == adc_carry(a, (255 - b) as u8, carry),
        sub_overflow(a, b, carry) == add_overflow(a, (255 - b) as u8, carry),
{
}

/// A comparison orders the two bytes: Carry is set exactly when the register
/// is at least the operand, Zero exactly when they are equal.
pub proof fn lemma_compare_flags(m: Machine, reg: u8, v: u8)
    ensures
        after_compare(m, reg, v).carry() == (reg >= v),
        after_compare(m, reg, v).zero() == (reg == v),
        after_compare(m, reg, v).negative() == negative8(sub8(reg, v)),
        after_compare(m, reg, v).flags() == flags_czn(m.flags(), reg >= v, sub8(reg, v)),
{
    lemma_with_czn(m, reg >= v, sub8(reg, v));
}

} // verus!
