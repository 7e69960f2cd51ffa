use crate::instruction::operand::Operand;
use crate::interp::state::{word_of, Machine, State};
use vstd::prelude::*;

verus! {

/// `a + b` within eight bits.
pub open spec fn add8(a: u8, b: u8) -> u8 {
    ((a + b) % 256) as u8
}

/// `a + b` within sixteen bits; `b` may be negative.
pub open spec fn add16(a: u16, b: int) -> u16 {
    ((a + b) % 65536) as u16
}

/// The effective address an operand denotes, if it denotes one.
pub open spec fn pointer_of(op: Operand, m: Machine) -> Option<u16> {
    match op {
        Operand::Implicit | Operand::Accumulator | Operand::Immediate(_) => None,
        Operand::ZeroPage(offset) => Some(offset as u16),
        Operand::ZeroPageX(offset) => Some(add8(m.x, offset) as u16),
        Operand::ZeroPageY(offset) => Some(add8(m.y, offset) as u16),
        Operand::Relative(offset) => Some(add16(m.pc, offset as int)),
        Operand::Absolute(addr) => Some(addr),
        Operand::AbsoluteX(addr) => Some(add16(addr, m.x as int)),
        Operand::AbsoluteY(addr) => Some(add16(addr, m.y as int)),
        Operand::Indirect(addr) => Some(m.ram16(addr)),
        Operand::IndexedIndirect(table) => Some(m.ram16_zp(add8(table, m.x))),
        Operand::IndirectIndexed(slot) => Some(add16(m.ram16(slot as u16), m.y as int)),
    }
}

/// The byte an operand denotes: the accumulator, the literal, or the byte at
/// the effective address. Only `Implicit` denotes none.
pub open spec fn value_of(op: Operand, m: Machine) -> Option<u8> {
    match op {
        Operand::Implicit => None,
        Operand::Accumulator => Some(m.accumulator),
        Operand::Immediate(v) => Some(v),
        _ => Some(m.ram(pointer_of(op, m).unwrap())),
    }
}

/// The 16-bit value an operand denotes: the accumulator or the literal,
/// zero-extended, or the little-endian word at the effective address.
pub open spec fn wide_value_of(op: Operand, m: Machine) -> Option<u16> {
    match op {
        Operand::Implicit => None,
        Operand::Accumulator => Some(m.accumulator as u16),
        Operand::Immediate(v) => Some(v as u16),
        _ => Some(m.ram16(pointer_of(op, m).unwrap())),
    }
}

/// Whether an operand denotes a byte: every operand but `Implicit` does.
pub open spec fn has_value(op: Operand) -> bool {
    !(op is Implicit)
}

/// Whether an operand denotes an address: every operand but `Implicit`,
/// `Accumulator` and `Immediate` does.
pub open spec fn addressable(op: Operand) -> bool {
    !(op is Implicit || op is Accumulator || op is Immediate)
}

/// Whether an operand names a place a byte can be written to: the
/// accumulator or a memory location. `Implicit`, `Immediate` and `Relative`
/// do not.
pub open spec fn writable(op: Operand) -> bool {
    !(op is Implicit || op is Immediate || op is Relative)
}

/// Whether an operand names a byte of memory that can be written to: it
/// denotes an address and is writable.
pub open spec fn memory_target(op: Operand) -> bool {
    addressable(op) && writable(op)
}

/// The machine after `val` is written to the place a writable operand names.
pub open spec fn written(op: Operand, val: u8, m: Machine) -> Machine {
    match op {
        Operand::Accumulator => Machine { accumulator: val, ..m },
        _ => m.with_ram(pointer_of(op, m).unwrap(), val),
    }
}

/// The outcome of a write through an operand that names no writable place.
#[derive(Clone, Copy, Debug, PartialEq, Eq, Structural)]
pub struct NotWritable;

/// The little-endian word at the zero-page address `addr`; the address of the
/// high byte wraps round within page zero.
fn load_le16_zp(state: &State, addr: u8) -> (r: u16)
    ensures
        r == state@.ram16_zp(addr),
{
    let lsb: u8 = state.ram_get(addr as u16);
    let msb: u8 = state.ram_get(addr.wrapping_add(1) as u16);
    word_of(lsb, msb)
}

/// The little-endian word at `addr`; the address of the high byte wraps
/// round at the end of the address space.
fn load_le16(state: &State, addr: u16) -> (r: u16)
    ensures
        r == state@.ram16(addr),
{
    let lsb: u8 = state.ram_get(addr);
    let msb: u8 = state.ram_get(addr.wrapping_add(1));
    word_of(lsb, msb)
}

/// The effective address of `op`: `None` for `Implicit`, `Accumulator` and
/// `Immediate`, otherwise the address the addressing mode computes from the
/// registers and the memory. The state is only read.
pub fn get_pointer(op: &Operand, state: &State) -> (r: Option<u16>)
    ensures
        r == pointer_of(*op, state@),
        r is Some <==> addressable(*op),
{
    match op {
        Operand::Implicit | Operand::Accumulator | Operand::Immediate(_) => None,
        Operand::ZeroPage(offset) => Some(*offset as u16),
        Operand::ZeroPageX(offset) => Some(state.x.wrapping_add(*offset) as u16),
        Operand::ZeroPageY(offset) => Some(state.y.wrapping_add(*offset) as u16),
        Operand::Relative(offset) => Some(state.pc.wrapping_add_signed(*offset as i16)),
        Operand::Absolute(addr) => Some(*addr),
        Operand::AbsoluteX(addr) => Some(addr.wrapping_add(state.x as u16)),
        Operand::AbsoluteY(addr) => Some(addr.wrapping_add(state.y as u16)),
        Operand::Indirect(addr) => Some(load_le16(state, *addr)),
        Operand::IndexedIndirect(table) => Some(load_le16_zp(state, table.wrapping_add(state.x))),
        Operand::IndirectIndexed(slot) => {
            let table: u16 = load_le16(state, *slot as u16);
            Some(table.wrapping_add(state.y as u16))
        },
    }
}

/// The 16-bit value of `op`: `None` for `Implicit`, the zero-extended
/// accumulator or literal, else the little-endian word at the effective
/// address.
pub fn get_value(op: &Operand, state: &State) -> (r: Option<u16>)
    ensures
        r == wide_value_of(*op, state@),
        r is Some <==> has_value(*op),
{
    match op {
        Operand::Implicit => None,
        Operand::Accumulator => Some(state.accumulator as u16),
        Operand::Immediate(v) => Some(*v as u16),
        _ => match get_pointer(op, state) {
            Some(p) => Some(load_le16(state, p)),
            None => None,
        },
    }
}

/// The byte `op` denotes: `None` for `Implicit` only, the accumulator, the
/// literal, else the byte at the effective address.
pub fn get_u8(op: &Operand, state: &State) -> (r: Option<u8>)
    ensures
        r == value_of(*op, state@),
        r is Some <==> has_value(*op),
{
    match op {
        Operand::Implicit => None,
        Operand::Accumulator => Some(state.accumulator),
        Operand::Immediate(v) => Some(*v),
        _ => match get_pointer(op, state) {
            Some(p) => Some(state.ram_get(p)),
            None => None,
        },
    }
}

/// Writes `val` to the place `op` names: the byte at its effective address,
/// or the accumulator. `Implicit`, `Immediate` and `Relative` name no such
/// place: the write fails and the state is left as it was.
pub fn set_u8(op: &Operand, val: u8, state: &mut State) -> (r: Result<(), NotWritable>)
    ensures
        writable(*op) ==> r is Ok && final(state)@ == written(*op, val, old(state)@),
        !writable(*op) ==> r == Err::<(), NotWritable>(NotWritable) && final(state)@ == old(
            state,
        )@,
{
    match op {
        Operand::Accumulator => {
            state.accumulator = val;
            Ok(())
        },
        Operand::Implicit | Operand::Immediate(_) | Operand::Relative(_) => Err(NotWritable),
        _ => match get_pointer(op, state) {
            Some(p) => {
                state.ram_set(p, val);
                Ok(())
            },
            None => Err(NotWritable),
        },
    }
}

/// Whether `op` denotes a byte: whether it is not `Implicit`.
pub fn has_u8(op: &Operand) -> (r: bool)
    ensures
        r == has_value(*op),
{
    match op {
        Operand::Implicit => false,
        _ => true,
    }
}

/// Whether `op` denotes an address.
pub fn has_pointer(op: &Operand) -> (r: bool)
    ensures
        r == addressable(*op),
{
    match op {
        Operand::Implicit | Operand::Accumulator | Operand::Immediate(_) => false,
        _ => true,
    }
}

/// Whether a byte can be written through `op`.
pub fn is_writable(op: &Operand) -> (r: bool)
    ensures
        r == writable(*op),
{
    match op {
        Operand::Implicit | Operand::Immediate(_) | Operand::Relative(_) => false,
        _ => true,
    }
}

/// Resolution is total: exactly `Implicit`, `Accumulator` and `Immediate`
/// have no effective address, and exactly `Implicit` has no value.
pub proof fn lemma_resolution_total(op: Operand, m: Machine)
    ensures
        pointer_of(op, m) is Some <==> addressable(op),
        value_of(op, m) is Some <==> has_value(op),
        wide_value_of(op, m) is Some <==> has_value(op),
        writable(op) ==> has_value(op),
        addressable(op) ==> has_value(op),
{
}

/// Resolution reads the registers and the memory only: no status flag
/// enters into an effective address or a value.
pub proof fn lemma_resolution_ignores_flags(op: Operand, m: Machine, psw: u8)
    ensures
        pointer_of(op, Machine { psw, ..m }) == pointer_of(op, m),
        value_of(op, Machine { psw, ..m }) == value_of(op, m),
{
}

/// A byte written through a writable operand is the byte read back through
/// it, as long as the write does not change where the operand points.
pub proof fn lemma_written_then_read(op: Operand, val: u8, m: Machine)
    requires
        m.wf(),
        writable(op),
        pointer_of(op, written(op, val, m)) == pointer_of(op, m),
    ensures
        value_of(op, written(op, val, m)) == Some(val),
{
}

} // verus!
