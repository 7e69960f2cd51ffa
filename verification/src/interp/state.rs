use vstd::prelude::*;

verus! {

/// Mask of the Carry flag in the status byte.
pub const PSW_CARRY_BIT: u8 = 0x01;

/// Mask of the Zero flag in the status byte.
pub const PSW_ZERO_BIT: u8 = 0x02;

/// Mask of the Interrupt-disable flag in the status byte.
pub const PSW_INTERRUPT_BIT: u8 = 0x04;

/// Mask of the Decimal flag in the status byte.
pub const PSW_DECIMAL_BIT: u8 = 0x08;

/// Mask of the Break flag in the status byte.
pub const PSW_BREAK_BIT: u8 = 0x10;

/// Mask of the bit of the status byte that is hardwired to one.
pub const PSW_ONE_BIT: u8 = 0x20;

/// Mask of the Overflow flag in the status byte.
pub const PSW_OVERFLOW_BIT: u8 = 0x40;

/// Mask of the Negative flag in the status byte.
pub const PSW_NEGATIVE_BIT: u8 = 0x80;

/// First address of the stack page.
pub const STACK_OFFSET: u16 = 0x100;

/// Number of bytes a 16-bit address can reach.
pub const MEMORY_SIZE: usize = 65536;

/// The byte of a 16-bit word that holds its upper eight bits.
pub open spec fn high_byte(w: u16) -> u8 {
    (w / 256) as u8
}

/// The byte of a 16-bit word that holds its lower eight bits.
pub open spec fn low_byte(w: u16) -> u8 {
    (w % 256) as u8
}

/// The 16-bit word made of a low and a high byte.
pub open spec fn word(low: u8, high: u8) -> u16 {
    (high * 256 + low) as u16
}

/// `a + 1` within eight bits.
pub open spec fn succ8(a: u8) -> u8 {
    if a == 255 {
        0
    } else {
        (a + 1) as u8
    }
}

/// `a - 1` within eight bits.
pub open spec fn pred8(a: u8) -> u8 {
    if a == 0 {
        255
    } else {
        (a - 1) as u8
    }
}

/// `a + 1` within sixteen bits.
pub open spec fn succ16(a: u16) -> u16 {
    if a == 0xFFFF {
        0
    } else {
        (a + 1) as u16
    }
}

/// A status byte with the bits of `mask` set (`v`) or cleared (`!v`) and all
/// other bits as they were.
pub open spec fn psw_with(psw: u8, mask: u8, v: bool) -> u8 {
    if v {
        psw | mask
    } else {
        psw & !mask
    }
}

/// The mathematical model of the processor: its registers and the content of
/// the 16-bit address space.
pub ghost struct Machine {
    /// Program counter.
    pub pc: u16,
    /// Stack pointer, an offset into the stack page.
    pub sp: u8,
    /// Status byte, `NV1BDIZC` from the highest bit down.
    pub psw: u8,
    /// Accumulator.
    pub accumulator: u8,
    /// Index register X.
    pub x: u8,
    /// Index register Y.
    pub y: u8,
    /// One byte per address.
    pub memory: Seq<u8>,
}

impl Machine {
    /// Every 16-bit address has a byte.
    pub open spec fn wf(self) -> bool {
        self.memory.len() == MEMORY_SIZE
    }

    /// The byte stored at `addr`.
    pub open spec fn ram(self, addr: u16) -> u8 {
        self.memory[addr as int]
    }

    /// The machine after `value` is stored at `addr`.
    pub open spec fn with_ram(self, addr: u16, value: u8) -> Machine {
        Machine { memory: self.memory.update(addr as int, value), ..self }
    }

    /// The little-endian word stored at `addr` and the address after it,
    /// which wraps round at the end of the address space.
    pub open spec fn ram16(self, addr: u16) -> u16 {
        word(self.ram(addr), self.ram(succ16(addr)))
    }

    /// The little-endian word stored at the zero-page address `addr` and the
    /// zero-page address after it, which wraps round within page zero.
    pub open spec fn ram16_zp(self, addr: u8) -> u16 {
        word(self.ram(addr as u16), self.ram(succ8(addr) as u16))
    }

    /// Whether some bit of `mask` is set in the status byte.
    pub open spec fn flag(self, mask: u8) -> bool {
        self.psw & mask != 0
    }

    /// The machine after the flag under `mask` is set to `v`.
    pub open spec fn with_flag(self, mask: u8, v: bool) -> Machine {
        Machine { psw: psw_with(self.psw, mask, v), ..self }
    }

    /// The Carry flag.
    pub open spec fn carry(self) -> bool {
        self.flag(PSW_CARRY_BIT)
    }

    /// The Zero flag.
    pub open spec fn zero(self) -> bool {
        self.flag(PSW_ZERO_BIT)
    }

    /// The Interrupt-disable flag.
    pub open spec fn interrupt(self) -> bool {
        self.flag(PSW_INTERRUPT_BIT)
    }

    /// The Decimal flag.
    pub open spec fn decimal(self) -> bool {
        self.flag(PSW_DECIMAL_BIT)
    }

    /// The Break flag.
    pub open spec fn break_flag(self) -> bool {
        self.flag(PSW_BREAK_BIT)
    }

    /// The Overflow flag.
    pub open spec fn overflow(self) -> bool {
        self.flag(PSW_OVERFLOW_BIT)
    }

    /// The Negative flag.
    pub open spec fn negative(self) -> bool {
        self.flag(PSW_NEGATIVE_BIT)
    }

    /// The status byte read flag by flag.
    pub open spec fn flags(self) -> Flags {
        flags_of(self.psw)
    }

    /// The address of the stack slot the stack pointer names.
    pub open spec fn stack_addr(self) -> u16 {
        (STACK_OFFSET + self.sp) as u16
    }

    /// The machine after `value` is pushed: it is written to the current
    /// stack slot, then the stack pointer goes down by one, wrapping.
    pub open spec fn pushed(self, value: u8) -> Machine {
        Machine { sp: pred8(self.sp), ..self.with_ram(self.stack_addr(), value) }
    }

    /// The machine after a pop: the stack pointer goes up by one, wrapping.
    pub open spec fn popped(self) -> Machine {
        Machine { sp: succ8(self.sp), ..self }
    }

    /// The byte a pop returns: the one in the slot above the current one.
    pub open spec fn top(self) -> u8 {
        self.popped().ram(self.popped().stack_addr())
    }

    /// The machine after the program counter is pushed, high byte first.
    pub open spec fn pc_pushed(self) -> Machine {
        self.pushed(high_byte(self.pc)).pushed(low_byte(self.pc))
    }

    /// The machine after the program counter is popped, low byte first.
    pub open spec fn pc_popped(self) -> Machine {
        Machine { pc: word(self.top(), self.popped().top()), ..self.popped().popped() }
    }
}

/// The status byte read flag by flag.
pub ghost struct Flags {
    /// Carry, bit 0.
    pub carry: bool,
    /// Zero, bit 1.
    pub zero: bool,
    /// Interrupt-disable, bit 2.
    pub interrupt: bool,
    /// Decimal, bit 3.
    pub decimal: bool,
    /// Break, bit 4.
    pub break_flag: bool,
    /// The hardwired bit, bit 5.
    pub one: bool,
    /// Overflow, bit 6.
    pub overflow: bool,
    /// Negative, bit 7.
    pub negative: bool,
}

impl Flags {
    /// These flags with the one under the single-bit `mask` set to `v`.
    pub open spec fn with(self, mask: u8, v: bool) -> Flags {
        if mask == PSW_CARRY_BIT {
            Flags { carry: v, ..self }
        } else if mask == PSW_ZERO_BIT {
            Flags { zero: v, ..self }
        } else if mask == PSW_INTERRUPT_BIT {
            Flags { interrupt: v, ..self }
        } else if mask == PSW_DECIMAL_BIT {
            Flags { decimal: v, ..self }
        } else if mask == PSW_BREAK_BIT {
            Flags { break_flag: v, ..self }
        } else if mask == PSW_ONE_BIT {
            Flags { one: v, ..self }
        } else if mask == PSW_OVERFLOW_BIT {
            Flags { overflow: v, ..self }
        } else if mask == PSW_NEGATIVE_BIT {
            Flags { negative: v, ..self }
        } else {
            self
        }
    }
}

/// The flags a status byte holds.
pub open spec fn flags_of(psw: u8) -> Flags {
    Flags {
        carry: psw & PSW_CARRY_BIT != 0,
        zero: psw & PSW_ZERO_BIT != 0,
        interrupt: psw & PSW_INTERRUPT_BIT != 0,
        decimal: psw & PSW_DECIMAL_BIT != 0,
        break_flag: psw & PSW_BREAK_BIT != 0,
        one: psw & PSW_ONE_BIT != 0,
        overflow: psw & PSW_OVERFLOW_BIT != 0,
        negative: psw & PSW_NEGATIVE_BIT != 0,
    }
}

/// The flat byte-addressable store behind the processor: one byte for each
/// 16-bit address.
pub struct Memory {
    /// The byte at each address.
    pub bytes: [u8; 65536],
}

impl View for Memory {
    type V = Seq<u8>;

    open spec fn view(&self) -> Seq<u8> {
        self.bytes@
    }
}

impl Memory {
    /// A store that holds zero at every address.
    pub fn new() -> (r: Memory)
        ensures
            r@.len() == MEMORY_SIZE,
            forall|a: int| 0 <= a < MEMORY_SIZE ==> r@[a] == 0,
    {
        Memory { bytes: [0u8;65536] }
    }

    /// The byte at `addr`.
    pub fn get(&self, addr: u16) -> (r: u8)
        ensures
            r == self@[addr as int],
            self@.len() == MEMORY_SIZE,
    {
        self.bytes[addr as usize]
    }

    /// Stores `value` at `addr`.
    pub fn set(&mut self, addr: u16, value: u8)
        ensures
            final(self)@ == old(self)@.update(addr as int, value),
            final(self)@.len() == MEMORY_SIZE,
    {
        self.bytes[addr as usize] = value;
    }

    /// A store has exactly one byte for each 16-bit address.
    pub proof fn lemma_len(&self)
        ensures
            self@.len() == MEMORY_SIZE,
    {
    }
}

/// State of the processor: the registers, the status byte and the memory.
pub struct State {
    /// Program counter.
    pub pc: u16,
    /// Stack pointer: an 8-bit offset into the stack page.
    pub sp: u8,
    /// Status byte, `NV1BDIZC` from the highest bit down.
    pub psw: u8,
    /// Accumulator.
    pub accumulator: u8,
    /// Index register X.
    pub x: u8,
    /// Index register Y.
    pub y: u8,
    /// Content of the address space.
    pub memory: Memory,
}

impl View for State {
    type V = Machine;

    open spec fn view(&self) -> Machine {
        Machine {
            pc: self.pc,
            sp: self.sp,
            psw: self.psw,
            accumulator: self.accumulator,
            x: self.x,
            y: self.y,
            memory: self.memory@,
        }
    }
}

/// The upper eight bits of `w`.
pub fn high_byte_of(w: u16) -> (r: u8)
    ensures
        r == high_byte(w),
{
    assert((w >> 8) == w / 256 && (w >> 8) < 256) by (bit_vector);
    (w >> 8) as u8
}

/// The lower eight bits of `w`.
pub fn low_byte_of(w: u16) -> (r: u8)
    ensures
        r == low_byte(w),
{
    assert((w & 0xFF) == w % 256 && (w & 0xFF) < 256) by (bit_vector);
    (w & 0xFF) as u8
}

/// The word with low byte `low` and high byte `high`.
pub fn word_of(low: u8, high: u8) -> (r: u16)
    ensures
        r == word(low, high),
{
    let l: u16 = low as u16;
    let h: u16 = high as u16;
    assert(h < 256 && l < 256 ==> ((h << 8) | l) == h * 256 + l) by (bit_vector);
    (h << 8) | l
}

impl State {
    /// A state with all registers and all of memory zero, and only the
    /// hardwired bit of the status byte set. It promises nothing a program
    /// could rely on: the caller sets what it needs.
    pub fn new_undefined() -> (r: State)
        ensures
            r@.wf(),
            r.pc == 0,
            r.sp == 0,
            r.psw == PSW_ONE_BIT,
            r.accumulator == 0,
            r.x == 0,
            r.y == 0,
            forall|a: u16| r@.ram(a) == 0,
            r@.flags() == (Flags {
                carry: false,
                zero: false,
                interrupt: false,
                decimal: false,
                break_flag: false,
                one: true,
                overflow: false,
                negative: false,
            }),
    {
        assert(0x20u8 & 0x01 == 0 && 0x20u8 & 0x02 == 0 && 0x20u8 & 0x04 == 0 && 0x20u8 & 0x08 == 0
            && 0x20u8 & 0x10 == 0 && 0x20u8 & 0x20 != 0 && 0x20u8 & 0x40 == 0 && 0x20u8 & 0x80
            == 0) by (bit_vector);
        State { pc: 0, sp: 0, psw: PSW_ONE_BIT, accumulator: 0, x: 0, y: 0, memory: Memory::new() }
    }

    /// The model of every state has a byte for each address.
    pub proof fn lemma_wf(&self)
        ensures
            self@.wf(),
    {
        self.memory.lemma_len();
    }

    /// The byte stored at `addr`.
    pub fn ram_get(&self, addr: u16) -> (r: u8)
        ensures
            r == self@.ram(addr),
            self@.wf(),
    {
        self.memory.get(addr)
    }

    /// Stores `value` at `addr`; nothing else changes.
    pub fn ram_set(&mut self, addr: u16, value: u8)
        ensures
            final(self)@ == old(self)@.with_ram(addr, value),
            final(self)@.wf(),
    {
        self.memory.set(addr, value);
    }

    /// The address of the stack slot that the next push writes.
    pub fn get_sp(&self) -> (r: u16)
        ensures
            r == self@.stack_addr(),
            0x100 <= r <= 0x1FF,
    {
        STACK_OFFSET + self.sp as u16
    }

    /// Pushes `val`: writes it at `0x0100 + sp`, then lowers `sp` by one,
    /// wrapping from 0 to 255.
    pub fn stack_push(&mut self, val: u8)
        ensures
            final(self)@ == old(self)@.pushed(val),
            final(self)@.wf(),
    {
        let addr: u16 = self.get_sp();
        self.ram_set(addr, val);
        self.sp = self.sp.wrapping_sub(1);
    }

    /// Pops a byte: raises `sp` by one, wrapping from 255 to 0, then reads at
    /// `0x0100 + sp`. Memory is left as it was.
    pub fn stack_pop(&mut self) -> (r: u8)
        ensures
            final(self)@ == old(self)@.popped(),
            r == old(self)@.top(),
            final(self)@.wf(),
    {
        self.sp = self.sp.wrapping_add(1);
        let addr: u16 = self.get_sp();
        self.ram_get(addr)
    }

    /// Pushes the program counter: the high byte first, then the low byte.
    pub fn push_pc(&mut self)
        ensures
            final(self)@ == old(self)@.pc_pushed(),
            final(self)@.wf(),
    {
        let high: u8 = high_byte_of(self.pc);
        let low: u8 = low_byte_of(self.pc);
        self.stack_push(high);
        self.stack_push(low);
    }

    /// Pops the program counter: the low byte first, then the high byte.
    pub fn pop_pc(&mut self)
        ensures
            final(self)@ == old(self)@.pc_popped(),
            final(self)@.wf(),
    {
        let low: u8 = self.stack_pop();
        let high: u8 = self.stack_pop();
        self.pc = word_of(low, high);
    }

    /// Sets the flag under `mask` to `v` and leaves the other bits of the
    /// status byte, and everything else, as they were.
    fn set_flag(&mut self, mask: u8, v: bool)
        ensures
            final(self)@ == old(self)@.with_flag(mask, v),
    {
        if v {
            self.psw = self.psw | mask;
        } else {
            self.psw = self.psw & !mask;
        }
    }

    /// Whether a bit of `mask` is set in the status byte.
    fn get_flag(&self, mask: u8) -> (r: bool)
        ensures
            r == self@.flag(mask),
    {
        self.psw & mask != 0
    }
}

impl State {
    /// The Carry flag.
    pub fn get_carry(&self) -> (r: bool)
        ensures
            r == self@.carry(),
    {
        self.get_flag(PSW_CARRY_BIT)
    }

    /// Sets the Carry flag to `v`; the other seven bits of the status byte
    /// and everything else stay as they were.
    pub fn set_carry(&mut self, v: bool)
        ensures
            final(self)@ == old(self)@.with_flag(PSW_CARRY_BIT, v),
            final(self)@.flags() == old(self)@.flags().with(PSW_CARRY_BIT, v),
            final(self)@.carry() == v,
    {
        proof {
            self@.lemma_with_flag_flags(PSW_CARRY_BIT, v);
        }
        self.set_flag(PSW_CARRY_BIT, v);
    }

    /// The Zero flag.
    pub fn get_zero(&self) -> (r: bool)
        ensures
            r == self@.zero(),
    {
        self.get_flag(PSW_ZERO_BIT)
    }

    /// Sets the Zero flag to `v`; the other seven bits of the status byte
    /// and everything else stay as they were.
    pub fn set_zero(&mut self, v: bool)
        ensures
            final(self)@ == old(self)@.with_flag(PSW_ZERO_BIT, v),
            final(self)@.flags() == old(self)@.flags().with(PSW_ZERO_BIT, v),
            final(self)@.zero() == v,
    {
        proof {
            self@.lemma_with_flag_flags(PSW_ZERO_BIT, v);
        }
        self.set_flag(PSW_ZERO_BIT, v);
    }

    /// The Interrupt-disable flag.
    pub fn get_interrupt(&self) -> (r: bool)
        ensures
            r == self@.interrupt(),
    {
        self.get_flag(PSW_INTERRUPT_BIT)
    }

    /// Sets the Interrupt-disable flag to `v`; the other seven bits of the status byte
    /// and everything else stay as they were.
    pub fn set_interrupt(&mut self, v: bool)
        ensures
            final(self)@ == old(self)@.with_flag(PSW_INTERRUPT_BIT, v),
            final(self)@.flags() == old(self)@.flags().with(PSW_INTERRUPT_BIT, v),
            final(self)@.interrupt() == v,
    {
        proof {
            self@.lemma_with_flag_flags(PSW_INTERRUPT_BIT, v);
        }
        self.set_flag(PSW_INTERRUPT_BIT, v);
    }

    /// The Decimal flag. No operation consults it.
    pub fn get_decimal(&self) -> (r: bool)
        ensures
            r == self@.decimal(),
    {
        self.get_flag(PSW_DECIMAL_BIT)
    }

    /// Sets the Decimal flag to `v`; the other seven bits of the status byte
    /// and everything else stay as they were.
    pub fn set_decimal(&mut self, v: bool)
        ensures
            final(self)@ == old(self)@.with_flag(PSW_DECIMAL_BIT, v),
            final(self)@.flags() == old(self)@.flags().with(PSW_DECIMAL_BIT, v),
            final(self)@.decimal() == v,
    {
        proof {
            self@.lemma_with_flag_flags(PSW_DECIMAL_BIT, v);
        }
        self.set_flag(PSW_DECIMAL_BIT, v);
    }

    /// The Break flag.
    pub fn get_break(&self) -> (r: bool)
        ensures
            r == self@.break_flag(),
    {
        self.get_flag(PSW_BREAK_BIT)
    }

    /// Sets the Break flag to `v`; the other seven bits of the status byte
    /// and everything else stay as they were.
    pub fn set_break(&mut self, v: bool)
        ensures
            final(self)@ == old(self)@.with_flag(PSW_BREAK_BIT, v),
            final(self)@.flags() == old(self)@.flags().with(PSW_BREAK_BIT, v),
            final(self)@.break_flag() == v,
    {
        proof {
            self@.lemma_with_flag_flags(PSW_BREAK_BIT, v);
        }
        self.set_flag(PSW_BREAK_BIT, v);
    }

    /// The Overflow flag.
    pub fn get_overflow(&self) -> (r: bool)
        ensures
            r == self@.overflow(),
    {
        self.get_flag(PSW_OVERFLOW_BIT)
    }

    /// Sets the Overflow flag to `v`; the other seven bits of the status byte
    /// and everything else stay as they were.
    pub fn set_overflow(&mut self, v: bool)
        ensures
            final(self)@ == old(self)@.with_flag(PSW_OVERFLOW_BIT, v),
            final(self)@.flags() == old(self)@.flags().with(PSW_OVERFLOW_BIT, v),
            final(self)@.overflow() == v,
    {
        proof {
            self@.lemma_with_flag_flags(PSW_OVERFLOW_BIT, v);
        }
        self.set_flag(PSW_OVERFLOW_BIT, v);
    }

    /// The Negative flag.
    pub fn get_negative(&self) -> (r: bool)
        ensures
            r == self@.negative(),
    {
        self.get_flag(PSW_NEGATIVE_BIT)
    }

    /// Sets the Negative flag to `v`; the other seven bits of the status byte
    /// and everything else stay as they were.
    pub fn set_negative(&mut self, v: bool)
        ensures
            final(self)@ == old(self)@.with_flag(PSW_NEGATIVE_BIT, v),
            final(self)@.flags() == old(self)@.flags().with(PSW_NEGATIVE_BIT, v),
            final(self)@.negative() == v,
    {
        proof {
            self@.lemma_with_flag_flags(PSW_NEGATIVE_BIT, v);
        }
        self.set_flag(PSW_NEGATIVE_BIT, v);
    }

}

/// Whether `mask` selects exactly one bit of a byte.
pub open spec fn single_bit(mask: u8) -> bool {
    mask == 0x01 || mask == 0x02 || mask == 0x04 || mask == 0x08 || mask == 0x10 || mask == 0x20
        || mask == 0x40 || mask == 0x80
}

/// Writing the bit under `mask` makes that bit read as written and leaves
/// every other bit of the status byte as it was.
pub proof fn lemma_flag_written(psw: u8, mask: u8, v: bool, other: u8)
    requires
        single_bit(mask),
        single_bit(other),
    ensures
        (psw_with(psw, mask, v) & other != 0) == (if other == mask {
            v
        } else {
            psw & other != 0
        }),
{
    assert(single_bit(mask) && single_bit(other) ==> ((psw | mask) & other != 0) == (if other
        == mask {
        true
    } else {
        psw & other != 0
    })) by (bit_vector);
    assert(single_bit(mask) && single_bit(other) ==> ((psw & !mask) & other != 0) == (if other
        == mask {
        false
    } else {
        psw & other != 0
    })) by (bit_vector);
}

/// Two status bytes that hold the same flags are the same byte.
pub proof fn lemma_flags_determine_psw(p: u8, q: u8)
    requires
        flags_of(p) == flags_of(q),
    ensures
        p == q,
{
    assert(((p & 0x01 != 0) == (q & 0x01 != 0)) && ((p & 0x02 != 0) == (q & 0x02 != 0)) && ((p
        & 0x04 != 0) == (q & 0x04 != 0)) && ((p & 0x08 != 0) == (q & 0x08 != 0)) && ((p & 0x10
        != 0) == (q & 0x10 != 0)) && ((p & 0x20 != 0) == (q & 0x20 != 0)) && ((p & 0x40 != 0) == (
    q & 0x40 != 0)) && ((p & 0x80 != 0) == (q & 0x80 != 0)) ==> p == q) by (bit_vector);
}

impl Machine {
    /// A flag reads as it was last written, and writing one flag changes no
    /// other flag, the hardwired bit included.
    pub proof fn lemma_with_flag_flags(self, mask: u8, v: bool)
        requires
            single_bit(mask),
        ensures
            self.with_flag(mask, v).flags() == self.flags().with(mask, v),
            self.with_flag(mask, v).flag(mask) == v,
    {
        lemma_flag_written(self.psw, mask, v, PSW_CARRY_BIT);
        lemma_flag_written(self.psw, mask, v, PSW_ZERO_BIT);
        lemma_flag_written(self.psw, mask, v, PSW_INTERRUPT_BIT);
        lemma_flag_written(self.psw, mask, v, PSW_DECIMAL_BIT);
        lemma_flag_written(self.psw, mask, v, PSW_BREAK_BIT);
        lemma_flag_written(self.psw, mask, v, PSW_ONE_BIT);
        lemma_flag_written(self.psw, mask, v, PSW_OVERFLOW_BIT);
        lemma_flag_written(self.psw, mask, v, PSW_NEGATIVE_BIT);
    }

    /// A pop right after a push returns the pushed byte and brings the stack
    /// pointer back to where it was; only the written stack slot differs.
    pub proof fn lemma_push_pop(self, value: u8)
        requires
            self.wf(),
        ensures
            self.pushed(value).top() == value,
            self.pushed(value).popped().sp == self.sp,
            self.pushed(value).popped() == self.with_ram(self.stack_addr(), value),
    {
    }

    /// Popping the program counter right after pushing it restores it, and
    /// brings the stack pointer back to where it was.
    pub proof fn lemma_push_pop_pc(self)
        requires
            self.wf(),
        ensures
            self.pc_pushed().pc_popped().pc == self.pc,
            self.pc_pushed().pc_popped().sp == self.sp,
    {
        let a = self.pushed(high_byte(self.pc));
        a.lemma_push_pop(low_byte(self.pc));
        self.lemma_push_pop(high_byte(self.pc));
        let b = a.pushed(low_byte(self.pc));
        assert(b.top() == low_byte(self.pc));
        assert(b.popped().sp == a.sp);
        assert(b.popped().top() == high_byte(self.pc));
    }
}

} // verus!
