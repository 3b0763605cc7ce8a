use crate::bus::{add16, next_addr, word, Bus};
use crate::registers::{hi, high_byte, lo, low_byte, make_u16, Reg16, Reg8, Registers};
use vstd::prelude::*;

verus! {

/// A memory operand addressed through a register pair or an immediate word.
#[derive(Clone, Copy, Debug, PartialEq, Eq, Structural)]
pub enum Indirect {
    BC,
    DE,
    HL,
    ImmWord,
}

/// Where an 8-bit instruction operand comes from, before it is resolved.
#[derive(Clone, Copy, Debug, PartialEq, Eq, Structural)]
pub enum Operand8 {
    /// An 8-bit register.
    Reg(Reg8),
    /// The byte following the opcode.
    Imm,
    /// The byte at the address held by a pair or by the immediate word.
    Mem(Indirect),
    /// The byte at IX or IY plus a signed displacement that follows the opcode.
    Indexed(Reg16),
    /// The byte at an address already computed.
    At(u16),
    /// A constant.
    Value(u8),
}

/// A resolved 8-bit operand: a register, a memory byte or a plain value.
#[derive(Clone, Copy, Debug, PartialEq, Eq, Structural)]
pub enum Loc8 {
    Reg(Reg8),
    Addr(u16),
    Value(u8),
}

/// Where a 16-bit instruction operand comes from.
#[derive(Clone, Copy, Debug, PartialEq, Eq, Structural)]
pub enum Operand16 {
    /// A 16-bit register.
    Reg(Reg16),
    /// The word following the opcode.
    Imm,
    /// The word at the address that follows the opcode.
    MemImm,
}

/// The processor: registers, stack pointer, program counter and interrupt state.
#[derive(Clone, Copy, Debug, PartialEq, Eq, Structural)]
pub struct Z80 {
    pub registers: Registers,
    /// Interrupt mode, 0 to 2.
    pub interrupt_mode: u8,
    pub iff1: u8,
    pub iff2: u8,
    /// Set by EI: interrupts wait until one more instruction has completed.
    pub ei_instr: bool,
    /// A non-maskable interrupt has been requested and not yet served.
    pub nmi: bool,
    pub sp: u16,
    pub pc: u16,
    pub halted: bool,
}


/// Adds `k` to `a`, wrapping around the 16-bit address space.
pub fn offset16(a: u16, k: i32) -> (r: u16)
    requires
        -0x10000 < k < 0x10000,
    ensures
        r == add16(a, k as int),
{
    let t: i32 = a as i32 + k;
    let m: i32 = if t < 0 {
        t + 0x10000
    } else if t >= 0x10000 {
        t - 0x10000
    } else {
        t
    };
    m as u16
}

/// The byte `d` read as a two's complement number.
pub open spec fn signed(d: u8) -> int {
    if d < 128 {
        d as int
    } else {
        d as int - 256
    }
}

/// Moving by `j` and then by `k` is moving by `j + k`.
pub proof fn lemma_add16_add(a: u16, j: int, k: int)
    ensures
        add16(add16(a, j), k) == add16(a, j + k),
{
}

/// `base` displaced by the signed byte `d`.
pub open spec fn displaced(base: u16, d: u8) -> u16 {
    add16(base, signed(d))
}

/// R after one refresh: the low seven bits count up, bit 7 stays.
pub open spec fn refreshed(r: u8) -> u8 {
    (r & 0x80) | (((r as int + 1) as u8) & 0x7f)
}

/// Program bytes that locating `o` consumes.
pub open spec fn fetch_len8(o: Operand8) -> int {
    match o {
        Operand8::Imm => 1,
        Operand8::Mem(Indirect::ImmWord) => 2,
        Operand8::Indexed(_) => 1,
        _ => 0,
    }
}

/// T-states that locating `o` takes.
pub open spec fn fetch_time8(o: Operand8) -> int {
    match o {
        Operand8::Imm => 3,
        Operand8::Mem(Indirect::ImmWord) => 6,
        Operand8::Indexed(_) => 8,
        _ => 0,
    }
}

/// T-states of one access to a resolved operand: memory costs a cycle.
pub open spec fn access_time(l: Loc8) -> int {
    match l {
        Loc8::Addr(_) => 3,
        _ => 0,
    }
}

/// Memory after storing `v` at a resolved operand.
pub open spec fn stored_mem(mem: Map<u16, u8>, l: Loc8, v: u8) -> Map<u16, u8> {
    match l {
        Loc8::Addr(a) => mem.insert(a, v),
        _ => mem,
    }
}

/// The little-endian word at `a`.
pub open spec fn mem_word(mem: Map<u16, u8>, a: u16) -> u16 {
    word(mem[a], mem[next_addr(a)])
}

/// Memory after writing `w` little-endian at `a`.
pub open spec fn write_word(mem: Map<u16, u8>, a: u16, w: u16) -> Map<u16, u8> {
    mem.insert(a, lo(w)).insert(next_addr(a), hi(w))
}

/// Memory after pushing `w` below `sp`: high byte first, then low byte.
pub open spec fn pushed(mem: Map<u16, u8>, sp: u16, w: u16) -> Map<u16, u8> {
    mem.insert(add16(sp, -1), hi(w)).insert(add16(sp, -2), lo(w))
}

/// Program bytes that `o` takes.
pub open spec fn fetch_len16(o: Operand16) -> int {
    match o {
        Operand16::Reg(_) => 0,
        _ => 2,
    }
}

/// T-states of reading (or writing) `o`.
pub open spec fn time16(o: Operand16) -> int {
    match o {
        Operand16::Reg(_) => 0,
        Operand16::Imm => 6,
        Operand16::MemImm => 12,
    }
}

/// T-states of reading, modifying and writing back a resolved operand.
pub open spec fn rmw_time(l: Loc8) -> int {
    match l {
        Loc8::Addr(_) => 7,
        _ => 0,
    }
}

impl Z80 {
    /// The byte that reading operand `o` yields.
    pub open spec fn operand(self, mem: Map<u16, u8>, o: Operand8) -> u8 {
        self.load_spec(mem, self.loc8(mem, o))
    }

    /// T-states of reading operand `o`.
    pub open spec fn operand_time(self, mem: Map<u16, u8>, o: Operand8) -> int {
        fetch_time8(o) + access_time(self.loc8(mem, o))
    }

    /// The power-on state.
    pub open spec fn power_on() -> Z80 {
        Z80 {
            registers: Registers::power_on(),
            interrupt_mode: 0,
            iff1: 0,
            iff2: 0,
            ei_instr: false,
            nmi: false,
            sp: 0xdff0,
            pc: 0,
            halted: false,
        }
    }

    /// Whether the interrupt mode is one of 0, 1 and 2.
    pub open spec fn wf(self) -> bool {
        self.interrupt_mode <= 2
    }

    pub open spec fn reg16(self, r: Reg16) -> u16 {
        match r {
            Reg16::SP => self.sp,
            Reg16::PC => self.pc,
            _ => self.registers.get16_spec(r),
        }
    }

    pub open spec fn with16(self, r: Reg16, v: u16) -> Z80 {
        match r {
            Reg16::SP => Z80 { sp: v, ..self },
            Reg16::PC => Z80 { pc: v, ..self },
            _ => Z80 { registers: self.registers.set16_spec(r, v), ..self },
        }
    }

    pub open spec fn with8(self, r: Reg8, v: u8) -> Z80 {
        Z80 { registers: self.registers.set8_spec(r, v), ..self }
    }

    pub open spec fn with_f(self, f: u8) -> Z80 {
        Z80 { registers: Registers { f, ..self.registers }, ..self }
    }

    pub open spec fn with_pc(self, pc: u16) -> Z80 {
        Z80 { pc, ..self }
    }

    /// The processor with PC moved past `k` program bytes.
    pub open spec fn advanced(self, k: int) -> Z80 {
        Z80 { pc: add16(self.pc, k), ..self }
    }

    /// Where the operand `o` resolves to, given memory `mem`.
    pub open spec fn loc8(self, mem: Map<u16, u8>, o: Operand8) -> Loc8 {
        match o {
            Operand8::Reg(r) => Loc8::Reg(r),
            Operand8::Imm => Loc8::Value(mem[self.pc]),
            Operand8::Mem(Indirect::BC) => Loc8::Addr(self.registers.get16_spec(Reg16::BC)),
            Operand8::Mem(Indirect::DE) => Loc8::Addr(self.registers.get16_spec(Reg16::DE)),
            Operand8::Mem(Indirect::HL) => Loc8::Addr(self.registers.get16_spec(Reg16::HL)),
            Operand8::Mem(Indirect::ImmWord) => Loc8::Addr(mem_word(mem, self.pc)),
            Operand8::Indexed(r) => Loc8::Addr(displaced(self.reg16(r), mem[self.pc])),
            Operand8::At(a) => Loc8::Addr(a),
            Operand8::Value(v) => Loc8::Value(v),
        }
    }

    /// The byte held at a resolved operand.
    pub open spec fn load_spec(self, mem: Map<u16, u8>, l: Loc8) -> u8 {
        match l {
            Loc8::Reg(r) => self.registers.get8_spec(r),
            Loc8::Addr(a) => mem[a],
            Loc8::Value(v) => v,
        }
    }

    /// The processor after storing `v` at a resolved operand.
    pub open spec fn stored(self, l: Loc8, v: u8) -> Z80 {
        match l {
            Loc8::Reg(r) => self.with8(r, v),
            _ => self,
        }
    }

    /// The value of a 16-bit operand once the processor has fetched its bytes.
    pub open spec fn read16_spec(self, mem: Map<u16, u8>, o: Operand16) -> u16 {
        match o {
            Operand16::Reg(r) => self.reg16(r),
            Operand16::Imm => mem_word(mem, self.pc),
            Operand16::MemImm => mem_word(mem, mem_word(mem, self.pc)),
        }
    }

    /// Returns a processor in its power-on state.
    pub fn new() -> (r: Z80)
        ensures
            r == Z80::power_on(),
    {
        Z80 {
            registers: Registers::default(),
            interrupt_mode: 0,
            iff1: 0,
            iff2: 0,
            ei_instr: false,
            nmi: false,
            sp: 0xdff0,
            pc: 0,
            halted: false,
        }
    }

    /// Fetches an opcode byte: an M1 cycle of four T-states that also refreshes R.
    pub fn read_instruction<B: Bus>(&mut self, bus: &mut B) -> (v: u8)
        ensures
            v == old(bus).memory()[old(self).pc],
            *final(self) == (Z80 {
                pc: add16(old(self).pc, 1),
                registers: Registers { r: refreshed(old(self).registers.r), ..old(self).registers },
                ..*old(self)
            }),
            final(bus).memory() == old(bus).memory(),
            final(bus).clock() == old(bus).clock() + 4,
            final(bus).outputs() == old(bus).outputs(),
    {
        bus.tick(1, 4);
        let val = bus.memory_read(self.pc);
        self.pc = offset16(self.pc, 1);
        let r = self.registers.r;
        self.registers.r = (r & 0x80) | (((r as u16 + 1) as u8) & 0x7f);
        val
    }

    /// Reads the byte at PC as operand data.
    pub fn read_u8<B: Bus>(&mut self, bus: &mut B) -> (v: u8)
        ensures
            v == old(bus).memory()[old(self).pc],
            *final(self) == old(self).advanced(1),
            final(bus).memory() == old(bus).memory(),
            final(bus).clock() == old(bus).clock() + 3,
            final(bus).outputs() == old(bus).outputs(),
    {
        bus.tick(1, 3);
        let val = bus.memory_read(self.pc);
        self.pc = offset16(self.pc, 1);
        val
    }

    /// Reads the little-endian word at PC as operand data.
    pub fn read_u16<B: Bus>(&mut self, bus: &mut B) -> (v: u16)
        ensures
            v == mem_word(old(bus).memory(), old(self).pc),
            *final(self) == old(self).advanced(2),
            final(bus).memory() == old(bus).memory(),
            final(bus).clock() == old(bus).clock() + 6,
            final(bus).outputs() == old(bus).outputs(),
    {
        let lo = bus.memory_read(self.pc);
        self.pc = offset16(self.pc, 1);
        bus.tick(1, 3);
        let hi = bus.memory_read(self.pc);
        self.pc = offset16(self.pc, 1);
        bus.tick(1, 3);
        make_u16(lo, hi)
    }

    /// Reads the immediate word that gives an absolute address.
    pub fn read_address<B: Bus>(&mut self, bus: &mut B) -> (v: u16)
        ensures
            v == mem_word(old(bus).memory(), old(self).pc),
            *final(self) == old(self).advanced(2),
            final(bus).memory() == old(bus).memory(),
            final(bus).clock() == old(bus).clock() + 6,
            final(bus).outputs() == old(bus).outputs(),
    {
        self.read_u16(bus)
    }

    pub fn get16(&self, r: Reg16) -> (v: u16)
        ensures
            v == self.reg16(r),
    {
        match r {
            Reg16::SP => self.sp,
            Reg16::PC => self.pc,
            _ => self.registers.get16(r),
        }
    }

    pub fn set16(&mut self, r: Reg16, v: u16)
        ensures
            *final(self) == old(self).with16(r, v),
    {
        match r {
            Reg16::SP => self.sp = v,
            Reg16::PC => self.pc = v,
            _ => self.registers.set16(r, v),
        }
    }

    /// Resolves an 8-bit operand, fetching its displacement or address bytes.
    pub fn locate8<B: Bus>(&mut self, bus: &mut B, o: Operand8) -> (l: Loc8)
        ensures
            l == old(self).loc8(old(bus).memory(), o),
            *final(self) == old(self).advanced(fetch_len8(o)),
            final(bus).memory() == old(bus).memory(),
            final(bus).clock() == old(bus).clock() + fetch_time8(o),
            final(bus).outputs() == old(bus).outputs(),
    {
        match o {
            Operand8::Reg(r) => Loc8::Reg(r),
            Operand8::Imm => {
                let v = self.read_u8(bus);
                Loc8::Value(v)
            },
            Operand8::Mem(Indirect::BC) => Loc8::Addr(self.registers.get16(Reg16::BC)),
            Operand8::Mem(Indirect::DE) => Loc8::Addr(self.registers.get16(Reg16::DE)),
            Operand8::Mem(Indirect::HL) => Loc8::Addr(self.registers.get16(Reg16::HL)),
            Operand8::Mem(Indirect::ImmWord) => {
                let a = self.read_u16(bus);
                Loc8::Addr(a)
            },
            Operand8::Indexed(r) => {
                let base = self.get16(r);
                let d = self.read_u8(bus);
                bus.tick(1, 5);
                let off: i32 = if d < 128 {
                    d as i32
                } else {
                    d as i32 - 256
                };
                Loc8::Addr(offset16(base, off))
            },
            Operand8::At(a) => Loc8::Addr(a),
            Operand8::Value(v) => Loc8::Value(v),
        }
    }

    /// Reads the byte at a resolved operand.
    pub fn load8<B: Bus>(&mut self, bus: &mut B, l: Loc8) -> (v: u8)
        ensures
            v == old(self).load_spec(old(bus).memory(), l),
            *final(self) == *old(self),
            final(bus).memory() == old(bus).memory(),
            final(bus).clock() == old(bus).clock() + access_time(l),
            final(bus).outputs() == old(bus).outputs(),
    {
        match l {
            Loc8::Reg(r) => self.registers.get8(r),
            Loc8::Addr(a) => {
                bus.tick(1, 3);
                bus.memory_read(a)
            },
            Loc8::Value(v) => v,
        }
    }

    /// Writes a byte to a resolved operand; a plain value takes no store.
    pub fn store8<B: Bus>(&mut self, bus: &mut B, l: Loc8, v: u8)
        ensures
            *final(self) == old(self).stored(l, v),
            final(bus).memory() == stored_mem(old(bus).memory(), l, v),
            final(bus).clock() == old(bus).clock() + access_time(l),
            final(bus).outputs() == old(bus).outputs(),
    {
        match l {
            Loc8::Reg(r) => self.registers.set8(r, v),
            Loc8::Addr(a) => {
                bus.memory_write(a, v);
                bus.tick(1, 3);
            },
            Loc8::Value(_) => {},
        }
    }

    /// Reads an 8-bit operand: resolves it, then loads it.
    pub fn read8<B: Bus>(&mut self, bus: &mut B, o: Operand8) -> (v: u8)
        ensures
            v == old(self).load_spec(old(bus).memory(), old(self).loc8(old(bus).memory(), o)),
            *final(self) == old(self).advanced(fetch_len8(o)),
            final(bus).memory() == old(bus).memory(),
            final(bus).clock() == old(bus).clock() + fetch_time8(o) + access_time(
                old(self).loc8(old(bus).memory(), o),
            ),
            final(bus).outputs() == old(bus).outputs(),
    {
        let l = self.locate8(bus, o);
        self.load8(bus, l)
    }

    /// Reads a 16-bit operand.
    pub fn read16<B: Bus>(&mut self, bus: &mut B, o: Operand16) -> (v: u16)
        ensures
            v == old(self).read16_spec(old(bus).memory(), o),
            *final(self) == old(self).advanced(fetch_len16(o)),
            final(bus).memory() == old(bus).memory(),
            final(bus).clock() == old(bus).clock() + time16(o),
            final(bus).outputs() == old(bus).outputs(),
    {
        match o {
            Operand16::Reg(r) => self.get16(r),
            Operand16::Imm => self.read_u16(bus),
            Operand16::MemImm => {
                let a = self.read_u16(bus);
                let l = bus.memory_read(a);
                bus.tick(1, 3);
                let h = bus.memory_read(offset16(a, 1));
                bus.tick(1, 3);
                make_u16(l, h)
            },
        }
    }

    /// Writes a 16-bit operand; an immediate word takes no store.
    pub fn write16<B: Bus>(&mut self, bus: &mut B, o: Operand16, v: u16)
        ensures
            *final(self) == (match o {
                Operand16::Reg(r) => old(self).with16(r, v),
                _ => old(self).advanced(2),
            }),
            final(bus).memory() == (match o {
                Operand16::MemImm => write_word(
                    old(bus).memory(),
                    mem_word(old(bus).memory(), old(self).pc),
                    v,
                ),
                _ => old(bus).memory(),
            }),
            final(bus).clock() == old(bus).clock() + time16(o),
            final(bus).outputs() == old(bus).outputs(),
    {
        match o {
            Operand16::Reg(r) => self.set16(r, v),
            Operand16::Imm => {
                let _ = self.read_u16(bus);
            },
            Operand16::MemImm => {
                let a = self.read_u16(bus);
                bus.memory_write(a, low_byte(v));
                bus.tick(1, 3);
                bus.memory_write(offset16(a, 1), high_byte(v));
                bus.tick(1, 3);
            },
        }
    }

    /// Pushes a word: SP is decremented before each byte, high byte first.
    pub fn push_word<B: Bus>(&mut self, bus: &mut B, w: u16)
        ensures
            *final(self) == (Z80 { sp: add16(old(self).sp, -2), ..*old(self) }),
            final(bus).memory() == pushed(old(bus).memory(), old(self).sp, w),
            final(bus).clock() == old(bus).clock() + 6,
            final(bus).outputs() == old(bus).outputs(),
    {
        let lo = low_byte(w);
        let hi = high_byte(w);
        proof {
            lemma_add16_add(self.sp, -1, -1);
        }
        self.sp = offset16(self.sp, -1);
        bus.memory_write(self.sp, hi);
        bus.tick(1, 3);
        self.sp = offset16(self.sp, -1);
        bus.memory_write(self.sp, lo);
        bus.tick(1, 3);
    }

    /// Pops one byte from the stack.
    fn pop_byte<B: Bus>(&mut self, bus: &mut B) -> (v: u8)
        ensures
            v == old(bus).memory()[old(self).sp],
            *final(self) == (Z80 { sp: add16(old(self).sp, 1), ..*old(self) }),
            *final(bus) == *old(bus),
    {
        let sp = self.sp;
        let val = bus.memory_read(sp);
        self.sp = offset16(sp, 1);
        val
    }

    /// Pops a word: low byte first.
    pub fn pop_word<B: Bus>(&mut self, bus: &mut B) -> (w: u16)
        ensures
            w == mem_word(old(bus).memory(), old(self).sp),
            *final(self) == (Z80 { sp: add16(old(self).sp, 2), ..*old(self) }),
            final(bus).memory() == old(bus).memory(),
            final(bus).clock() == old(bus).clock() + 6,
            final(bus).outputs() == old(bus).outputs(),
    {
        proof {
            lemma_add16_add(self.sp, 1, 1);
        }
        let lo = self.pop_byte(bus);
        bus.tick(1, 3);
        let hi = self.pop_byte(bus);
        bus.tick(1, 3);
        make_u16(lo, hi)
    }
}

} // verus!
