//! The instruction handlers of the processor and the `step` executive.
use crate::bus::{add16, Bus};
use crate::cpu::{
    access_time, fetch_len16, fetch_len8, fetch_time8, lemma_add16_add, mem_word, offset16, pushed,
    refreshed, rmw_time, signed, stored_mem, time16, Loc8, Operand16, Operand8, Z80,
};
use crate::disassembler::instruction::Cond;
use crate::flags::{
    bit_if, flag_byte, is_parity_even, make_flags, parity_even, CARRY, FLAG_X, FLAG_Y, HALF_CARRY,
    PARITY, SIGN, SUBTRACT, XY_MASK, ZERO,
};
use crate::operations::eight_bit_arithmetic::{
    adc, add_flags, carry_in, carry_of, dec_flags, dec_u8, diff8, inc_flags, inc_u8, raw_addc, raw_sub,
    sbc, sub_flags,
    sum8,
};
use crate::operations::logic::{and, cp, logic_flags, or, xor};
use crate::operations::mem_ops::{block_compare, block_cp, cpd};
use crate::operations::rot_shf::{carried, rot_flags, rotate, shift_value, shifted, Shift};
use crate::operations::{
    base_table, cb_table, decode, decode_cb, decode_dd, decode_dd_fd_cb, decode_ed, decode_fd,
    ed_table, index_cb_table, operand_access, operand_rmw, AluOp, BlockOp, Op,
};
use crate::registers::{hi, high_byte, lo, low_byte, make_u16, Reg16, Reg8, Registers};
use vstd::prelude::*;

verus! {

/// Whether condition `c` holds under flags `f`.
pub open spec fn cond_holds(f: u8, c: Cond) -> bool {
    match c {
        Cond::Zero => f & ZERO != 0,
        Cond::NotZero => f & ZERO == 0,
        Cond::Carry => f & CARRY != 0,
        Cond::NotCarry => f & CARRY == 0,
        Cond::ParityEven => f & PARITY != 0,
        Cond::ParityOdd => f & PARITY == 0,
        Cond::Negative => f & SIGN != 0,
        Cond::Positive => f & SIGN == 0,
        Cond::True => true,
        Cond::False => false,
    }
}

/// Flags of RLCA, RRCA, RLA and RRA: S, Z and P/V kept, H and N cleared.
pub open spec fn acc_rot_flags(f: u8, r: u8, c: bool) -> u8 {
    (f & (SIGN | ZERO | PARITY)) | bit_if(c, CARRY) | (r & XY_MASK)
}

/// Flags of BIT b on `v`: Z and P/V when the bit is clear, S for a set bit 7.
pub open spec fn bit_flags(f: u8, b: u8, v: u8) -> u8 {
    let set = v & (1u8 << b) != 0;
    (f & CARRY) | bit_if(b == 7 && set, SIGN) | bit_if(!set, ZERO) | HALF_CARRY | bit_if(
        !set,
        PARITY,
    ) | (v & XY_MASK)
}

/// Flags of ADD HL, rr: H from bit 11, C from bit 15, S, Z and P/V kept.
pub open spec fn add16_flags(f: u8, d: u16, s: u16) -> u8 {
    let r = add16(d, s as int);
    (f & (SIGN | ZERO | PARITY)) | bit_if((d & 0x0fff) + (s & 0x0fff) > 0x0fff, HALF_CARRY)
        | bit_if(d as int + s as int > 0xffff, CARRY) | (hi(r) & XY_MASK)
}

/// The value DAA leaves in A.
pub open spec fn daa_value(a: u8, f: u8) -> u8 {
    let delta = (if f & CARRY != 0 || a > 0x99 {
        0x60int
    } else {
        0
    }) + (if f & HALF_CARRY != 0 || (a & 0x0f) > 9 {
        6int
    } else {
        0
    });
    (if f & SUBTRACT != 0 {
        a as int - delta
    } else {
        a as int + delta
    }) as u8
}

/// The flags DAA leaves.
pub open spec fn daa_flags(a: u8, f: u8) -> u8 {
    let r = daa_value(a, f);
    flag_byte(
        r & 0x80 != 0,
        r == 0,
        (a ^ r) & 0x10 != 0,
        parity_even(r),
        f & SUBTRACT != 0,
        f & CARRY != 0 || a > 0x99,
        r,
    )
}

/// Flags of IN r, (C) on `v`: carry kept.
pub open spec fn in_flags(f: u8, v: u8) -> u8 {
    (f & CARRY) | flag_byte(v & 0x80 != 0, v == 0, false, parity_even(v), false, false, v)
}

/// Flags of a block transfer that copied `v` and left `bc`.
pub open spec fn block_ld_flags(a: u8, v: u8, bc: u16, f: u8) -> u8 {
    let n = (a as int + v as int) as u8;
    (f & (SIGN | ZERO | CARRY)) | bit_if(bc != 0, PARITY) | bit_if(n & 0x02 != 0, FLAG_Y)
        | bit_if(n & 0x08 != 0, FLAG_X)
}

/// The processor after one block transfer step moving HL and DE by `step`.
pub open spec fn block_ld(cpu: Z80, mem: Map<u16, u8>, step: int) -> Z80 {
    let hl = cpu.reg16(Reg16::HL);
    let de = cpu.reg16(Reg16::DE);
    let bc = add16(cpu.reg16(Reg16::BC), -1);
    cpu.with16(Reg16::HL, add16(hl, step)).with16(Reg16::DE, add16(de, step)).with16(
        Reg16::BC,
        bc,
    ).with_f(block_ld_flags(cpu.registers.a, mem[hl], bc, cpu.registers.f))
}

/// Memory after one block transfer step: the byte at HL copied to DE.
pub open spec fn block_ld_mem(cpu: Z80, mem: Map<u16, u8>) -> Map<u16, u8> {
    mem.insert(cpu.reg16(Reg16::DE), mem[cpu.reg16(Reg16::HL)])
}

/// The processor after one LDIR step: a transfer, and PC back on the
/// instruction while BC is not zero.
pub open spec fn ldir_step(cpu: Z80, mem: Map<u16, u8>) -> Z80 {
    let c = block_ld(cpu, mem, 1);
    if c.reg16(Reg16::BC) != 0 {
        c.with_pc(add16(c.pc, -2))
    } else {
        c
    }
}

/// The instruction again when `again` holds: PC back on its two bytes.
pub open spec fn repeated(c: Z80, again: bool) -> Z80 {
    if again {
        c.with_pc(add16(c.pc, -2))
    } else {
        c
    }
}

/// The processor after INI (`step` 1) or IND that read `v` from port C.
pub open spec fn block_in_state(cpu: Z80, v: u8, step: int) -> Z80 {
    let hl = cpu.reg16(Reg16::HL);
    let b = (cpu.registers.b as int - 1) as u8;
    let k = v as int + ((cpu.registers.c as int + step) as u8) as int;
    cpu.with16(Reg16::HL, add16(hl, step)).with8(Reg8::B, b).with_f(block_io_flags(v, k, b))
}

/// The processor after OUTI (`step` 1) or OUTD.
pub open spec fn block_out_state(cpu: Z80, mem: Map<u16, u8>, step: int) -> Z80 {
    let hl = cpu.reg16(Reg16::HL);
    let nhl = add16(hl, step);
    let b = (cpu.registers.b as int - 1) as u8;
    let v = mem[hl];
    cpu.with16(Reg16::HL, nhl).with8(Reg8::B, b).with_f(
        block_io_flags(v, v as int + lo(nhl) as int, b),
    )
}

/// What running the block instruction `b` does: from processor `c0`, memory
/// `m0` and port writes `o0` to `c1`, `m1` and `o1`, taking `dt` T-states.
pub open spec fn block_executed(
    c0: Z80,
    m0: Map<u16, u8>,
    o0: Seq<(u8, u8)>,
    b: BlockOp,
    c1: Z80,
    m1: Map<u16, u8>,
    dt: int,
    o1: Seq<(u8, u8)>,
) -> bool {
    let hl = c0.reg16(Reg16::HL);
    let step: int = if b == BlockOp::Ldd || b == BlockOp::Cpd || b == BlockOp::Ind || b
        == BlockOp::Outd || b == BlockOp::Lddr || b == BlockOp::Cpdr || b == BlockOp::Indr || b
        == BlockOp::Otdr {
        -1
    } else {
        1
    };
    let repeats = b == BlockOp::Ldir || b == BlockOp::Lddr || b == BlockOp::Cpir || b
        == BlockOp::Cpdr || b == BlockOp::Inir || b == BlockOp::Indr || b == BlockOp::Otir || b
        == BlockOp::Otdr;
    match b {
        BlockOp::Ldi | BlockOp::Ldd | BlockOp::Ldir | BlockOp::Lddr => {
            let c = block_ld(c0, m0, step);
            let again = repeats && c.reg16(Reg16::BC) != 0;
            &&& c1 == repeated(c, again)
            &&& m1 == block_ld_mem(c0, m0)
            &&& dt == 8 + (if again { 5int } else { 0 })
            &&& o1 == o0
        },
        BlockOp::Cpi | BlockOp::Cpd | BlockOp::Cpir | BlockOp::Cpdr => {
            let c = block_cp(c0, m0, step);
            let again = repeats && c.reg16(Reg16::BC) != 0 && c.registers.f & ZERO == 0;
            &&& c1 == repeated(c, again)
            &&& m1 == m0
            &&& dt == 8 + (if again { 5int } else { 0 })
            &&& o1 == o0
        },
        BlockOp::Ini | BlockOp::Ind | BlockOp::Inir | BlockOp::Indr => {
            let v = m1[hl];
            let c = block_in_state(c0, v, step);
            let again = repeats && c.registers.b != 0;
            &&& c1 == repeated(c, again)
            &&& m1 == m0.insert(hl, v)
            &&& dt == 8 + (if again { 5int } else { 0 })
            &&& o1 == o0
        },
        _ => {
            let c = block_out_state(c0, m0, step);
            let again = repeats && c.registers.b != 0;
            &&& c1 == repeated(c, again)
            &&& m1 == m0
            &&& dt == 8 + (if again { 5int } else { 0 })
            &&& o1 == o0.push((c0.registers.c, m0[hl]))
        },
    }
}

/// The processor after CPL.
pub open spec fn cpl_spec(c: Z80) -> Z80 {
    c.with_f(
        (c.registers.f & (SIGN | ZERO | PARITY | CARRY)) | HALF_CARRY | SUBTRACT | ((c.registers.a
            ^ 0xff) & XY_MASK),
    ).with8(Reg8::A, c.registers.a ^ 0xff)
}

/// The registers after EXX.
pub open spec fn exx_spec(r: Registers) -> Registers {
    r.swapped(Reg16::BC).swapped(Reg16::DE).swapped(Reg16::HL)
}

/// Flags of a block I/O step that moved `v`, with `k` the sum the hardware forms
/// and `b` the new B.
pub open spec fn block_io_flags(v: u8, k: int, b: u8) -> u8 {
    flag_byte(
        b & 0x80 != 0,
        b == 0,
        k > 255,
        parity_even(((k as u8) & 7) ^ b),
        v & 0x80 != 0,
        k > 255,
        b,
    )
}

impl Z80 {
    pub fn read_cond(&self, c: Cond) -> (r: bool)
        ensures
            r == cond_holds(self.registers.f, c),
    {
        let f = self.registers.f;
        match c {
            Cond::Zero => f & ZERO != 0,
            Cond::NotZero => f & ZERO == 0,
            Cond::Carry => f & CARRY != 0,
            Cond::NotCarry => f & CARRY == 0,
            Cond::ParityEven => f & PARITY != 0,
            Cond::ParityOdd => f & PARITY == 0,
            Cond::Negative => f & SIGN != 0,
            Cond::Positive => f & SIGN == 0,
            Cond::True => true,
            Cond::False => false,
        }
    }

    /// LD dest, source.
    pub fn ld8<B: Bus>(&mut self, bus: &mut B, dest: Operand8, source: Operand8)
        ensures
            ({
                let m = old(bus).memory();
                let v = old(self).operand(m, source);
                let mid = old(self).advanced(fetch_len8(source));
                let l = mid.loc8(m, dest);
                &&& *final(self) == mid.advanced(fetch_len8(dest)).stored(l, v)
                &&& final(bus).memory() == stored_mem(m, l, v)
                &&& final(bus).clock() == old(bus).clock() + old(self).operand_time(m, source)
                    + fetch_time8(dest) + access_time(l)
                &&& final(bus).outputs() == old(bus).outputs()
            }),
    {
        let v = self.read8(bus, source);
        let l = self.locate8(bus, dest);
        self.store8(bus, l, v);
    }

    /// LD (IX+d), n: the displacement comes before the immediate byte.
    pub fn ld_indexed_imm<B: Bus>(&mut self, bus: &mut B, index: Reg16)
        ensures
            ({
                let m = old(bus).memory();
                let a = add16(old(self).reg16(index), signed(m[old(self).pc]));
                &&& *final(self) == old(self).advanced(2)
                &&& final(bus).memory() == m.insert(a, m[add16(old(self).pc, 1)])
                &&& final(bus).clock() == old(bus).clock() + 11
                &&& final(bus).outputs() == old(bus).outputs()
            }),
    {
        let base = self.get16(index);
        let d = self.read_u8(bus);
        let n = self.read_u8(bus);
        bus.tick(1, 2);
        let off: i32 = if d < 128 {
            d as i32
        } else {
            d as i32 - 256
        };
        let a = offset16(base, off);
        bus.memory_write(a, n);
        bus.tick(1, 3);
    }

    /// LD dest, source on words.
    pub fn ld16<B: Bus>(&mut self, bus: &mut B, dest: Operand16, source: Operand16)
        requires
            dest != Operand16::Imm,
        ensures
            ({
                let m = old(bus).memory();
                let v = old(self).read16_spec(m, source);
                let mid = old(self).advanced(fetch_len16(source));
                &&& *final(self) == (match dest {
                    Operand16::Reg(r) => mid.with16(r, v),
                    _ => mid.advanced(2),
                })
                &&& final(bus).memory() == (match dest {
                    Operand16::MemImm => crate::cpu::write_word(m, mem_word(m, mid.pc), v),
                    _ => m,
                })
                &&& final(bus).clock() == old(bus).clock() + time16(source) + time16(dest)
                &&& final(bus).outputs() == old(bus).outputs()
            }),
    {
        let v = self.read16(bus, source);
        self.write16(bus, dest, v);
    }

    /// INC rr: no flags.
    pub fn inc16<B: Bus>(&mut self, bus: &mut B, r: Reg16)
        ensures
            *final(self) == old(self).with16(r, add16(old(self).reg16(r), 1)),
            final(bus).memory() == old(bus).memory(),
            final(bus).clock() == old(bus).clock() + 2,
            final(bus).outputs() == old(bus).outputs(),
    {
        let v = self.get16(r);
        self.set16(r, offset16(v, 1));
        bus.tick(0, 2);
    }

    /// DEC rr: no flags.
    pub fn dec16<B: Bus>(&mut self, bus: &mut B, r: Reg16)
        ensures
            *final(self) == old(self).with16(r, add16(old(self).reg16(r), -1)),
            final(bus).memory() == old(bus).memory(),
            final(bus).clock() == old(bus).clock() + 2,
            final(bus).outputs() == old(bus).outputs(),
    {
        let v = self.get16(r);
        self.set16(r, offset16(v, -1));
        bus.tick(0, 2);
    }

    /// ADD HL, rr (or IX, IY).
    pub fn add16<B: Bus>(&mut self, bus: &mut B, dest: Reg16, source: Reg16)
        ensures
            ({
                let d = old(self).reg16(dest);
                let s = old(self).reg16(source);
                *final(self) == old(self).with_f(add16_flags(old(self).registers.f, d, s)).with16(
                    dest,
                    add16(d, s as int),
                )
            }),
            final(bus).memory() == old(bus).memory(),
            final(bus).clock() == old(bus).clock() + 7,
            final(bus).outputs() == old(bus).outputs(),
    {
        let d = self.get16(dest);
        let s = self.get16(source);
        let r = offset16(d, s as i32);
        let f = self.registers.f;
        let hr = high_byte(r);
        assert((d & 0x0fff) <= 0x0fff && (s & 0x0fff) <= 0x0fff) by (bit_vector);
        self.registers.f = (f & (SIGN | ZERO | PARITY)) | (if (d & 0x0fff) + (s & 0x0fff) > 0x0fff {
            HALF_CARRY
        } else {
            0
        }) | (if d as u32 + s as u32 > 0xffff {
            CARRY
        } else {
            0
        }) | (hr & XY_MASK);
        self.set16(dest, r);
        bus.tick(1, 7);
    }

    /// ADC HL, rr, as two chained 8-bit additions; Z comes from the whole word.
    pub fn adc16<B: Bus>(&mut self, bus: &mut B, source: Reg16)
        ensures
            ({
                let d = old(self).reg16(Reg16::HL);
                let s = old(self).reg16(source);
                let l = sum8(lo(d), lo(s), carry_of(old(self).registers.f));
                let lc: u8 = if l & 0x100 != 0 { 1 } else { 0 };
                let h = sum8(hi(d), hi(s), lc);
                let r = crate::bus::word(l as u8, h as u8);
                *final(self) == old(self).with16(Reg16::HL, r).with_f(
                    (add_flags(hi(d), hi(s), h) & !ZERO) | bit_if(r == 0, ZERO),
                )
            }),
            final(bus).memory() == old(bus).memory(),
            final(bus).clock() == old(bus).clock() + 7,
            final(bus).outputs() == old(bus).outputs(),
    {
        let d = self.registers.get16(Reg16::HL);
        let s = self.get16(source);
        let c = carry_in(self);
        let l = raw_addc(self, low_byte(d), low_byte(s), c);
        proof {
            let (sd, ss) = (lo(d), lo(s));
            let t = sum8(sd, ss, c);
            crate::flags::lemma_flag_byte(
                (t as u8) & 0x80 != 0,
                t as u8 == 0,
                (sd ^ ss ^ (t as u8)) & 0x10 != 0,
                (!(sd ^ ss) & (sd ^ (t as u8)) & 0x80) != 0,
                false,
                t & 0x100 != 0,
                t as u8,
            );
        }
        let c2 = carry_in(self);
        let h = raw_addc(self, high_byte(d), high_byte(s), c2);
        let r = make_u16(l, h);
        self.registers.set16(Reg16::HL, r);
        self.registers.f = (self.registers.f & !ZERO) | (if r == 0 {
            ZERO
        } else {
            0
        });
        bus.tick(1, 7);
    }

    /// SBC HL, rr, as two chained 8-bit subtractions; Z comes from the whole word.
    pub fn sbc16<B: Bus>(&mut self, bus: &mut B, source: Reg16)
        ensures
            ({
                let d = old(self).reg16(Reg16::HL);
                let s = old(self).reg16(source);
                let l = diff8(lo(d), lo(s), carry_of(old(self).registers.f));
                let lc: u8 = if l & 0x100 != 0 { 1 } else { 0 };
                let h = diff8(hi(d), hi(s), lc);
                let r = crate::bus::word(l as u8, h as u8);
                *final(self) == old(self).with16(Reg16::HL, r).with_f(
                    (sub_flags(hi(d), hi(s), h, h as u8) & !ZERO) | bit_if(r == 0, ZERO),
                )
            }),
            final(bus).memory() == old(bus).memory(),
            final(bus).clock() == old(bus).clock() + 7,
            final(bus).outputs() == old(bus).outputs(),
    {
        let d = self.registers.get16(Reg16::HL);
        let s = self.get16(source);
        let c = carry_in(self);
        let l = raw_sub(self, low_byte(d), low_byte(s), c);
        proof {
            let (sd, ss) = (lo(d), lo(s));
            let t = diff8(sd, ss, c);
            crate::flags::lemma_flag_byte(
                (t as u8) & 0x80 != 0,
                t as u8 == 0,
                (sd ^ ss ^ (t as u8)) & 0x10 != 0,
                ((sd ^ ss) & (sd ^ (t as u8)) & 0x80) != 0,
                true,
                t & 0x100 != 0,
                t as u8,
            );
        }
        let c2 = carry_in(self);
        let h = raw_sub(self, high_byte(d), high_byte(s), c2);
        let r = make_u16(l, h);
        self.registers.set16(Reg16::HL, r);
        self.registers.f = (self.registers.f & !ZERO) | (if r == 0 {
            ZERO
        } else {
            0
        });
        bus.tick(1, 7);
    }

    /// RLCA, RRCA, RLA or RRA: rotates A, keeping S, Z and P/V.
    pub fn rotate_a(&mut self, kind: Shift)
        requires
            kind == Shift::Rlc || kind == Shift::Rrc || kind == Shift::Rl || kind == Shift::Rr,
        ensures
            ({
                let a = old(self).registers.a;
                let f = old(self).registers.f;
                let r = shifted(kind, a, f & CARRY != 0);
                *final(self) == old(self).with_f(acc_rot_flags(f, r, carried(kind, a))).with8(
                    Reg8::A,
                    r,
                )
            }),
    {
        let a = self.registers.a;
        let f = self.registers.f;
        let (r, c) = shift_value(kind, a, f & CARRY != 0);
        self.registers.f = (f & (SIGN | ZERO | PARITY)) | (if c {
            CARRY
        } else {
            0
        }) | (r & XY_MASK);
        self.registers.a = r;
    }

    /// RRA: rotates A right through the carry.
    pub fn rra(&mut self)
        ensures
            ({
                let a = old(self).registers.a;
                let f = old(self).registers.f;
                let r = shifted(Shift::Rr, a, f & CARRY != 0);
                *final(self) == old(self).with_f(acc_rot_flags(f, r, a & 1 != 0)).with8(Reg8::A, r)
            }),
    {
        self.rotate_a(Shift::Rr)
    }

    /// CPL: complements A and sets H and N.
    pub fn cpl(&mut self)
        ensures
            *final(self) == cpl_spec(*old(self)),
    {
        let r = self.registers.a ^ 0xff;
        self.registers.f = (self.registers.f & (SIGN | ZERO | PARITY | CARRY)) | HALF_CARRY
            | SUBTRACT | (r & XY_MASK);
        self.registers.a = r;
    }

    /// SCF: sets the carry, clears H and N.
    pub fn scf(&mut self)
        ensures
            *final(self) == old(self).with_f(
                (old(self).registers.f & (SIGN | ZERO | PARITY)) | CARRY | (old(self).registers.a
                    & XY_MASK),
            ),
    {
        self.registers.f = (self.registers.f & (SIGN | ZERO | PARITY)) | CARRY | (self.registers.a
            & XY_MASK);
    }

    /// CCF: complements the carry, H takes the old carry, N is cleared.
    pub fn ccf(&mut self)
        ensures
            ({
                let f = old(self).registers.f;
                let c = f & CARRY != 0;
                *final(self) == old(self).with_f(
                    (f & (SIGN | ZERO | PARITY)) | bit_if(c, HALF_CARRY) | bit_if(!c, CARRY) | (old(
                        self,
                    ).registers.a & XY_MASK),
                )
            }),
    {
        let f = self.registers.f;
        let c = f & CARRY != 0;
        self.registers.f = (f & (SIGN | ZERO | PARITY)) | (if c {
            HALF_CARRY
        } else {
            0
        }) | (if !c {
            CARRY
        } else {
            0
        }) | (self.registers.a & XY_MASK);
    }

    /// DAA: decimal adjustment of A after a BCD addition or subtraction.
    pub fn daa(&mut self)
        ensures
            *final(self) == old(self).with_f(daa_flags(old(self).registers.a, old(self).registers.f)).with8(
                Reg8::A,
                daa_value(old(self).registers.a, old(self).registers.f),
            ),
    {
        let a = self.registers.a;
        let f = self.registers.f;
        let hi_adj = f & CARRY != 0 || a > 0x99;
        let lo_adj = f & HALF_CARRY != 0 || (a & 0x0f) > 9;
        let delta: i16 = (if hi_adj {
            0x60i16
        } else {
            0
        }) + (if lo_adj {
            6i16
        } else {
            0
        });
        let r = (if f & SUBTRACT != 0 {
            a as i16 - delta
        } else {
            a as i16 + delta
        }) as u8;
        let p = is_parity_even(r);
        self.registers.f = make_flags(
            r & 0x80 != 0,
            r == 0,
            (a ^ r) & 0x10 != 0,
            p,
            f & SUBTRACT != 0,
            hi_adj,
            r,
        );
        self.registers.a = r;
    }

    /// BIT b, source.
    pub fn test_bit<B: Bus>(&mut self, bus: &mut B, bit: u8, source: Operand8)
        requires
            bit < 8,
        ensures
            ({
                let m = old(bus).memory();
                let l = old(self).loc8(m, source);
                let v = old(self).load_spec(m, l);
                &&& *final(self) == old(self).advanced(fetch_len8(source)).with_f(
                    bit_flags(old(self).registers.f, bit, v),
                )
                &&& final(bus).memory() == m
                &&& final(bus).clock() == old(bus).clock() + fetch_time8(source) + (if l is Addr {
                    4int
                } else {
                    0
                })
                &&& final(bus).outputs() == old(bus).outputs()
            }),
    {
        let l = self.locate8(bus, source);
        let v = self.load8(bus, l);
        if let Loc8::Addr(_) = l {
            bus.tick(0, 1);
        }
        let set = v & (1u8 << bit) != 0;
        let f = self.registers.f;
        self.registers.f = (f & CARRY) | (if bit == 7 && set {
            SIGN
        } else {
            0
        }) | (if !set {
            ZERO
        } else {
            0
        }) | HALF_CARRY | (if !set {
            PARITY
        } else {
            0
        }) | (v & XY_MASK);
    }

    /// SET b or RES b on an operand in place; flags are kept.
    pub fn change_bit<B: Bus>(&mut self, bus: &mut B, bit: u8, source: Operand8, value: bool)
        requires
            bit < 8,
        ensures
            ({
                let m = old(bus).memory();
                let l = old(self).loc8(m, source);
                let v = old(self).load_spec(m, l);
                let r = if value {
                    v | (1u8 << bit)
                } else {
                    v & !(1u8 << bit)
                };
                &&& *final(self) == old(self).advanced(fetch_len8(source)).stored(l, r)
                &&& final(bus).memory() == stored_mem(m, l, r)
                &&& final(bus).clock() == old(bus).clock() + fetch_time8(source) + rmw_time(l)
                &&& final(bus).outputs() == old(bus).outputs()
            }),
    {
        let l = self.locate8(bus, source);
        let v = self.load8(bus, l);
        if let Loc8::Addr(_) = l {
            bus.tick(0, 1);
        }
        let r = if value {
            crate::flags::set_bit(v, bit)
        } else {
            crate::flags::reset_bit(v, bit)
        };
        self.store8(bus, l, r);
    }

    /// JP cc, nn.
    pub fn jp_cond<B: Bus>(&mut self, bus: &mut B, cond: Cond)
        ensures
            *final(self) == if cond_holds(old(self).registers.f, cond) {
                old(self).with_pc(mem_word(old(bus).memory(), old(self).pc))
            } else {
                old(self).advanced(2)
            },
            final(bus).memory() == old(bus).memory(),
            final(bus).clock() == old(bus).clock() + 6,
            final(bus).outputs() == old(bus).outputs(),
    {
        let c = self.read_cond(cond);
        let addr = self.read_u16(bus);
        if c {
            self.pc = addr;
        }
    }

    /// JR cc, e: a relative jump from the address after the instruction.
    pub fn jr<B: Bus>(&mut self, bus: &mut B, cond: Cond)
        ensures
            ({
                let m = old(bus).memory();
                let taken = cond_holds(old(self).registers.f, cond);
                &&& *final(self) == if taken {
                    old(self).with_pc(add16(add16(old(self).pc, 1), signed(m[old(self).pc])))
                } else {
                    old(self).advanced(1)
                }
                &&& final(bus).memory() == m
                &&& final(bus).clock() == old(bus).clock() + (if taken {
                    8int
                } else {
                    3
                })
                &&& final(bus).outputs() == old(bus).outputs()
            }),
    {
        let c = self.read_cond(cond);
        let e = self.read_u8(bus);
        if c {
            let off: i32 = if e < 128 {
                e as i32
            } else {
                e as i32 - 256
            };
            self.pc = offset16(self.pc, off);
            bus.tick(1, 5);
        }
    }

    /// DJNZ e: decrements B and jumps while it is not zero.
    pub fn djnz<B: Bus>(&mut self, bus: &mut B)
        ensures
            ({
                let m = old(bus).memory();
                let b = (old(self).registers.b as int - 1) as u8;
                let mid = old(self).with8(Reg8::B, b);
                &&& *final(self) == if b != 0 {
                    mid.with_pc(add16(add16(old(self).pc, 1), signed(m[old(self).pc])))
                } else {
                    mid.advanced(1)
                }
                &&& final(bus).memory() == m
                &&& final(bus).clock() == old(bus).clock() + (if b != 0 {
                    9int
                } else {
                    4
                })
                &&& final(bus).outputs() == old(bus).outputs()
            }),
    {
        bus.tick(0, 1);
        let b = (self.registers.b as i16 - 1) as u8;
        self.registers.b = b;
        if b != 0 {
            self.jr(bus, Cond::True);
        } else {
            let _ = self.read_u8(bus);
        }
    }

    /// CALL cc, nn: pushes the address after the instruction when taken.
    pub fn call_cond<B: Bus>(&mut self, bus: &mut B, cond: Cond)
        ensures
            ({
                let m = old(bus).memory();
                let taken = cond_holds(old(self).registers.f, cond);
                let ret = add16(old(self).pc, 2);
                &&& *final(self) == if taken {
                    Z80 { sp: add16(old(self).sp, -2), pc: mem_word(m, old(self).pc), ..*old(self) }
                } else {
                    old(self).advanced(2)
                }
                &&& final(bus).memory() == if taken {
                    pushed(m, old(self).sp, ret)
                } else {
                    m
                }
                &&& final(bus).clock() == old(bus).clock() + (if taken {
                    13int
                } else {
                    6
                })
                &&& final(bus).outputs() == old(bus).outputs()
            }),
    {
        let c = self.read_cond(cond);
        let addr = self.read_u16(bus);
        if c {
            bus.tick(0, 1);
            let pc = self.pc;
            self.push_word(bus, pc);
            self.pc = addr;
        }
    }

    /// RET: pops PC.
    pub fn ret<B: Bus>(&mut self, bus: &mut B)
        ensures
            *final(self) == (Z80 {
                sp: add16(old(self).sp, 2),
                pc: mem_word(old(bus).memory(), old(self).sp),
                ..*old(self)
            }),
            final(bus).memory() == old(bus).memory(),
            final(bus).clock() == old(bus).clock() + 6,
            final(bus).outputs() == old(bus).outputs(),
    {
        self.pc = self.pop_word(bus);
    }

    /// RET cc.
    pub fn ret_cond<B: Bus>(&mut self, bus: &mut B, cond: Cond)
        ensures
            *final(self) == if cond_holds(old(self).registers.f, cond) {
                Z80 {
                    sp: add16(old(self).sp, 2),
                    pc: mem_word(old(bus).memory(), old(self).sp),
                    ..*old(self)
                }
            } else {
                *old(self)
            },
            final(bus).memory() == old(bus).memory(),
            final(bus).clock() == old(bus).clock() + (if cond_holds(old(self).registers.f, cond) {
                7int
            } else {
                1
            }),
            final(bus).outputs() == old(bus).outputs(),
    {
        bus.tick(0, 1);
        if self.read_cond(cond) {
            self.pc = self.pop_word(bus);
        }
    }

    /// LD SP, HL (or IX, IY).
    pub fn ld_sp<B: Bus>(&mut self, bus: &mut B, r: Reg16)
        ensures
            *final(self) == (Z80 { sp: old(self).reg16(r), ..*old(self) }),
            final(bus).memory() == old(bus).memory(),
            final(bus).clock() == old(bus).clock() + 2,
            final(bus).outputs() == old(bus).outputs(),
    {
        self.sp = self.get16(r);
        bus.tick(0, 2);
    }

    /// LD A, I or LD A, R: P/V takes IFF2, the other flags are kept.
    pub fn ld_a_from<B: Bus>(&mut self, bus: &mut B, r: Reg8)
        ensures
            *final(self) == old(self).with8(Reg8::A, old(self).registers.get8_spec(r)).with_f(
                (old(self).registers.f & !PARITY) | bit_if(old(self).iff2 != 0, PARITY),
            ),
            final(bus).memory() == old(bus).memory(),
            final(bus).clock() == old(bus).clock() + 1,
            final(bus).outputs() == old(bus).outputs(),
    {
        bus.tick(0, 1);
        self.registers.a = self.registers.get8(r);
        let f = self.registers.f & !PARITY;
        self.registers.f = f | (if self.iff2 != 0 {
            PARITY
        } else {
            0
        });
    }

    /// LD I, A or LD R, A: no flags.
    pub fn ld_from_a<B: Bus>(&mut self, bus: &mut B, r: Reg8)
        ensures
            *final(self) == old(self).with8(r, old(self).registers.a),
            final(bus).memory() == old(bus).memory(),
            final(bus).clock() == old(bus).clock() + 1,
            final(bus).outputs() == old(bus).outputs(),
    {
        bus.tick(0, 1);
        let a = self.registers.a;
        self.registers.set8(r, a);
    }

    /// JP (HL) (or IX, IY).
    pub fn jp_reg(&mut self, r: Reg16)
        ensures
            *final(self) == old(self).with_pc(old(self).reg16(r)),
    {
        self.pc = self.get16(r);
    }

    /// RETI: pops PC and enables interrupts.
    pub fn reti<B: Bus>(&mut self, bus: &mut B)
        ensures
            *final(self) == (Z80 {
                sp: add16(old(self).sp, 2),
                pc: mem_word(old(bus).memory(), old(self).sp),
                iff1: 1,
                iff2: 1,
                ..*old(self)
            }),
            final(bus).memory() == old(bus).memory(),
            final(bus).clock() == old(bus).clock() + 6,
            final(bus).outputs() == old(bus).outputs(),
    {
        self.ret(bus);
        self.iff1 = 1;
        self.iff2 = 1;
    }

    /// RETN: pops PC; IFF1 takes IFF2 back.
    pub fn retn<B: Bus>(&mut self, bus: &mut B)
        ensures
            *final(self) == (Z80 {
                sp: add16(old(self).sp, 2),
                pc: mem_word(old(bus).memory(), old(self).sp),
                iff1: old(self).iff2,
                ..*old(self)
            }),
            final(bus).memory() == old(bus).memory(),
            final(bus).clock() == old(bus).clock() + 6,
            final(bus).outputs() == old(bus).outputs(),
    {
        self.ret(bus);
        self.iff1 = self.iff2;
    }

    /// DI: disables interrupts at once.
    pub fn di(&mut self)
        ensures
            *final(self) == (Z80 { iff1: 0, iff2: 0, ..*old(self) }),
    {
        self.iff1 = 0;
        self.iff2 = 0;
    }

    /// EI: enables interrupts, held off until one more instruction has run.
    pub fn ei(&mut self)
        ensures
            *final(self) == (Z80 { iff1: 1, iff2: 1, ei_instr: true, ..*old(self) }),
    {
        self.iff1 = 1;
        self.iff2 = 1;
        self.ei_instr = true;
    }

    /// HALT: stops with PC back on the HALT opcode until an interrupt.
    pub fn halt(&mut self)
        ensures
            *final(self) == (Z80 { halted: true, pc: add16(old(self).pc, -1), ..*old(self) }),
    {
        self.halted = true;
        self.pc = offset16(self.pc, -1);
    }

    /// IM m: selects the interrupt mode.
    pub fn im(&mut self, m: u8)
        requires
            m <= 2,
        ensures
            *final(self) == (Z80 { interrupt_mode: m, ..*old(self) }),
    {
        self.interrupt_mode = m;
    }

    /// RST n: pushes PC and jumps to `n`.
    pub fn rst<B: Bus>(&mut self, bus: &mut B, n: u8)
        ensures
            *final(self) == (Z80 { sp: add16(old(self).sp, -2), pc: n as u16, ..*old(self) }),
            final(bus).memory() == pushed(old(bus).memory(), old(self).sp, old(self).pc),
            final(bus).clock() == old(bus).clock() + 7,
            final(bus).outputs() == old(bus).outputs(),
    {
        bus.tick(0, 1);
        let pc = self.pc;
        self.push_word(bus, pc);
        self.pc = n as u16;
    }

    /// PUSH rr.
    pub fn push<B: Bus>(&mut self, bus: &mut B, r: Reg16)
        ensures
            *final(self) == (Z80 { sp: add16(old(self).sp, -2), ..*old(self) }),
            final(bus).memory() == pushed(old(bus).memory(), old(self).sp, old(self).reg16(r)),
            final(bus).clock() == old(bus).clock() + 7,
            final(bus).outputs() == old(bus).outputs(),
    {
        bus.tick(0, 1);
        let v = self.get16(r);
        self.push_word(bus, v);
    }

    /// POP rr.
    pub fn pop<B: Bus>(&mut self, bus: &mut B, r: Reg16)
        ensures
            *final(self) == (Z80 { sp: add16(old(self).sp, 2), ..*old(self) }).with16(
                r,
                mem_word(old(bus).memory(), old(self).sp),
            ),
            final(bus).memory() == old(bus).memory(),
            final(bus).clock() == old(bus).clock() + 6,
            final(bus).outputs() == old(bus).outputs(),
    {
        let v = self.pop_word(bus);
        self.set16(r, v);
    }

    /// EX AF, AF'.
    pub fn ex_af(&mut self)
        ensures
            *final(self) == (Z80 { registers: old(self).registers.swapped(Reg16::AF), ..*old(self) }),
    {
        self.registers.alt_swap(Reg16::AF);
    }

    /// EXX: exchanges BC, DE and HL with their alternates.
    pub fn exx(&mut self)
        ensures
            *final(self) == (Z80 { registers: exx_spec(old(self).registers), ..*old(self) }),
    {
        self.registers.alt_swap(Reg16::BC);
        self.registers.alt_swap(Reg16::DE);
        self.registers.alt_swap(Reg16::HL);
    }

    /// EX DE, HL.
    pub fn ex_de_hl(&mut self)
        ensures
            *final(self) == old(self).with16(Reg16::DE, old(self).reg16(Reg16::HL)).with16(
                Reg16::HL,
                old(self).reg16(Reg16::DE),
            ),
    {
        let de = self.registers.get16(Reg16::DE);
        let hl = self.registers.get16(Reg16::HL);
        self.registers.set16(Reg16::DE, hl);
        self.registers.set16(Reg16::HL, de);
    }

    /// EX (SP), HL (or IX, IY).
    pub fn ex_sp<B: Bus>(&mut self, bus: &mut B, r: Reg16)
        ensures
            *final(self) == old(self).with16(r, mem_word(old(bus).memory(), old(self).sp)),
            final(bus).memory() == crate::cpu::write_word(
                old(bus).memory(),
                old(self).sp,
                old(self).reg16(r),
            ),
            final(bus).clock() == old(bus).clock() + 15,
            final(bus).outputs() == old(bus).outputs(),
    {
        let sp = self.sp;
        let l = bus.memory_read(sp);
        bus.tick(1, 3);
        let h = bus.memory_read(offset16(sp, 1));
        bus.tick(1, 3);
        bus.tick(0, 1);
        let v = self.get16(r);
        bus.memory_write(sp, low_byte(v));
        bus.tick(1, 3);
        bus.memory_write(offset16(sp, 1), high_byte(v));
        bus.tick(1, 3);
        bus.tick(0, 2);
        self.set16(r, make_u16(l, h));
    }

    /// IN A, (n): no flags.
    pub fn in_imm<B: Bus>(&mut self, bus: &mut B) -> (v: u8)
        ensures
            *final(self) == old(self).advanced(1).with8(Reg8::A, v),
            final(bus).memory() == old(bus).memory(),
            final(bus).clock() == old(bus).clock() + 7,
            final(bus).outputs() == old(bus).outputs(),
    {
        let port = self.read_u8(bus);
        let v = bus.port_read(port);
        bus.tick(1, 4);
        self.registers.a = v;
        v
    }

    /// OUT (n), A.
    pub fn out_imm<B: Bus>(&mut self, bus: &mut B)
        ensures
            *final(self) == old(self).advanced(1),
            final(bus).memory() == old(bus).memory(),
            final(bus).clock() == old(bus).clock() + 7,
            final(bus).outputs() == old(bus).outputs().push(
                (old(bus).memory()[old(self).pc], old(self).registers.a),
            ),
    {
        let port = self.read_u8(bus);
        let a = self.registers.a;
        bus.port_write(port, a);
        bus.tick(1, 4);
    }

    /// IN r, (C): sets S, Z, P/V from the byte read, clears H and N.
    pub fn read_port<B: Bus>(&mut self, bus: &mut B, r: Reg8) -> (v: u8)
        ensures
            *final(self) == old(self).with8(r, v).with_f(in_flags(old(self).with8(r, v).registers.f, v)),
            final(bus).memory() == old(bus).memory(),
            final(bus).clock() == old(bus).clock() + 4,
            final(bus).outputs() == old(bus).outputs(),
    {
        let port = self.registers.c;
        let v = bus.port_read(port);
        bus.tick(1, 4);
        self.registers.set8(r, v);
        let p = is_parity_even(v);
        self.registers.f = (self.registers.f & CARRY) | make_flags(
            v & 0x80 != 0,
            v == 0,
            false,
            p,
            false,
            false,
            v,
        );
        v
    }

    /// OUT (C), source.
    pub fn write_port<B: Bus>(&mut self, bus: &mut B, source: Operand8)
        requires
            source is Reg || source is Value,
        ensures
            *final(self) == *old(self),
            final(bus).memory() == old(bus).memory(),
            final(bus).clock() == old(bus).clock() + 4,
            final(bus).outputs() == old(bus).outputs().push(
                (old(self).registers.c, old(self).operand(old(bus).memory(), source)),
            ),
    {
        let v = self.read8(bus, source);
        let port = self.registers.c;
        bus.port_write(port, v);
        bus.tick(1, 4);
    }

    /// NEG: `A = 0 - A` with the flags of that subtraction.
    pub fn neg(&mut self)
        ensures
            ({
                let a = old(self).registers.a;
                *final(self) == old(self).with_f(sub_flags(0, a, diff8(0, a, 0), diff8(0, a, 0) as u8)).with8(
                    Reg8::A,
                    diff8(0, a, 0) as u8,
                )
            }),
    {
        let a = self.registers.a;
        let r = raw_sub(self, 0, a, 0);
        self.registers.a = r;
    }

    /// RRD (when `left` is false) or RLD: rotates a digit between A and the byte at HL.
    pub fn rotate_digit<B: Bus>(&mut self, bus: &mut B, left: bool)
        ensures
            ({
                let m = old(bus).memory();
                let hl = old(self).reg16(Reg16::HL);
                let v = m[hl];
                let a = old(self).registers.a;
                let na: u8 = if left {
                    (a & 0xf0) | ((v >> 4u8) & 0x0f)
                } else {
                    (a & 0xf0) | (v & 0x0f)
                };
                let nv: u8 = if left {
                    (v << 4u8) | (a & 0x0f)
                } else {
                    (v >> 4u8) | (a << 4u8)
                };
                &&& *final(self) == old(self).with8(Reg8::A, na).with_f(
                    (old(self).registers.f & CARRY) | flag_byte(
                        na & 0x80 != 0,
                        na == 0,
                        false,
                        parity_even(na),
                        false,
                        false,
                        na,
                    ),
                )
                &&& final(bus).memory() == m.insert(hl, nv)
                &&& final(bus).clock() == old(bus).clock() + 10
                &&& final(bus).outputs() == old(bus).outputs()
            }),
    {
        let hl = self.registers.get16(Reg16::HL);
        let v = bus.memory_read(hl);
        bus.tick(1, 3);
        bus.tick(0, 4);
        let a = self.registers.a;
        let na: u8 = if left {
            (a & 0xf0) | ((v >> 4u8) & 0x0f)
        } else {
            (a & 0xf0) | (v & 0x0f)
        };
        let nv: u8 = if left {
            (v << 4u8) | (a & 0x0f)
        } else {
            (v >> 4u8) | (a << 4u8)
        };
        self.registers.a = na;
        bus.memory_write(hl, nv);
        bus.tick(1, 3);
        let p = is_parity_even(na);
        self.registers.f = (self.registers.f & CARRY) | make_flags(
            na & 0x80 != 0,
            na == 0,
            false,
            p,
            false,
            false,
            na,
        );
    }

    /// LDI (`step` 1) or LDD (`step` -1): copies the byte at HL to DE.
    pub fn block_load<B: Bus>(&mut self, bus: &mut B, step: i32)
        requires
            step == 1 || step == -1,
        ensures
            *final(self) == block_ld(*old(self), old(bus).memory(), step as int),
            final(bus).memory() == block_ld_mem(*old(self), old(bus).memory()),
            final(bus).clock() == old(bus).clock() + 8,
            final(bus).outputs() == old(bus).outputs(),
    {
        let de = self.registers.get16(Reg16::DE);
        let hl = self.registers.get16(Reg16::HL);
        let v = bus.memory_read(hl);
        bus.tick(1, 3);
        bus.memory_write(de, v);
        bus.tick(1, 5);
        self.registers.set16(Reg16::HL, offset16(hl, step));
        self.registers.set16(Reg16::DE, offset16(de, step));
        let bc = offset16(self.registers.get16(Reg16::BC), -1);
        self.registers.set16(Reg16::BC, bc);
        let n = (self.registers.a as u16 + v as u16) as u8;
        let f = self.registers.f;
        self.registers.f = (f & (SIGN | ZERO | CARRY)) | (if bc != 0 {
            PARITY
        } else {
            0
        }) | (if n & 0x02 != 0 {
            FLAG_Y
        } else {
            0
        }) | (if n & 0x08 != 0 {
            FLAG_X
        } else {
            0
        });
    }

    /// LDI: copies the byte at HL to DE, increments both and decrements BC.
    pub fn ldi<B: Bus>(&mut self, bus: &mut B)
        ensures
            *final(self) == block_ld(*old(self), old(bus).memory(), 1),
            final(bus).memory() == block_ld_mem(*old(self), old(bus).memory()),
            final(bus).clock() == old(bus).clock() + 8,
            final(bus).outputs() == old(bus).outputs(),
    {
        self.block_load(bus, 1)
    }

    /// LDD: copies the byte at HL to DE, decrements both and BC.
    pub fn ldd<B: Bus>(&mut self, bus: &mut B)
        ensures
            *final(self) == block_ld(*old(self), old(bus).memory(), -1),
            final(bus).memory() == block_ld_mem(*old(self), old(bus).memory()),
            final(bus).clock() == old(bus).clock() + 8,
            final(bus).outputs() == old(bus).outputs(),
    {
        self.block_load(bus, -1)
    }

    /// Moves PC back onto the current two-byte instruction so that it runs again.
    fn repeat<B: Bus>(&mut self, bus: &mut B)
        ensures
            *final(self) == old(self).with_pc(add16(old(self).pc, -2)),
            final(bus).memory() == old(bus).memory(),
            final(bus).clock() == old(bus).clock() + 5,
            final(bus).outputs() == old(bus).outputs(),
    {
        self.pc = offset16(self.pc, -2);
        bus.tick(0, 5);
    }

    /// LDIR: one LDI, and the instruction again while BC is not zero.
    pub fn ldir<B: Bus>(&mut self, bus: &mut B)
        ensures
            *final(self) == ldir_step(*old(self), old(bus).memory()),
            final(bus).memory() == block_ld_mem(*old(self), old(bus).memory()),
            final(bus).clock() == old(bus).clock() + 8 + (if block_ld(
                *old(self),
                old(bus).memory(),
                1,
            ).reg16(Reg16::BC) != 0 {
                5int
            } else {
                0
            }),
            final(bus).outputs() == old(bus).outputs(),
    {
        self.block_load(bus, 1);
        if self.registers.get16(Reg16::BC) != 0 {
            self.repeat(bus);
        }
    }

    /// LDDR: one LDD, and the instruction again while BC is not zero.
    pub fn lddr<B: Bus>(&mut self, bus: &mut B)
        ensures
            ({
                let c = block_ld(*old(self), old(bus).memory(), -1);
                *final(self) == if c.reg16(Reg16::BC) != 0 {
                    c.with_pc(add16(c.pc, -2))
                } else {
                    c
                }
            }),
            final(bus).memory() == block_ld_mem(*old(self), old(bus).memory()),
            final(bus).clock() == old(bus).clock() + 8 + (if block_ld(
                *old(self),
                old(bus).memory(),
                -1,
            ).reg16(Reg16::BC) != 0 {
                5int
            } else {
                0
            }),
            final(bus).outputs() == old(bus).outputs(),
    {
        self.block_load(bus, -1);
        if self.registers.get16(Reg16::BC) != 0 {
            self.repeat(bus);
        }
    }

    /// CPI: compares A with the byte at HL, increments HL, decrements BC.
    pub fn cpi<B: Bus>(&mut self, bus: &mut B)
        ensures
            *final(self) == block_cp(*old(self), old(bus).memory(), 1),
            final(bus).memory() == old(bus).memory(),
            final(bus).clock() == old(bus).clock() + 8,
            final(bus).outputs() == old(bus).outputs(),
    {
        block_compare(self, bus, 1)
    }

    /// CPIR (`step` 1) or CPDR: one compare, and again while BC is not zero and no match.
    pub fn cpir<B: Bus>(&mut self, bus: &mut B, step: i32)
        requires
            step == 1 || step == -1,
        ensures
            ({
                let c = block_cp(*old(self), old(bus).memory(), step as int);
                *final(self) == if c.reg16(Reg16::BC) != 0 && c.registers.f & ZERO == 0 {
                    c.with_pc(add16(c.pc, -2))
                } else {
                    c
                }
            }),
            final(bus).memory() == old(bus).memory(),
            final(bus).clock() == old(bus).clock() + 8 + (if ({
                let c = block_cp(*old(self), old(bus).memory(), step as int);
                c.reg16(Reg16::BC) != 0 && c.registers.f & ZERO == 0
            }) {
                5int
            } else {
                0
            }),
            final(bus).outputs() == old(bus).outputs(),
    {
        block_compare(self, bus, step);
        if self.registers.get16(Reg16::BC) != 0 && self.registers.f & ZERO == 0 {
            self.repeat(bus);
        }
    }

    /// INI (`step` 1) or IND: reads port C into the byte at HL, then moves HL and counts B down.
    pub fn block_in<B: Bus>(&mut self, bus: &mut B, step: i32) -> (v: u8)
        requires
            step == 1 || step == -1,
        ensures
            *final(self) == block_in_state(*old(self), v, step as int),
            final(bus).memory() == old(bus).memory().insert(old(self).reg16(Reg16::HL), v),
            final(bus).clock() == old(bus).clock() + 8,
            final(bus).outputs() == old(bus).outputs(),
    {
        bus.tick(0, 1);
        let c = self.registers.c;
        let v = bus.port_read(c);
        bus.tick(1, 4);
        let hl = self.registers.get16(Reg16::HL);
        bus.memory_write(hl, v);
        bus.tick(1, 3);
        self.registers.set16(Reg16::HL, offset16(hl, step));
        let b = (self.registers.b as i16 - 1) as u8;
        self.registers.b = b;
        let k: u16 = v as u16 + ((c as i32 + step) as u8) as u16;
        self.set_io_flags(v, k, b);
        v
    }

    /// Sets the flags of a block I/O step.
    fn set_io_flags(&mut self, v: u8, k: u16, b: u8)
        ensures
            *final(self) == old(self).with_f(block_io_flags(v, k as int, b)),
    {
        let p = is_parity_even(((k as u8) & 7) ^ b);
        self.registers.f = make_flags(b & 0x80 != 0, b == 0, k > 255, p, v & 0x80 != 0, k > 255, b);
    }

    /// OUTI (`step` 1) or OUTD: counts B down, writes the byte at HL to port C, moves HL.
    pub fn block_out<B: Bus>(&mut self, bus: &mut B, step: i32)
        requires
            step == 1 || step == -1,
        ensures
            *final(self) == block_out_state(*old(self), old(bus).memory(), step as int),
            final(bus).memory() == old(bus).memory(),
            final(bus).clock() == old(bus).clock() + 8,
            final(bus).outputs() == old(bus).outputs().push(
                (old(self).registers.c, old(bus).memory()[old(self).reg16(Reg16::HL)]),
            ),
    {
        bus.tick(0, 1);
        let hl = self.registers.get16(Reg16::HL);
        let v = bus.memory_read(hl);
        bus.tick(1, 3);
        let b = (self.registers.b as i16 - 1) as u8;
        self.registers.b = b;
        let c = self.registers.c;
        bus.port_write(c, v);
        bus.tick(1, 4);
        let nhl = offset16(hl, step);
        self.registers.set16(Reg16::HL, nhl);
        let k: u16 = v as u16 + low_byte(nhl) as u16;
        self.set_io_flags(v, k, b);
    }

    /// OUTI: counts B down, writes the byte at HL to port C, increments HL.
    pub fn outi<B: Bus>(&mut self, bus: &mut B)
        ensures
            ({
                let hl = old(self).reg16(Reg16::HL);
                let nhl = add16(hl, 1);
                let b = (old(self).registers.b as int - 1) as u8;
                let v = old(bus).memory()[hl];
                &&& *final(self) == old(self).with16(Reg16::HL, nhl).with8(Reg8::B, b).with_f(
                    block_io_flags(v, v as int + lo(nhl) as int, b),
                )
                &&& final(bus).memory() == old(bus).memory()
                &&& final(bus).clock() == old(bus).clock() + 8
                &&& final(bus).outputs() == old(bus).outputs().push((old(self).registers.c, v))
            }),
    {
        self.block_out(bus, 1)
    }

    /// OTIR: one OUTI, and the instruction again while B is not zero.
    pub fn otir<B: Bus>(&mut self, bus: &mut B)
        ensures
            block_executed(
                *old(self),
                old(bus).memory(),
                old(bus).outputs(),
                BlockOp::Otir,
                *final(self),
                final(bus).memory(),
                final(bus).clock() - old(bus).clock(),
                final(bus).outputs(),
            ),
    {
        self.block(bus, BlockOp::Otir)
    }

    /// INIR (`step` 1) or INDR: one INI or IND, and again while B is not zero.
    pub fn block_in_repeat<B: Bus>(&mut self, bus: &mut B, step: i32) -> (v: u8)
        requires
            step == 1 || step == -1,
        ensures
            ({
                let c = block_in_state(*old(self), v, step as int);
                &&& *final(self) == repeated(c, c.registers.b != 0)
                &&& final(bus).memory() == old(bus).memory().insert(old(self).reg16(Reg16::HL), v)
                &&& final(bus).clock() == old(bus).clock() + 8 + (if c.registers.b != 0 {
                    5int
                } else {
                    0
                })
                &&& final(bus).outputs() == old(bus).outputs()
            }),
    {
        let v = self.block_in(bus, step);
        if self.registers.b != 0 {
            self.repeat(bus);
        }
        v
    }

    /// OTIR (`step` 1) or OTDR: one OUTI or OUTD, and again while B is not zero.
    pub fn block_out_repeat<B: Bus>(&mut self, bus: &mut B, step: i32)
        requires
            step == 1 || step == -1,
        ensures
            ({
                let c = block_out_state(*old(self), old(bus).memory(), step as int);
                &&& *final(self) == repeated(c, c.registers.b != 0)
                &&& final(bus).memory() == old(bus).memory()
                &&& final(bus).clock() == old(bus).clock() + 8 + (if c.registers.b != 0 {
                    5int
                } else {
                    0
                })
                &&& final(bus).outputs() == old(bus).outputs().push(
                    (old(self).registers.c, old(bus).memory()[old(self).reg16(Reg16::HL)]),
                )
            }),
    {
        self.block_out(bus, step);
        if self.registers.b != 0 {
            self.repeat(bus);
        }
    }
}

/// One executed instruction: its operation, the opcode bytes fetched for it
/// (prefixes included, each an M1 cycle of four T-states), and the bytes and
/// T-states of the displacement and opcode fetch of the DD CB / FD CB page.
#[derive(Clone, Copy, Debug, PartialEq, Eq, Structural)]
pub struct Executed {
    pub op: Op,
    pub fetches: u8,
    pub extra_bytes: u8,
    pub extra_time: u8,
}

impl Executed {
    /// The instruction's length in bytes.
    pub open spec fn len(self) -> int {
        self.fetches + self.extra_bytes + self.op.operand_len()
    }

    /// The instruction's T-states, when it does not branch.
    pub open spec fn time(self) -> int {
        4 * self.fetches + self.extra_time + self.op.time()
    }
}

/// The instruction that follows the first opcode byte, decoded as `op`, when
/// PC is just past that byte: prefixes lead into their pages, and an index
/// prefix followed by another index prefix is wasted.
pub open spec fn prefixed(cpu: Z80, mem: Map<u16, u8>, op: Op) -> Executed {
    let b1 = mem[cpu.pc];
    match op {
        Op::PrefixCB => Executed { op: cb_table(b1), fetches: 2, extra_bytes: 0, extra_time: 0 },
        Op::PrefixED => Executed { op: ed_table(b1), fetches: 2, extra_bytes: 0, extra_time: 0 },
        Op::PrefixDD | Op::PrefixFD => {
            let index = if op is PrefixDD {
                Reg16::IX
            } else {
                Reg16::IY
            };
            if b1 == 0xdd || b1 == 0xfd {
                Executed { op: Op::Nop, fetches: 1, extra_bytes: 0, extra_time: 0 }
            } else {
                let b2 = mem[add16(cpu.pc, 1)];
                match base_table(Some(index), b1) {
                    Op::PrefixED => Executed {
                        op: ed_table(b2),
                        fetches: 3,
                        extra_bytes: 0,
                        extra_time: 0,
                    },
                    Op::IndexCB(i) => Executed {
                        op: index_cb_table(
                            add16(cpu.reg16(i), signed(b2)),
                            mem[add16(cpu.pc, 2)],
                        ),
                        fetches: 2,
                        extra_bytes: 2,
                        extra_time: 8,
                    },
                    Op::PrefixCB | Op::PrefixDD | Op::PrefixFD => Executed {
                        op: Op::Nop,
                        fetches: 2,
                        extra_bytes: 0,
                        extra_time: 0,
                    },
                    o => Executed { op: o, fetches: 2, extra_bytes: 0, extra_time: 0 },
                }
            }
        },
        _ => Executed { op, fetches: 1, extra_bytes: 0, extra_time: 0 },
    }
}

/// The instruction at PC, decoded from the bytes in memory.
pub open spec fn instruction_at(cpu: Z80, mem: Map<u16, u8>) -> Executed {
    prefixed(cpu.advanced(1), mem, base_table(None, mem[cpu.pc]))
}

/// What executing the decoded operation `op` does: from processor `c0`,
/// memory `m0` and port writes `o0` to `c1`, `m1` and `o1`, taking `dt`
/// T-states. Each case is the contract of the operation's handler.
#[verifier::opaque]
pub open spec fn executed(
    c0: Z80,
    m0: Map<u16, u8>,
    o0: Seq<(u8, u8)>,
    op: Op,
    c1: Z80,
    m1: Map<u16, u8>,
    dt: int,
    o1: Seq<(u8, u8)>,
) -> bool {
    match op {
        Op::Nop => {
            &&& c1 == c0
            &&& m1 == m0
            &&& dt == 0
            &&& o1 == o0
        },
        Op::Ld8(dest, source) => {
            &&& ({
                    let m = m0;
                    let v = c0.operand(m, source);
                    let mid = c0.advanced(fetch_len8(source));
                    let l = mid.loc8(m, dest);
                    &&& c1 == mid.advanced(fetch_len8(dest)).stored(l, v)
                    &&& m1 == stored_mem(m, l, v)
                    &&& dt == c0.operand_time(m, source) + fetch_time8(dest) + access_time(l)
                    &&& o1 == o0
            })
        },
        Op::LdIndexedImm(index) => {
            &&& ({
                    let m = m0;
                    let a = add16(c0.reg16(index), signed(m[c0.pc]));
                    &&& c1 == c0.advanced(2)
                    &&& m1 == m.insert(a, m[add16(c0.pc, 1)])
                    &&& dt == 11
                    &&& o1 == o0
            })
        },
        Op::Ld16(dest, source) => {
            &&& ({
                    let m = m0;
                    let v = c0.read16_spec(m, source);
                    let mid = c0.advanced(fetch_len16(source));
                    &&& c1 == (match dest { Operand16::Reg(r) => mid.with16(r, v), _ => mid.advanced(2) })
                    &&& m1 == (match dest { Operand16::MemImm => crate::cpu::write_word(m, mem_word(m, mid.pc), v), _ => m })
                    &&& dt == time16(source) + time16(dest)
                    &&& o1 == o0
            })
        },
        Op::LdSp(r) => {
            &&& c1 == (Z80 { sp: c0.reg16(r), ..c0 })
            &&& m1 == m0
            &&& dt == 2
            &&& o1 == o0
        },
        Op::LdAFrom(r) => {
            &&& c1 == c0.with8(Reg8::A, c0.registers.get8_spec(r)).with_f((c0.registers.f & !PARITY) | bit_if(c0.iff2 != 0, PARITY))
            &&& m1 == m0
            &&& dt == 1
            &&& o1 == o0
        },
        Op::LdFromA(r) => {
            &&& c1 == c0.with8(r, c0.registers.a)
            &&& m1 == m0
            &&& dt == 1
            &&& o1 == o0
        },
        Op::Inc8(reg) => {
            &&& ({
                    let m = m0;
                    let l = c0.loc8(m, reg);
                    let v = c0.load_spec(m, l);
                    let r = (v as int + 1) as u8;
                    &&& c1 == c0.advanced(fetch_len8(reg)).with_f(inc_flags(v, c0.registers.f)).stored(l, r)
                    &&& m1 == stored_mem(m, l, r)
                    &&& dt == fetch_time8(reg) + rmw_time(l)
                    &&& o1 == o0
            })
        },
        Op::Dec8(reg) => {
            &&& ({
                    let m = m0;
                    let l = c0.loc8(m, reg);
                    let v = c0.load_spec(m, l);
                    let r = (v as int - 1) as u8;
                    &&& c1 == c0.advanced(fetch_len8(reg)).with_f(dec_flags(v, c0.registers.f)).stored(l, r)
                    &&& m1 == stored_mem(m, l, r)
                    &&& dt == fetch_time8(reg) + rmw_time(l)
                    &&& o1 == o0
            })
        },
        Op::Inc16(r) => {
            &&& c1 == c0.with16(r, add16(c0.reg16(r), 1))
            &&& m1 == m0
            &&& dt == 2
            &&& o1 == o0
        },
        Op::Dec16(r) => {
            &&& c1 == c0.with16(r, add16(c0.reg16(r), -1))
            &&& m1 == m0
            &&& dt == 2
            &&& o1 == o0
        },
        Op::Alu(AluOp::Add, source) => {
            let dest = Reg8::A;
            &&& ({
                    let m = m0;
                    let d = c0.registers.get8_spec(dest);
                    let v = c0.operand(m, source);
                    c1 == c0.advanced(fetch_len8(source)).with_f(add_flags(d, v, sum8(d, v, 0))).with8(dest, sum8(d, v, 0) as u8)
            })
            &&& m1 == m0
            &&& dt == c0.operand_time(m0, source)
            &&& o1 == o0
        },
        Op::Alu(AluOp::Adc, source) => {
            let dest = Reg8::A;
            &&& ({
                    let m = m0;
                    let d = c0.registers.get8_spec(dest);
                    let v = c0.operand(m, source);
                    let c = carry_of(c0.registers.f);
                    c1 == c0.advanced(fetch_len8(source)).with_f(add_flags(d, v, sum8(d, v, c))).with8(dest, sum8(d, v, c) as u8)
            })
            &&& m1 == m0
            &&& dt == c0.operand_time(m0, source)
            &&& o1 == o0
        },
        Op::Alu(AluOp::Sub, source) => {
            &&& ({
                    let m = m0;
                    let a = c0.registers.a;
                    let v = c0.operand(m, source);
                    c1 == c0.advanced(fetch_len8(source)).with_f(sub_flags(a, v, diff8(a, v, 0), diff8(a, v, 0) as u8)).with8(Reg8::A, diff8(a, v, 0) as u8)
            })
            &&& m1 == m0
            &&& dt == c0.operand_time(m0, source)
            &&& o1 == o0
        },
        Op::Alu(AluOp::Sbc, source) => {
            &&& ({
                    let m = m0;
                    let a = c0.registers.a;
                    let v = c0.operand(m, source);
                    let c = carry_of(c0.registers.f);
                    c1 == c0.advanced(fetch_len8(source)).with_f(sub_flags(a, v, diff8(a, v, c), diff8(a, v, c) as u8)).with8(Reg8::A, diff8(a, v, c) as u8)
            })
            &&& m1 == m0
            &&& dt == c0.operand_time(m0, source)
            &&& o1 == o0
        },
        Op::Alu(AluOp::And, reg) => {
            &&& ({
                    let r = c0.registers.a & c0.operand(m0, reg);
                    c1 == c0.advanced(fetch_len8(reg)).with_f(logic_flags(r, true)).with8(Reg8::A, r)
            })
            &&& m1 == m0
            &&& dt == c0.operand_time(m0, reg)
            &&& o1 == o0
        },
        Op::Alu(AluOp::Xor, reg) => {
            &&& ({
                    let r = c0.registers.a ^ c0.operand(m0, reg);
                    c1 == c0.advanced(fetch_len8(reg)).with_f(logic_flags(r, false)).with8(Reg8::A, r)
            })
            &&& m1 == m0
            &&& dt == c0.operand_time(m0, reg)
            &&& o1 == o0
        },
        Op::Alu(AluOp::Or, reg) => {
            &&& ({
                    let r = c0.registers.a | c0.operand(m0, reg);
                    c1 == c0.advanced(fetch_len8(reg)).with_f(logic_flags(r, false)).with8(Reg8::A, r)
            })
            &&& m1 == m0
            &&& dt == c0.operand_time(m0, reg)
            &&& o1 == o0
        },
        Op::Alu(AluOp::Cp, source) => {
            &&& ({
                    let a = c0.registers.a;
                    let v = c0.operand(m0, source);
                    c1 == c0.advanced(fetch_len8(source)).with_f(sub_flags(a, v, diff8(a, v, 0), v))
            })
            &&& m1 == m0
            &&& dt == c0.operand_time(m0, source)
            &&& o1 == o0
        },
        Op::Add16(dest, source) => {
            &&& ({
                    let d = c0.reg16(dest);
                    let s = c0.reg16(source);
                    c1 == c0.with_f(add16_flags(c0.registers.f, d, s)).with16(dest, add16(d, s as int))
            })
            &&& m1 == m0
            &&& dt == 7
            &&& o1 == o0
        },
        Op::Adc16(source) => {
            &&& ({
                    let d = c0.reg16(Reg16::HL);
                    let s = c0.reg16(source);
                    let l = sum8(lo(d), lo(s), carry_of(c0.registers.f));
                    let lc: u8 = if l & 0x100 != 0 { 1 } else { 0 };
                    let h = sum8(hi(d), hi(s), lc);
                    let r = crate::bus::word(l as u8, h as u8);
                    c1 == c0.with16(Reg16::HL, r).with_f((add_flags(hi(d), hi(s), h) & !ZERO) | bit_if(r == 0, ZERO))
            })
            &&& m1 == m0
            &&& dt == 7
            &&& o1 == o0
        },
        Op::Sbc16(source) => {
            &&& ({
                    let d = c0.reg16(Reg16::HL);
                    let s = c0.reg16(source);
                    let l = diff8(lo(d), lo(s), carry_of(c0.registers.f));
                    let lc: u8 = if l & 0x100 != 0 { 1 } else { 0 };
                    let h = diff8(hi(d), hi(s), lc);
                    let r = crate::bus::word(l as u8, h as u8);
                    c1 == c0.with16(Reg16::HL, r).with_f((sub_flags(hi(d), hi(s), h, h as u8) & !ZERO) | bit_if(r == 0, ZERO))
            })
            &&& m1 == m0
            &&& dt == 7
            &&& o1 == o0
        },
        Op::Rlca => {
            let kind = Shift::Rlc;
            &&& ({
                    let a = c0.registers.a;
                    let f = c0.registers.f;
                    let r = shifted(kind, a, f & CARRY != 0);
                    c1 == c0.with_f(acc_rot_flags(f, r, carried(kind, a))).with8(Reg8::A, r)
            })
            &&& m1 == m0
            &&& dt == 0
            &&& o1 == o0
        },
        Op::Rrca => {
            let kind = Shift::Rrc;
            &&& ({
                    let a = c0.registers.a;
                    let f = c0.registers.f;
                    let r = shifted(kind, a, f & CARRY != 0);
                    c1 == c0.with_f(acc_rot_flags(f, r, carried(kind, a))).with8(Reg8::A, r)
            })
            &&& m1 == m0
            &&& dt == 0
            &&& o1 == o0
        },
        Op::Rla => {
            let kind = Shift::Rl;
            &&& ({
                    let a = c0.registers.a;
                    let f = c0.registers.f;
                    let r = shifted(kind, a, f & CARRY != 0);
                    c1 == c0.with_f(acc_rot_flags(f, r, carried(kind, a))).with8(Reg8::A, r)
            })
            &&& m1 == m0
            &&& dt == 0
            &&& o1 == o0
        },
        Op::Rra => {
            &&& ({
                    let a = c0.registers.a;
                    let f = c0.registers.f;
                    let r = shifted(Shift::Rr, a, f & CARRY != 0);
                    c1 == c0.with_f(acc_rot_flags(f, r, a & 1 != 0)).with8(Reg8::A, r)
            })
            &&& m1 == m0
            &&& dt == 0
            &&& o1 == o0
        },
        Op::Daa => {
            &&& c1 == c0.with_f(daa_flags(c0.registers.a, c0.registers.f)).with8(Reg8::A, daa_value(c0.registers.a, c0.registers.f))
            &&& m1 == m0
            &&& dt == 0
            &&& o1 == o0
        },
        Op::Cpl => {
            &&& c1 == cpl_spec(c0)
            &&& m1 == m0
            &&& dt == 0
            &&& o1 == o0
        },
        Op::Scf => {
            &&& c1 == c0.with_f((c0.registers.f & (SIGN | ZERO | PARITY)) | CARRY | (c0.registers.a & XY_MASK))
            &&& m1 == m0
            &&& dt == 0
            &&& o1 == o0
        },
        Op::Ccf => {
            &&& ({
                    let f = c0.registers.f;
                    let c = f & CARRY != 0;
                    c1 == c0.with_f((f & (SIGN | ZERO | PARITY)) | bit_if(c, HALF_CARRY) | bit_if(!c, CARRY) | (c0.registers.a & XY_MASK))
            })
            &&& m1 == m0
            &&& dt == 0
            &&& o1 == o0
        },
        Op::Rot(kind, reg) => {
            &&& ({
                    let m = m0;
                    let l = c0.loc8(m, reg);
                    let v = c0.load_spec(m, l);
                    let r = shifted(kind, v, c0.registers.f & CARRY != 0);
                    &&& c1 == c0.advanced(fetch_len8(reg)).with_f(rot_flags(r, carried(kind, v))).stored(l, r)
                    &&& m1 == stored_mem(m, l, r)
                    &&& dt == fetch_time8(reg) + rmw_time(l)
                    &&& o1 == o0
            })
        },
        Op::BitTest(bit, source) => {
            &&& ({
                    let m = m0;
                    let l = c0.loc8(m, source);
                    let v = c0.load_spec(m, l);
                    &&& c1 == c0.advanced(fetch_len8(source)).with_f(bit_flags(c0.registers.f, bit, v))
                    &&& m1 == m
                    &&& dt == fetch_time8(source) + (if l is Addr { 4int } else { 0
                    })
                    &&& o1 == o0
            })
        },
        Op::BitReset(bit, source) => {
            let value = false;
            &&& ({
                    let m = m0;
                    let l = c0.loc8(m, source);
                    let v = c0.load_spec(m, l);
                    let r = if value { v | (1u8 << bit) } else { v & !(1u8 << bit) };
                    &&& c1 == c0.advanced(fetch_len8(source)).stored(l, r)
                    &&& m1 == stored_mem(m, l, r)
                    &&& dt == fetch_time8(source) + rmw_time(l)
                    &&& o1 == o0
            })
        },
        Op::BitSet(bit, source) => {
            let value = true;
            &&& ({
                    let m = m0;
                    let l = c0.loc8(m, source);
                    let v = c0.load_spec(m, l);
                    let r = if value { v | (1u8 << bit) } else { v & !(1u8 << bit) };
                    &&& c1 == c0.advanced(fetch_len8(source)).stored(l, r)
                    &&& m1 == stored_mem(m, l, r)
                    &&& dt == fetch_time8(source) + rmw_time(l)
                    &&& o1 == o0
            })
        },
        Op::Jp(cond) => {
            &&& c1 == if cond_holds(c0.registers.f, cond) { c0.with_pc(mem_word(m0, c0.pc)) } else { c0.advanced(2) }
            &&& m1 == m0
            &&& dt == 6
            &&& o1 == o0
        },
        Op::JpReg(r) => {
            &&& c1 == c0.with_pc(c0.reg16(r))
            &&& m1 == m0
            &&& dt == 0
            &&& o1 == o0
        },
        Op::Jr(cond) => {
            &&& ({
                    let m = m0;
                    let taken = cond_holds(c0.registers.f, cond);
                    &&& c1 == if taken { c0.with_pc(add16(add16(c0.pc, 1), signed(m[c0.pc]))) } else { c0.advanced(1) }
                    &&& m1 == m
                    &&& dt == (if taken { 8int } else { 3
                    })
                    &&& o1 == o0
            })
        },
        Op::Djnz => {
            &&& ({
                    let m = m0;
                    let b = (c0.registers.b as int - 1) as u8;
                    let mid = c0.with8(Reg8::B, b);
                    &&& c1 == if b != 0 { mid.with_pc(add16(add16(c0.pc, 1), signed(m[c0.pc]))) } else { mid.advanced(1) }
                    &&& m1 == m
                    &&& dt == (if b != 0 { 9int } else { 4
                    })
                    &&& o1 == o0
            })
        },
        Op::Call(cond) => {
            &&& ({
                    let m = m0;
                    let taken = cond_holds(c0.registers.f, cond);
                    let ret = add16(c0.pc, 2);
                    &&& c1 == if taken { Z80 { sp: add16(c0.sp, -2), pc: mem_word(m, c0.pc), ..c0 } } else { c0.advanced(2) }
                    &&& m1 == if taken { pushed(m, c0.sp, ret) } else { m }
                    &&& dt == (if taken { 13int } else { 6
                    })
                    &&& o1 == o0
            })
        },
        Op::Ret => {
            &&& c1 == (Z80 { sp: add16(c0.sp, 2), pc: mem_word(m0, c0.sp), ..c0 })
            &&& m1 == m0
            &&& dt == 6
            &&& o1 == o0
        },
        Op::RetCond(cond) => {
            &&& c1 == if cond_holds(c0.registers.f, cond) { Z80 { sp: add16(c0.sp, 2), pc: mem_word(m0, c0.sp), ..c0 } } else { c0 }
            &&& m1 == m0
            &&& dt == (if cond_holds(c0.registers.f, cond) { 7int } else { 1
            })
            &&& o1 == o0
        },
        Op::Reti => {
            &&& c1 == (Z80 { sp: add16(c0.sp, 2), pc: mem_word(m0, c0.sp), iff1: 1, iff2: 1, ..c0 })
            &&& m1 == m0
            &&& dt == 6
            &&& o1 == o0
        },
        Op::Retn => {
            &&& c1 == (Z80 { sp: add16(c0.sp, 2), pc: mem_word(m0, c0.sp), iff1: c0.iff2, ..c0 })
            &&& m1 == m0
            &&& dt == 6
            &&& o1 == o0
        },
        Op::Rst(n) => {
            &&& c1 == (Z80 { sp: add16(c0.sp, -2), pc: n as u16, ..c0 })
            &&& m1 == pushed(m0, c0.sp, c0.pc)
            &&& dt == 7
            &&& o1 == o0
        },
        Op::Push(r) => {
            &&& c1 == (Z80 { sp: add16(c0.sp, -2), ..c0 })
            &&& m1 == pushed(m0, c0.sp, c0.reg16(r))
            &&& dt == 7
            &&& o1 == o0
        },
        Op::Pop(r) => {
            &&& c1 == (Z80 { sp: add16(c0.sp, 2), ..c0 }).with16(r, mem_word(m0, c0.sp))
            &&& m1 == m0
            &&& dt == 6
            &&& o1 == o0
        },
        Op::ExAf => {
            &&& c1 == (Z80 { registers: c0.registers.swapped(Reg16::AF), ..c0 })
            &&& m1 == m0
            &&& dt == 0
            &&& o1 == o0
        },
        Op::Exx => {
            &&& c1 == (Z80 { registers: exx_spec(c0.registers), ..c0 })
            &&& m1 == m0
            &&& dt == 0
            &&& o1 == o0
        },
        Op::ExDeHl => {
            &&& c1 == c0.with16(Reg16::DE, c0.reg16(Reg16::HL)).with16(Reg16::HL, c0.reg16(Reg16::DE))
            &&& m1 == m0
            &&& dt == 0
            &&& o1 == o0
        },
        Op::ExSp(r) => {
            &&& c1 == c0.with16(r, mem_word(m0, c0.sp))
            &&& m1 == crate::cpu::write_word(m0, c0.sp, c0.reg16(r))
            &&& dt == 15
            &&& o1 == o0
        },
        Op::Di => {
            &&& c1 == (Z80 { iff1: 0, iff2: 0, ..c0 })
            &&& m1 == m0
            &&& dt == 0
            &&& o1 == o0
        },
        Op::Ei => {
            &&& c1 == (Z80 { iff1: 1, iff2: 1, ei_instr: true, ..c0 })
            &&& m1 == m0
            &&& dt == 0
            &&& o1 == o0
        },
        Op::Halt => {
            &&& c1 == (Z80 { halted: true, pc: add16(c0.pc, -1), ..c0 })
            &&& m1 == m0
            &&& dt == 0
            &&& o1 == o0
        },
        Op::Im(m) => {
            &&& c1 == (Z80 { interrupt_mode: m, ..c0 })
            &&& m1 == m0
            &&& dt == 0
            &&& o1 == o0
        },
        Op::InImm => {
            let v = c1.registers.a;
            &&& c1 == c0.advanced(1).with8(Reg8::A, v)
            &&& m1 == m0
            &&& dt == 7
            &&& o1 == o0
        },
        Op::OutImm => {
            &&& c1 == c0.advanced(1)
            &&& m1 == m0
            &&& dt == 7
            &&& o1 == o0.push((m0[c0.pc], c0.registers.a))
        },
        Op::In(r) => exists|v: u8|
        (c1 == #[trigger] c0.with8(r, v).with_f(in_flags(c0.with8(r, v).registers.f, v)))
        && (m1 == m0)
        && (dt == 4)
        && (o1 == o0),
        Op::Out(source) => {
            &&& c1 == c0
            &&& m1 == m0
            &&& dt == 4
            &&& o1 == o0.push((c0.registers.c, c0.operand(m0, source)))
        },
        Op::Neg => {
            &&& ({
                    let a = c0.registers.a;
                    c1 == c0.with_f(sub_flags(0, a, diff8(0, a, 0), diff8(0, a, 0) as u8)).with8(Reg8::A, diff8(0, a, 0) as u8)
            })
            &&& m1 == m0
            &&& dt == 0
            &&& o1 == o0
        },
        Op::Rrd => {
            let left = false;
            &&& ({
                    let m = m0;
                    let hl = c0.reg16(Reg16::HL);
                    let v = m[hl];
                    let a = c0.registers.a;
                    let na: u8 = if left { (a & 0xf0) | ((v >> 4u8) & 0x0f) } else { (a & 0xf0) | (v & 0x0f) };
                    let nv: u8 = if left { (v << 4u8) | (a & 0x0f) } else { (v >> 4u8) | (a << 4u8) };
                    &&& c1 == c0.with8(Reg8::A, na).with_f((c0.registers.f & CARRY) | flag_byte(na & 0x80 != 0, na == 0, false, parity_even(na), false, false, na))
                    &&& m1 == m.insert(hl, nv)
                    &&& dt == 10
                    &&& o1 == o0
            })
        },
        Op::Rld => {
            let left = true;
            &&& ({
                    let m = m0;
                    let hl = c0.reg16(Reg16::HL);
                    let v = m[hl];
                    let a = c0.registers.a;
                    let na: u8 = if left { (a & 0xf0) | ((v >> 4u8) & 0x0f) } else { (a & 0xf0) | (v & 0x0f) };
                    let nv: u8 = if left { (v << 4u8) | (a & 0x0f) } else { (v >> 4u8) | (a << 4u8) };
                    &&& c1 == c0.with8(Reg8::A, na).with_f((c0.registers.f & CARRY) | flag_byte(na & 0x80 != 0, na == 0, false, parity_even(na), false, false, na))
                    &&& m1 == m.insert(hl, nv)
                    &&& dt == 10
                    &&& o1 == o0
            })
        },
        Op::Block(b) => {
            &&& block_executed(c0, m0, o0, b, c1, m1, dt, o1)
        },
        _ => false,
    }
}

/// R after `n` opcode fetches (at most three in one instruction).
pub open spec fn refreshed_n(r: u8, n: int) -> u8 {
    if n <= 0 {
        r
    } else if n == 1 {
        refreshed(r)
    } else if n == 2 {
        refreshed(refreshed(r))
    } else {
        refreshed(refreshed(refreshed(r)))
    }
}

/// The processor after `fetches` opcode fetches and `bytes` program bytes in
/// all: PC past the bytes and R refreshed once per opcode fetch.
pub open spec fn fetched(cpu: Z80, fetches: int, bytes: int) -> Z80 {
    Z80 {
        pc: add16(cpu.pc, bytes),
        registers: Registers { r: refreshed_n(cpu.registers.r, fetches), ..cpu.registers },
        ..cpu
    }
}

impl Executed {
    /// T-states spent fetching the instruction's opcodes, displacement and
    /// final opcode, before its operation runs.
    pub open spec fn overhead(self) -> int {
        4 * self.fetches + self.extra_time
    }
}

/// What running the instruction `e` does from processor `c0` (memory `m0`,
/// port writes `o0`) to `c1`, `m1`, `o1` in `dt` T-states: the EI latch is
/// cleared, the opcodes, displacement and final opcode are fetched, then the
/// operation executes.
pub open spec fn ran(
    c0: Z80,
    m0: Map<u16, u8>,
    o0: Seq<(u8, u8)>,
    e: Executed,
    c1: Z80,
    m1: Map<u16, u8>,
    dt: int,
    o1: Seq<(u8, u8)>,
) -> bool {
    executed(
        fetched(Z80 { ei_instr: false, ..c0 }, e.fetches as int, e.fetches + e.extra_bytes),
        m0,
        o0,
        e.op,
        c1,
        m1,
        dt - e.overhead(),
        o1,
    )
}

/// The processor after an idle fetch while halted: R refreshed, the EI latch
/// cleared, nothing else.
pub open spec fn idle(c: Z80) -> Z80 {
    Z80 {
        ei_instr: false,
        registers: Registers { r: refreshed(c.registers.r), ..c.registers },
        ..c
    }
}

/// The time an operand takes depends on its kind alone.
pub proof fn lemma_operand_timing(o: Operand8)
    ensures
        forall|c: Z80, m: Map<u16, u8>|
            #![trigger c.loc8(m, o)]
            access_time(c.loc8(m, o)) == operand_access(o) && rmw_time(c.loc8(m, o))
                == operand_rmw(o) && (c.loc8(m, o) is Addr <==> operand_access(o) == 3),
{
}

impl Z80 {
    /// Executes an operation whose opcode (and prefixes) have been fetched.
    pub fn execute_op<B: Bus>(&mut self, bus: &mut B, op: Op)
        requires
            !op.is_prefix(),
            op.well_formed(),
            old(self).wf(),
        ensures
            final(self).wf(),
            !op.branches() ==> final(self).pc == add16(old(self).pc, op.operand_len()),
            !op.branches() ==> final(bus).clock() == old(bus).clock() + op.time(),
            !op.writes_port() ==> final(bus).outputs() == old(bus).outputs(),
            executed(
                *old(self),
                old(bus).memory(),
                old(bus).outputs(),
                op,
                *final(self),
                final(bus).memory(),
                final(bus).clock() - old(bus).clock(),
                final(bus).outputs(),
            ),
    {
        if op.is_data_op() {
            self.execute_data(bus, op);
        } else {
            self.execute_control(bus, op);
        }
    }

    /// Executes a load, arithmetic, rotate or bit operation.
    fn execute_data<B: Bus>(&mut self, bus: &mut B, op: Op)
        requires
            !op.is_prefix(),
            op.well_formed(),
            old(self).wf(),
            op.is_data(),
        ensures
            final(self).wf(),
            !op.branches() ==> final(self).pc == add16(old(self).pc, op.operand_len()),
            !op.branches() ==> final(bus).clock() == old(bus).clock() + op.time(),
            !op.writes_port() ==> final(bus).outputs() == old(bus).outputs(),
            executed(
                *old(self),
                old(bus).memory(),
                old(bus).outputs(),
                op,
                *final(self),
                final(bus).memory(),
                final(bus).clock() - old(bus).clock(),
                final(bus).outputs(),
            ),
    {
        proof {
            reveal(executed);
            lemma_add16_zero(self.pc);
            lemma_add16_add(self.pc, 1, 0);
            lemma_add16_add(self.pc, 2, 0);
            lemma_add16_add(self.pc, 1, 1);
            lemma_add16_add(self.pc, 0, 1);
            lemma_add16_add(self.pc, 0, 2);
            lemma_add16_add(self.pc, 2, 2);
            lemma_add16_add(self.pc, 0, 0);
            match op {
                Op::Ld8(d, s) => {
                    lemma_operand_timing(d);
                    lemma_operand_timing(s);
                },
                Op::Inc8(o) | Op::Dec8(o) | Op::Alu(_, o) | Op::Rot(_, o) => lemma_operand_timing(o),
                Op::BitTest(_, o) | Op::BitReset(_, o) | Op::BitSet(_, o) => lemma_operand_timing(o),
                _ => {},
            }
        }
        match op {
            Op::Nop => {},
            Op::Ld8(d, s) => self.ld8(bus, d, s),
            Op::LdIndexedImm(i) => self.ld_indexed_imm(bus, i),
            Op::Ld16(d, s) => self.ld16(bus, d, s),
            Op::LdSp(r) => self.ld_sp(bus, r),
            Op::LdAFrom(r) => self.ld_a_from(bus, r),
            Op::LdFromA(r) => self.ld_from_a(bus, r),
            Op::Inc8(o) => inc_u8(self, bus, o),
            Op::Dec8(o) => dec_u8(self, bus, o),
            Op::Inc16(r) => self.inc16(bus, r),
            Op::Dec16(r) => self.dec16(bus, r),
            Op::Rlca => self.rotate_a(Shift::Rlc),
            Op::Rrca => self.rotate_a(Shift::Rrc),
            Op::Rla => self.rotate_a(Shift::Rl),
            Op::Rra => self.rra(),
            Op::Daa => self.daa(),
            Op::Cpl => self.cpl(),
            Op::Scf => self.scf(),
            Op::Ccf => self.ccf(),
            _ => self.execute_alu(bus, op),
        }
    }

    /// Executes an arithmetic, rotate or bit operation.
    fn execute_alu<B: Bus>(&mut self, bus: &mut B, op: Op)
        requires
            !op.is_prefix(),
            op.well_formed(),
            old(self).wf(),
            op.is_alu(),
        ensures
            final(self).wf(),
            !op.branches() ==> final(self).pc == add16(old(self).pc, op.operand_len()),
            !op.branches() ==> final(bus).clock() == old(bus).clock() + op.time(),
            !op.writes_port() ==> final(bus).outputs() == old(bus).outputs(),
            executed(
                *old(self),
                old(bus).memory(),
                old(bus).outputs(),
                op,
                *final(self),
                final(bus).memory(),
                final(bus).clock() - old(bus).clock(),
                final(bus).outputs(),
            ),
    {
        proof {
            reveal(executed);
            lemma_add16_zero(self.pc);
            lemma_add16_add(self.pc, 1, 0);
            lemma_add16_add(self.pc, 2, 0);
            lemma_add16_add(self.pc, 1, 1);
            lemma_add16_add(self.pc, 0, 1);
            lemma_add16_add(self.pc, 0, 2);
            lemma_add16_add(self.pc, 2, 2);
            lemma_add16_add(self.pc, 0, 0);
            match op {
                Op::Alu(_, o) | Op::Rot(_, o) => lemma_operand_timing(o),
                Op::BitTest(_, o) | Op::BitReset(_, o) | Op::BitSet(_, o) => lemma_operand_timing(o),
                _ => {},
            }
        }
        match op {
            Op::Alu(k, o) => match k {
                AluOp::Add => crate::operations::eight_bit_arithmetic::add(self, bus, Reg8::A, o),
                AluOp::Adc => adc(self, bus, Reg8::A, o),
                AluOp::Sub => crate::operations::eight_bit_arithmetic::sub(self, bus, o),
                AluOp::Sbc => sbc(self, bus, o),
                AluOp::And => and(self, bus, o),
                AluOp::Xor => xor(self, bus, o),
                AluOp::Or => or(self, bus, o),
                AluOp::Cp => cp(self, bus, o),
            },
            Op::Add16(d, s) => self.add16(bus, d, s),
            Op::Adc16(s) => self.adc16(bus, s),
            Op::Sbc16(s) => self.sbc16(bus, s),
            Op::Rot(k, o) => rotate(self, bus, o, k),
            Op::BitTest(b, o) => self.test_bit(bus, b, o),
            Op::BitReset(b, o) => self.change_bit(bus, b, o, false),
            Op::BitSet(b, o) => self.change_bit(bus, b, o, true),
            _ => {},
        }
    }

    /// Executes a jump, call, return, stack, exchange, interrupt-control, I/O
    /// or block operation.
    fn execute_control<B: Bus>(&mut self, bus: &mut B, op: Op)
        requires
            !op.is_prefix(),
            op.well_formed(),
            old(self).wf(),
            !op.is_data(),
        ensures
            final(self).wf(),
            !op.branches() ==> final(self).pc == add16(old(self).pc, op.operand_len()),
            !op.branches() ==> final(bus).clock() == old(bus).clock() + op.time(),
            !op.writes_port() ==> final(bus).outputs() == old(bus).outputs(),
            executed(
                *old(self),
                old(bus).memory(),
                old(bus).outputs(),
                op,
                *final(self),
                final(bus).memory(),
                final(bus).clock() - old(bus).clock(),
                final(bus).outputs(),
            ),
    {
        proof {
            reveal(executed);
            lemma_add16_zero(self.pc);
        }
        match op {
            Op::Jp(c) => self.jp_cond(bus, c),
            Op::JpReg(r) => self.jp_reg(r),
            Op::Jr(c) => self.jr(bus, c),
            Op::Djnz => self.djnz(bus),
            Op::Call(c) => self.call_cond(bus, c),
            Op::Ret => self.ret(bus),
            Op::RetCond(c) => self.ret_cond(bus, c),
            Op::Reti => self.reti(bus),
            Op::Retn => self.retn(bus),
            Op::Rst(n) => self.rst(bus, n),
            Op::Push(r) => self.push(bus, r),
            Op::Pop(r) => self.pop(bus, r),
            Op::ExAf => self.ex_af(),
            Op::Exx => self.exx(),
            Op::ExDeHl => self.ex_de_hl(),
            Op::ExSp(r) => self.ex_sp(bus, r),
            Op::Di => self.di(),
            Op::Ei => self.ei(),
            Op::Halt => self.halt(),
            Op::Im(m) => self.im(m),
            Op::InImm => {
                let _ = self.in_imm(bus);
            },
            Op::OutImm => self.out_imm(bus),
            Op::In(r) => {
                let _ = self.read_port(bus, r);
            },
            Op::Out(o) => self.write_port(bus, o),
            Op::Neg => self.neg(),
            Op::Rrd => self.rotate_digit(bus, false),
            Op::Rld => self.rotate_digit(bus, true),
            Op::Block(b) => self.block(bus, b),
            _ => {},
        }
    }

    /// Executes a block instruction of the ED page.
    pub fn block<B: Bus>(&mut self, bus: &mut B, b: BlockOp)
        ensures
            block_executed(
                *old(self),
                old(bus).memory(),
                old(bus).outputs(),
                b,
                *final(self),
                final(bus).memory(),
                final(bus).clock() - old(bus).clock(),
                final(bus).outputs(),
            ),
    {
        match b {
            BlockOp::Ldi => self.ldi(bus),
            BlockOp::Ldd => self.ldd(bus),
            BlockOp::Ldir => self.ldir(bus),
            BlockOp::Lddr => self.lddr(bus),
            BlockOp::Cpi => self.cpi(bus),
            BlockOp::Cpd => cpd(self, bus),
            BlockOp::Cpir => self.cpir(bus, 1),
            BlockOp::Cpdr => self.cpir(bus, -1),
            BlockOp::Ini => {
                let _ = self.block_in(bus, 1);
            },
            BlockOp::Ind => {
                let _ = self.block_in(bus, -1);
            },
            BlockOp::Inir => {
                let _ = self.block_in_repeat(bus, 1);
            },
            BlockOp::Indr => {
                let _ = self.block_in_repeat(bus, -1);
            },
            BlockOp::Outi => self.block_out(bus, 1),
            BlockOp::Outd => self.block_out(bus, -1),
            BlockOp::Otir => self.block_out_repeat(bus, 1),
            BlockOp::Otdr => self.block_out_repeat(bus, -1),
        }
    }

    /// The DD CB / FD CB page: displacement, final opcode, then the operation on
    /// the byte at the index register plus the displacement.
    pub fn index_cb<B: Bus>(&mut self, bus: &mut B, index: Reg16) -> (op: Op)
        requires
            old(self).wf(),
        ensures
            final(self).wf(),
            !op.branches(),
            op == index_cb_table(
                add16(old(self).reg16(index), signed(old(bus).memory()[old(self).pc])),
                old(bus).memory()[add16(old(self).pc, 1)],
            ),
            final(self).pc == add16(old(self).pc, 2 + op.operand_len()),
            final(bus).clock() == old(bus).clock() + 8 + op.time(),
            final(bus).outputs() == old(bus).outputs(),
            executed(
                old(self).advanced(2),
                old(bus).memory(),
                old(bus).outputs(),
                op,
                *final(self),
                final(bus).memory(),
                final(bus).clock() - old(bus).clock() - 8,
                final(bus).outputs(),
            ),
    {
        let base = self.get16(index);
        let d = self.read_u8(bus);
        let off: i32 = if d < 128 {
            d as i32
        } else {
            d as i32 - 256
        };
        let address = offset16(base, off);
        let code = self.read_u8(bus);
        bus.tick(1, 2);
        let o = decode_dd_fd_cb(address, code);
        proof {
            lemma_add16_add(old(self).pc, 1, 1);
            lemma_add16_add(old(self).pc, 2, o.operand_len());
        }
        self.execute_op(bus, o);
        o
    }

    /// Executes a decoded base-page operation, following prefixes into their
    /// pages; the first opcode byte has been fetched.
    pub fn dispatch<B: Bus>(&mut self, bus: &mut B, op: Op) -> (e: Executed)
        requires
            old(self).wf(),
            op.well_formed(),
            !(op is IndexCB),
        ensures
            final(self).wf(),
            !e.op.branches() ==> final(self).pc == add16(old(self).pc, e.len() - 1),
            !e.op.branches() ==> final(bus).clock() == old(bus).clock() + e.time() - 4,
            !e.op.writes_port() ==> final(bus).outputs() == old(bus).outputs(),
            e == prefixed(*old(self), old(bus).memory(), op),
            executed(
                fetched(*old(self), e.fetches - 1, e.fetches - 1 + e.extra_bytes),
                old(bus).memory(),
                old(bus).outputs(),
                e.op,
                *final(self),
                final(bus).memory(),
                final(bus).clock() - old(bus).clock() - (e.overhead() - 4),
                final(bus).outputs(),
            ),
    {
        proof {
            lemma_add16_zero(self.pc);
        }
        match op {
            Op::PrefixCB | Op::PrefixED => {
                let code = self.read_instruction(bus);
                let o = if op == Op::PrefixCB {
                    decode_cb(code)
                } else {
                    decode_ed(code)
                };
                proof {
                    lemma_add16_add(old(self).pc, 1, o.operand_len());
                }
                self.execute_op(bus, o);
                Executed { op: o, fetches: 2, extra_bytes: 0, extra_time: 0 }
            },
            Op::PrefixDD | Op::PrefixFD => {
                // A prefix followed by another index prefix is a wasted prefix:
                // the next one starts the next instruction.
                let next = bus.memory_read(self.pc);
                if next == 0xdd || next == 0xfd {
                    proof {
                        reveal(executed);
                    }
                    return Executed { op: Op::Nop, fetches: 1, extra_bytes: 0, extra_time: 0 };
                }
                let code = self.read_instruction(bus);
                let o = if op == Op::PrefixDD {
                    decode_dd(code)
                } else {
                    decode_fd(code)
                };
                match o {
                    Op::PrefixED => {
                        let code2 = self.read_instruction(bus);
                        let o2 = decode_ed(code2);
                        proof {
                            lemma_add16_add(old(self).pc, 1, 1);
                            lemma_add16_add(old(self).pc, 2, o2.operand_len());
                        }
                        self.execute_op(bus, o2);
                        Executed { op: o2, fetches: 3, extra_bytes: 0, extra_time: 0 }
                    },
                    Op::IndexCB(i) => {
                        let o2 = self.index_cb(bus, i);
                        proof {
                            lemma_add16_add(old(self).pc, 1, 2 + o2.operand_len());
                        }
                        Executed { op: o2, fetches: 2, extra_bytes: 2, extra_time: 8 }
                    },
                    Op::PrefixCB | Op::PrefixDD | Op::PrefixFD => {
                        proof {
                            reveal(executed);
                        }
                        Executed { op: Op::Nop, fetches: 2, extra_bytes: 0, extra_time: 0 }
                    },
                    _ => {
                        proof {
                            lemma_add16_add(old(self).pc, 1, o.operand_len());
                        }
                        self.execute_op(bus, o);
                        Executed { op: o, fetches: 2, extra_bytes: 0, extra_time: 0 }
                    },
                }
            },
            _ => {
                self.execute_op(bus, op);
                Executed { op, fetches: 1, extra_bytes: 0, extra_time: 0 }
            },
        }
    }

    /// Runs one instruction and tells what it was; while halted it only
    /// performs an idle fetch and returns `None`.
    ///
    /// Unless the instruction branches, PC moves past exactly its bytes
    /// (prefixes, opcode, displacement, immediates) and the bus is told
    /// exactly its T-states.
    pub fn execute_instruction<B: Bus>(&mut self, bus: &mut B) -> (r: Option<Executed>)
        requires
            old(self).wf(),
        ensures
            final(self).wf(),
            old(self).halted ==> r is None && *final(self) == idle(*old(self)) && final(bus).memory()
                == old(bus).memory() && final(bus).clock() == old(bus).clock() + 4
                && final(bus).outputs() == old(bus).outputs(),
            !old(self).halted ==> r == Some(instruction_at(*old(self), old(bus).memory())),
            r matches Some(e) ==> (!e.op.branches() ==> final(self).pc == add16(
                old(self).pc,
                e.len(),
            )),
            r matches Some(e) ==> (!e.op.branches() ==> final(bus).clock() == old(bus).clock()
                + e.time()),
            r matches Some(e) ==> (!e.op.writes_port() ==> final(bus).outputs() == old(
                bus,
            ).outputs()),
            r matches Some(e) ==> ran(
                *old(self),
                old(bus).memory(),
                old(bus).outputs(),
                e,
                *final(self),
                final(bus).memory(),
                final(bus).clock() - old(bus).clock(),
                final(bus).outputs(),
            ),
    {
        self.ei_instr = false;
        if self.halted {
            bus.tick(1, 4);
            let r = self.registers.r;
            self.registers.r = (r & 0x80) | (((r as u16 + 1) as u8) & 0x7f);
            return None;
        }
        let code = self.read_instruction(bus);
        let op = decode(code);
        let e = self.dispatch(bus, op);
        proof {
            lemma_add16_add(old(self).pc, 1, e.len() - 1);
            lemma_add16_add(old(self).pc, 1, e.fetches - 1 + e.extra_bytes);
        }
        Some(e)
    }

    /// Runs one instruction, or one idle fetch while halted, and returns the
    /// first opcode byte it fetched (0 while halted).
    pub fn execute_next_instruction<B: Bus>(&mut self, bus: &mut B) -> (code: u8)
        requires
            old(self).wf(),
        ensures
            final(self).wf(),
            old(self).halted ==> code == 0 && *final(self) == idle(*old(self)) && final(bus).memory()
                == old(bus).memory() && final(bus).clock() == old(bus).clock() + 4
                && final(bus).outputs() == old(bus).outputs(),
            !old(self).halted ==> code == old(bus).memory()[old(self).pc],
            !old(self).halted ==> ({
                let e = instruction_at(*old(self), old(bus).memory());
                &&& !e.op.branches() ==> final(self).pc == add16(old(self).pc, e.len())
                &&& !e.op.branches() ==> final(bus).clock() == old(bus).clock() + e.time()
                &&& ran(
                    *old(self),
                    old(bus).memory(),
                    old(bus).outputs(),
                    e,
                    *final(self),
                    final(bus).memory(),
                    final(bus).clock() - old(bus).clock(),
                    final(bus).outputs(),
                )
            }),
    {
        let pc = self.pc;
        let first = bus.memory_read(pc);
        match self.execute_instruction(bus) {
            Some(_) => first,
            None => 0,
        }
    }
}

/// Where an accepted interrupt returns to: past HALT if the processor was halted.
pub open spec fn return_address(cpu: Z80) -> u16 {
    if cpu.halted {
        add16(cpu.pc, 1)
    } else {
        cpu.pc
    }
}

/// Memory after accepting a maskable interrupt: the return address pushed.
pub open spec fn interrupted_mem(cpu: Z80, mem: Map<u16, u8>) -> Map<u16, u8> {
    pushed(mem, cpu.sp, return_address(cpu))
}

/// The processor after accepting a maskable interrupt: out of HALT, interrupts
/// disabled, R refreshed, and PC at 0x0038, or in mode 2 at the word the vector
/// (I, 0xff) points to.
pub open spec fn interrupted(cpu: Z80, mem: Map<u16, u8>) -> Z80 {
    let m = interrupted_mem(cpu, mem);
    Z80 {
        halted: false,
        iff1: 0,
        iff2: 0,
        sp: add16(cpu.sp, -2),
        pc: if cpu.interrupt_mode == 2 {
            mem_word(m, crate::bus::word(0xff, cpu.registers.i))
        } else {
            0x0038
        },
        registers: Registers { r: refreshed(cpu.registers.r), ..cpu.registers },
        ..cpu
    }
}

/// T-states of accepting a maskable interrupt: the acknowledge cycle and the
/// push, and in mode 2 the read of the vector.
pub open spec fn interrupt_time(cpu: Z80) -> int {
    if cpu.interrupt_mode == 2 {
        19
    } else {
        13
    }
}

/// The processor after accepting a non-maskable interrupt.
pub open spec fn nmi_entered(cpu: Z80) -> Z80 {
    Z80 {
        nmi: false,
        halted: false,
        iff1: 0,
        iff2: cpu.iff1,
        sp: add16(cpu.sp, -2),
        pc: 0x0066,
        registers: Registers { r: refreshed(cpu.registers.r), ..cpu.registers },
        ..cpu
    }
}

/// Whether a step accepts a maskable interrupt: one is requested, IFF1 is set
/// and no EI has just been executed.
pub open spec fn accepts(cpu: Z80, int_flags: u8) -> bool {
    int_flags != 0 && cpu.iff1 != 0 && !cpu.ei_instr
}

impl Z80 {
    /// Latches a request for a non-maskable interrupt; `step` serves it.
    pub fn request_nmi(&mut self)
        ensures
            *final(self) == (Z80 { nmi: true, ..*old(self) }),
    {
        self.nmi = true;
    }

    /// Accepts a non-maskable interrupt: IFF2 keeps IFF1, IFF1 is cleared,
    /// PC is pushed and execution continues at 0x0066.
    pub fn nmi<B: Bus>(&mut self, bus: &mut B)
        ensures
            ({
                let ret = if old(self).halted {
                    add16(old(self).pc, 1)
                } else {
                    old(self).pc
                };
                &&& *final(self) == (Z80 {
                    nmi: false,
                    halted: false,
                    iff1: 0,
                    iff2: old(self).iff1,
                    sp: add16(old(self).sp, -2),
                    pc: 0x0066,
                    registers: Registers { r: refreshed(old(self).registers.r), ..old(self).registers },
                    ..*old(self)
                })
                &&& final(bus).memory() == pushed(old(bus).memory(), old(self).sp, ret)
                &&& final(bus).clock() == old(bus).clock() + 11
                &&& final(bus).outputs() == old(bus).outputs()
            }),
    {
        self.nmi = false;
        if self.halted {
            self.halted = false;
            self.pc = offset16(self.pc, 1);
        }
        self.iff2 = self.iff1;
        self.iff1 = 0;
        let r = self.registers.r;
        self.registers.r = (r & 0x80) | (((r as u16 + 1) as u8) & 0x7f);
        bus.tick(1, 5);
        let pc = self.pc;
        self.push_word(bus, pc);
        self.pc = 0x0066;
    }

    /// Jumps to 0x0066 through the stack when interrupts are enabled and not
    /// held off by a preceding EI.
    pub fn reset_interrupt<B: Bus>(&mut self, bus: &mut B)
        ensures
            old(self).iff1 == 0 || old(self).ei_instr ==> *final(self) == *old(self) && *final(bus)
                == *old(bus),
            !(old(self).iff1 == 0 || old(self).ei_instr) ==> *final(self) == (Z80 {
                iff1: 0,
                halted: false,
                sp: add16(old(self).sp, -2),
                pc: 0x66,
                ..*old(self)
            }) && final(bus).memory() == pushed(old(bus).memory(), old(self).sp, old(self).pc),
    {
        if self.iff1 == 0 || self.ei_instr {
            return;
        }
        self.iff1 = 0;
        self.halted = false;
        let pc = self.pc;
        self.push_word(bus, pc);
        self.pc = 0x66;
    }

    /// Accepts a maskable interrupt when IFF1 is set: leaves HALT, disables
    /// interrupts, pushes PC and jumps as the interrupt mode says.
    pub fn interrupt<B: Bus>(&mut self, bus: &mut B)
        requires
            old(self).wf(),
        ensures
            final(self).wf(),
            old(self).iff1 == 0 ==> *final(self) == *old(self) && *final(bus) == *old(bus),
            old(self).iff1 != 0 ==> *final(self) == interrupted(*old(self), old(bus).memory())
                && final(bus).memory() == interrupted_mem(*old(self), old(bus).memory())
                && final(bus).clock() == old(bus).clock() + interrupt_time(*old(self))
                && final(bus).outputs() == old(bus).outputs(),
    {
        if self.iff1 != 0 {
            if self.halted {
                self.pc = offset16(self.pc, 1);
                self.halted = false;
            }
            let r = self.registers.r;
            self.registers.r = (r & 0x80) | (((r as u16 + 1) as u8) & 0x7f);
            self.iff1 = 0;
            self.iff2 = 0;
            bus.tick(1, 7);
            let pc = self.pc;
            self.push_word(bus, pc);
            if self.interrupt_mode == 2 {
                let vector = make_u16(0xff, self.registers.i);
                let target = bus.memory_read_word(vector);
                bus.tick(2, 6);
                self.pc = target;
            } else {
                self.pc = 0x0038;
            }
        }
    }

    /// Accepts a maskable interrupt if one is requested (`int_flags` not zero),
    /// IFF1 is set and no EI has just been executed.
    pub fn handle_interrupt<B: Bus>(&mut self, bus: &mut B, int_flags: u8)
        requires
            old(self).wf(),
        ensures
            final(self).wf(),
            !accepts(*old(self), int_flags) ==> *final(self) == *old(self) && *final(bus) == *old(bus),
            accepts(*old(self), int_flags) ==> *final(self) == interrupted(*old(self), old(bus).memory())
                && final(bus).memory() == interrupted_mem(*old(self), old(bus).memory())
                && final(bus).clock() == old(bus).clock() + interrupt_time(*old(self))
                && final(bus).outputs() == old(bus).outputs(),
    {
        if int_flags != 0 && self.iff1 != 0 && !self.ei_instr {
            self.interrupt(bus);
        }
    }

    /// Runs one step: serves a pending NMI; or accepts a maskable interrupt
    /// and then executes one instruction (an idle fetch while halted), telling
    /// what the instruction was.
    pub fn step<B: Bus>(&mut self, bus: &mut B, int_flags: u8) -> (r: Option<Executed>)
        requires
            old(self).wf(),
        ensures
            final(self).wf(),
            old(self).nmi ==> r is None && *final(self) == nmi_entered(*old(self))
                && final(bus).memory() == pushed(
                old(bus).memory(),
                old(self).sp,
                return_address(*old(self)),
            ) && final(bus).clock() == old(bus).clock() + 11 && final(bus).outputs() == old(
                bus,
            ).outputs(),
            !old(self).nmi && accepts(*old(self), int_flags) ==> ({
                let c = interrupted(*old(self), old(bus).memory());
                let m = interrupted_mem(*old(self), old(bus).memory());
                &&& r == Some(instruction_at(c, m))
                &&& r matches Some(e) ==> (!e.op.branches() ==> final(self).pc == add16(c.pc, e.len()))
                &&& r matches Some(e) ==> ran(
                    c,
                    m,
                    old(bus).outputs(),
                    e,
                    *final(self),
                    final(bus).memory(),
                    final(bus).clock() - old(bus).clock() - interrupt_time(*old(self)),
                    final(bus).outputs(),
                )
            }),
            !old(self).nmi && !accepts(*old(self), int_flags) ==> ({
                &&& old(self).halted ==> r is None && *final(self) == idle(*old(self))
                    && final(bus).memory() == old(bus).memory() && final(bus).clock() == old(
                    bus,
                ).clock() + 4 && final(bus).outputs() == old(bus).outputs()
                &&& !old(self).halted ==> r == Some(instruction_at(*old(self), old(bus).memory()))
                &&& r matches Some(e) ==> (!e.op.branches() ==> final(self).pc == add16(
                    old(self).pc,
                    e.len(),
                ))
                &&& r matches Some(e) ==> (!e.op.branches() ==> final(bus).clock() == old(
                    bus,
                ).clock() + e.time())
                &&& r matches Some(e) ==> ran(
                    *old(self),
                    old(bus).memory(),
                    old(bus).outputs(),
                    e,
                    *final(self),
                    final(bus).memory(),
                    final(bus).clock() - old(bus).clock(),
                    final(bus).outputs(),
                )
            }),
    {
        if self.nmi {
            self.nmi(bus);
            return None;
        }
        self.handle_interrupt(bus, int_flags);
        self.execute_instruction(bus)
    }
}

/// EX AF, AF' twice leaves the registers as they were.
pub proof fn lemma_ex_af_twice(r: Registers)
    ensures
        r.swapped(Reg16::AF).swapped(Reg16::AF) == r,
{
}

/// EXX twice leaves the registers as they were.
pub proof fn lemma_exx_twice(r: Registers)
    ensures
        exx_spec(exx_spec(r)) == r,
{
}

/// CPL twice gives A back, with H and N set.
pub proof fn lemma_cpl_twice(c: Z80)
    ensures
        cpl_spec(cpl_spec(c)).registers.a == c.registers.a,
        cpl_spec(cpl_spec(c)).registers.f & HALF_CARRY != 0,
        cpl_spec(cpl_spec(c)).registers.f & SUBTRACT != 0,
{
    let a = c.registers.a;
    let f1 = cpl_spec(c).registers.f;
    let a1 = a ^ 0xff;
    let f2 = (f1 & (SIGN | ZERO | PARITY | CARRY)) | HALF_CARRY | SUBTRACT | ((a1 ^ 0xff) & XY_MASK);
    assert((a ^ 0xff) ^ 0xff == a) by (bit_vector);
    assert(f2 & HALF_CARRY != 0 && f2 & SUBTRACT != 0) by (bit_vector)
        requires
            f2 == (f1 & (SIGN | ZERO | PARITY | CARRY)) | HALF_CARRY | SUBTRACT | ((a1 ^ 0xff)
                & XY_MASK),
    ;
}

/// The processor and memory after `n` block transfer steps of LDIR.
pub open spec fn ldir_iterate(cpu: Z80, mem: Map<u16, u8>, n: nat) -> (Z80, Map<u16, u8>)
    decreases n,
{
    if n == 0 {
        (cpu, mem)
    } else {
        let (c, m) = ldir_iterate(cpu, mem, (n - 1) as nat);
        (block_ld(c, m, 1), block_ld_mem(c, m))
    }
}

/// The `len` bytes from `src` and the `len` bytes from `dst` share no address.
pub open spec fn disjoint(src: u16, dst: u16, len: int) -> bool {
    forall|i: int, j: int|
        0 <= i < len && 0 <= j < len ==> #[trigger] add16(src, i) != #[trigger] add16(dst, j)
}

/// What holds after `k` steps of LDIR: the pointers and counter moved by `k`,
/// the first `k` bytes copied, all other memory untouched.
#[verifier::opaque]
pub open spec fn ldir_progress(
    cpu: Z80,
    mem: Map<u16, u8>,
    c: Z80,
    m: Map<u16, u8>,
    k: int,
) -> bool {
    let hl = cpu.reg16(Reg16::HL);
    let de = cpu.reg16(Reg16::DE);
    &&& c.reg16(Reg16::HL) == add16(hl, k)
    &&& c.reg16(Reg16::DE) == add16(de, k)
    &&& c.reg16(Reg16::BC) == add16(cpu.reg16(Reg16::BC), -k)
    &&& forall|i: int| 0 <= i < k ==> #[trigger] m[add16(de, i)] == mem[add16(hl, i)]
    &&& forall|a: u16| (forall|i: int| 0 <= i < k ==> a != #[trigger] add16(de, i)) ==> m[a]
        == mem[a]
}

proof fn lemma_ldir_progress(cpu: Z80, mem: Map<u16, u8>, len: int, k: nat)
    requires
        0 < len <= 0xffff,
        k <= len,
        disjoint(cpu.reg16(Reg16::HL), cpu.reg16(Reg16::DE), len),
    ensures
        ldir_progress(cpu, mem, ldir_iterate(cpu, mem, k).0, ldir_iterate(cpu, mem, k).1, k as int),
    decreases k,
{
    reveal(ldir_progress);
    let hl = cpu.reg16(Reg16::HL);
    let de = cpu.reg16(Reg16::DE);
    let bc = cpu.reg16(Reg16::BC);
    if k == 0 {
        lemma_add16_zero(hl);
        lemma_add16_zero(de);
        lemma_add16_zero(bc);
    } else {
        let k1 = (k - 1) as nat;
        lemma_ldir_progress(cpu, mem, len, k1);
        let (c, m) = ldir_iterate(cpu, mem, k1);
        let c2 = block_ld(c, m, 1);
        let m2 = block_ld_mem(c, m);
        lemma_add16_add(hl, k1 as int, 1);
        lemma_add16_add(de, k1 as int, 1);
        lemma_add16_add(bc, -(k1 as int), -1);
        let nhl = add16(hl, k1 as int + 1);
        let nde = add16(de, k1 as int + 1);
        let nbc = add16(bc, -(k1 as int) - 1);
        crate::registers::lemma_word_split(nhl);
        crate::registers::lemma_word_split(nde);
        crate::registers::lemma_word_split(nbc);
        assert(c2.reg16(Reg16::HL) == nhl);
        assert(c2.reg16(Reg16::DE) == nde);
        assert(c2.reg16(Reg16::BC) == nbc);
        let src = add16(hl, k1 as int);
        let dst = add16(de, k1 as int);
        assert(m[src] == mem[src]) by {
            assert forall|i: int| 0 <= i < k1 implies src != #[trigger] add16(de, i) by {
                assert(add16(hl, k1 as int) != add16(de, i));
            }
        }
        assert forall|i: int| 0 <= i < k implies #[trigger] m2[add16(de, i)] == mem[add16(hl, i)] by {
            if i < k1 {
                lemma_add16_injective(de, i, k1 as int);
            }
        }
        assert forall|a: u16| (forall|i: int| 0 <= i < k ==> a != #[trigger] add16(de, i)) implies m2[a]
            == mem[a] by {
            assert(a != add16(de, k1 as int));
            assert(forall|i: int| 0 <= i < k1 ==> a != #[trigger] add16(de, i));
        }
    }
}

/// A transfer step leaves P/V clear exactly when it leaves BC zero; here, clear.
proof fn lemma_last_transfer_clears_pv(c: Z80, m: Map<u16, u8>)
    ensures
        block_ld(c, m, 1).reg16(Reg16::BC) == 0 ==> block_ld(c, m, 1).registers.f & PARITY == 0,
{
    let bc = add16(c.reg16(Reg16::BC), -1);
    let n = (c.registers.a as int + m[c.reg16(Reg16::HL)] as int) as u8;
    let f0 = c.registers.f;
    crate::registers::lemma_word_split(bc);
    assert(((f0 & (SIGN | ZERO | CARRY)) | bit_if(false, PARITY) | bit_if(n & 0x02 != 0, FLAG_Y)
        | bit_if(n & 0x08 != 0, FLAG_X)) & PARITY == 0) by (bit_vector);
}

/// The block transfer steps of LDIR leave PC where it was.
proof fn lemma_ldir_pc(cpu: Z80, mem: Map<u16, u8>, k: nat)
    ensures
        ldir_iterate(cpu, mem, k).0.pc == cpu.pc,
    decreases k,
{
    if k > 0 {
        lemma_ldir_pc(cpu, mem, (k - 1) as nat);
    }
}

/// Adding nothing leaves an address as it is.
pub proof fn lemma_add16_zero(a: u16)
    ensures
        add16(a, 0) == a,
{
}

/// Distinct offsets below 2^16 reach distinct addresses.
pub proof fn lemma_add16_injective(a: u16, i: int, j: int)
    requires
        0 <= i < j < 0x10000,
    ensures
        add16(a, i) != add16(a, j),
{
}

/// LDIR copies a block: with HL, DE and BC naming a source and a disjoint
/// destination of `len` bytes (1 to 0xffff), LDIR repeats while BC is not zero,
/// and when it stops the destination holds the source, all other memory is as
/// it was, HL and DE have moved by `len`, BC is zero and P/V is clear. Each
/// step is the transfer that `ldir` is proved to perform.
pub proof fn lemma_ldir_copies(cpu: Z80, mem: Map<u16, u8>, len: int)
    requires
        0 < len <= 0xffff,
        cpu.reg16(Reg16::BC) == len,
        disjoint(cpu.reg16(Reg16::HL), cpu.reg16(Reg16::DE), len),
    ensures
        forall|k: nat| k < len ==> #[trigger] ldir_iterate(cpu, mem, k).0.reg16(Reg16::BC) != 0,
        ({
            let (c, m) = ldir_iterate(cpu, mem, len as nat);
            let hl = cpu.reg16(Reg16::HL);
            let de = cpu.reg16(Reg16::DE);
            &&& forall|i: int| 0 <= i < len ==> #[trigger] m[add16(de, i)] == mem[add16(hl, i)]
            &&& c.reg16(Reg16::HL) == add16(hl, len)
            &&& c.reg16(Reg16::DE) == add16(de, len)
            &&& c.reg16(Reg16::BC) == 0
            &&& c.registers.f & PARITY == 0
            &&& c.pc == cpu.pc
            &&& ldir_progress(cpu, mem, c, m, len)
        }),
{
    let hl = cpu.reg16(Reg16::HL);
    let de = cpu.reg16(Reg16::DE);
    let bc = cpu.reg16(Reg16::BC);
    assert forall|k: nat| k < len implies #[trigger] ldir_iterate(cpu, mem, k).0.reg16(Reg16::BC) != 0 by {
        lemma_ldir_progress(cpu, mem, len, k);
        let c = ldir_iterate(cpu, mem, k).0;
        assert(c.reg16(Reg16::BC) == add16(bc, -(k as int))) by {
            reveal(ldir_progress);
        }
    }
    lemma_ldir_progress(cpu, mem, len, len as nat);
    lemma_ldir_pc(cpu, mem, len as nat);
    let prev = ldir_iterate(cpu, mem, (len - 1) as nat);
    lemma_last_transfer_clears_pv(prev.0, prev.1);
    let (c, m) = ldir_iterate(cpu, mem, len as nat);
    assert(c == block_ld(prev.0, prev.1, 1));
    assert(c.reg16(Reg16::HL) == add16(hl, len) && c.reg16(Reg16::DE) == add16(de, len)
        && c.reg16(Reg16::BC) == add16(bc, -len) && forall|i: int|
        0 <= i < len ==> #[trigger] m[add16(de, i)] == mem[add16(hl, i)]) by {
        reveal(ldir_progress);
    }
}

/// PUSH rr followed by POP rr leaves the processor as it was: the pair holds
/// its value again and SP is back where it started.
pub proof fn lemma_push_pop(cpu: Z80, mem: Map<u16, u8>, r: Reg16)
    requires
        r == Reg16::BC || r == Reg16::DE || r == Reg16::HL || r == Reg16::AF || r == Reg16::IX
            || r == Reg16::IY,
    ensures
        ({
            let pushed_cpu = Z80 { sp: add16(cpu.sp, -2), ..cpu };
            let m = pushed(mem, cpu.sp, cpu.reg16(r));
            let popped = (Z80 { sp: add16(pushed_cpu.sp, 2), ..pushed_cpu }).with16(
                r,
                mem_word(m, pushed_cpu.sp),
            );
            &&& popped == cpu
            &&& popped.reg16(r) == cpu.reg16(r)
            &&& popped.sp == cpu.sp
        }),
{
    let w = cpu.reg16(r);
    let sp = cpu.sp;
    lemma_add16_add(sp, -2, 1);
    lemma_add16_add(sp, -2, 2);
    lemma_add16_zero(sp);
    crate::registers::lemma_word_split(w);
    let m = pushed(mem, sp, w);
    assert(add16(sp, -2) != add16(sp, -1)) by {
        lemma_add16_injective(add16(sp, -2), 0, 1);
    }
    assert(mem_word(m, add16(sp, -2)) == w);
    let regs = cpu.registers;
    crate::registers::lemma_word_join(regs.c, regs.b);
    crate::registers::lemma_word_join(regs.e, regs.d);
    crate::registers::lemma_word_join(regs.l, regs.h);
    crate::registers::lemma_word_join(regs.f, regs.a);
}

} // verus!
