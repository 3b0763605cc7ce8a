use crate::bus::Bus;
use crate::cpu::{fetch_len8, fetch_time8, rmw_time, stored_mem, Loc8, Operand8, Z80};
use crate::flags::{
    bit_if, flag_byte, is_parity_even, make_flags, parity_even, CARRY, HALF_CARRY, PARITY, SIGN,
    SUBTRACT, ZERO,
};
use vstd::prelude::*;

verus! {

/// The rotates and shifts of the CB page, in the order of their opcodes.
#[derive(Clone, Copy, Debug, PartialEq, Eq, Structural)]
pub enum Shift {
    Rlc,
    Rrc,
    Rl,
    Rr,
    Sla,
    Sra,
    Sll,
    Srl,
}

/// The result of shifting `v` with carry-in `cin`.
pub open spec fn shifted(kind: Shift, v: u8, cin: bool) -> u8 {
    match kind {
        Shift::Rlc => (v << 1u8) | (v >> 7u8),
        Shift::Rrc => (v >> 1u8) | (v << 7u8),
        Shift::Rl => (v << 1u8) | (if cin { 1u8 } else { 0u8 }),
        Shift::Rr => (v >> 1u8) | (if cin { 0x80u8 } else { 0u8 }),
        Shift::Sla => v << 1u8,
        Shift::Sra => (v >> 1u8) | (v & 0x80),
        Shift::Sll => (v << 1u8) | 1,
        Shift::Srl => v >> 1u8,
    }
}

/// The bit that leaves `v`: bit 7 for the left shifts, bit 0 for the right ones.
pub open spec fn carried(kind: Shift, v: u8) -> bool {
    match kind {
        Shift::Rlc | Shift::Rl | Shift::Sla | Shift::Sll => v & 0x80 != 0,
        _ => v & 1 != 0,
    }
}

/// Flags of a rotate or shift of the CB page giving `r` with carry out `c`.
pub open spec fn rot_flags(r: u8, c: bool) -> u8 {
    flag_byte(r & 0x80 != 0, r == 0, false, parity_even(r), false, c, r)
}

/// Shifts a byte, returning the result and the bit that left it.
pub fn shift_value(kind: Shift, v: u8, cin: bool) -> (r: (u8, bool))
    ensures
        r.0 == shifted(kind, v, cin),
        r.1 == carried(kind, v),
{
    let res: u8 = match kind {
        Shift::Rlc => (v << 1u8) | (v >> 7u8),
        Shift::Rrc => (v >> 1u8) | (v << 7u8),
        Shift::Rl => (v << 1u8) | (if cin { 1u8 } else { 0u8 }),
        Shift::Rr => (v >> 1u8) | (if cin { 0x80u8 } else { 0u8 }),
        Shift::Sla => v << 1u8,
        Shift::Sra => (v >> 1u8) | (v & 0x80),
        Shift::Sll => (v << 1u8) | 1,
        Shift::Srl => v >> 1u8,
    };
    let c = match kind {
        Shift::Rlc | Shift::Rl | Shift::Sla | Shift::Sll => v & 0x80 != 0,
        _ => v & 1 != 0,
    };
    (res, c)
}

impl Z80 {
    /// Clears H and N, as every rotate does.
    pub fn common_rot_flags(&mut self)
        ensures
            *final(self) == old(self).with_f(old(self).registers.f & !(HALF_CARRY | SUBTRACT)),
    {
        self.registers.f = self.registers.f & !(HALF_CARRY | SUBTRACT);
    }

    /// Sets S, Z and P/V from `val`: sign, zero and even parity.
    pub fn szp_flags(&mut self, val: u8)
        ensures
            *final(self) == old(self).with_f(
                (old(self).registers.f & !(SIGN | ZERO | PARITY)) | bit_if(val & 0x80 != 0, SIGN)
                    | bit_if(val == 0, ZERO) | bit_if(parity_even(val), PARITY),
            ),
    {
        let p = is_parity_even(val);
        self.registers.f = (self.registers.f & !(SIGN | ZERO | PARITY)) | (if val & 0x80 != 0 {
            SIGN
        } else {
            0
        }) | (if val == 0 {
            ZERO
        } else {
            0
        }) | (if p {
            PARITY
        } else {
            0
        });
    }
}

/// Rotates or shifts an operand in place.
pub fn rotate<B: Bus>(z80: &mut Z80, bus: &mut B, reg: Operand8, kind: Shift)
    ensures
        ({
            let m = old(bus).memory();
            let l = old(z80).loc8(m, reg);
            let v = old(z80).load_spec(m, l);
            let r = shifted(kind, v, old(z80).registers.f & CARRY != 0);
            &&& *final(z80) == old(z80).advanced(fetch_len8(reg)).with_f(
                rot_flags(r, carried(kind, v)),
            ).stored(l, r)
            &&& final(bus).memory() == stored_mem(m, l, r)
            &&& final(bus).clock() == old(bus).clock() + fetch_time8(reg) + rmw_time(l)
            &&& final(bus).outputs() == old(bus).outputs()
        }),
{
    let l = z80.locate8(bus, reg);
    let val = z80.load8(bus, l);
    if let Loc8::Addr(_) = l {
        bus.tick(0, 1);
    }
    let cin = z80.registers.f & CARRY != 0;
    let (res, c) = shift_value(kind, val, cin);
    let p = is_parity_even(res);
    z80.registers.f = make_flags(res & 0x80 != 0, res == 0, false, p, false, c, res);
    z80.store8(bus, l, res);
}

pub fn rlc<B: Bus>(z80: &mut Z80, bus: &mut B, reg: Operand8)
    ensures
        ({
            let m = old(bus).memory();
            let l = old(z80).loc8(m, reg);
            let v = old(z80).load_spec(m, l);
            let r = shifted(Shift::Rlc, v, false);
            &&& *final(z80) == old(z80).advanced(fetch_len8(reg)).with_f(rot_flags(r, v & 0x80 != 0)).stored(l, r)
            &&& final(bus).memory() == stored_mem(m, l, r)
            &&& final(bus).clock() == old(bus).clock() + fetch_time8(reg) + rmw_time(l)
            &&& final(bus).outputs() == old(bus).outputs()
        }),
{
    rotate(z80, bus, reg, Shift::Rlc)
}

pub fn rl<B: Bus>(z80: &mut Z80, bus: &mut B, reg: Operand8)
    ensures
        ({
            let m = old(bus).memory();
            let l = old(z80).loc8(m, reg);
            let v = old(z80).load_spec(m, l);
            let r = shifted(Shift::Rl, v, old(z80).registers.f & CARRY != 0);
            &&& *final(z80) == old(z80).advanced(fetch_len8(reg)).with_f(rot_flags(r, v & 0x80 != 0)).stored(l, r)
            &&& final(bus).memory() == stored_mem(m, l, r)
            &&& final(bus).clock() == old(bus).clock() + fetch_time8(reg) + rmw_time(l)
            &&& final(bus).outputs() == old(bus).outputs()
        }),
{
    rotate(z80, bus, reg, Shift::Rl)
}

pub fn rr<B: Bus>(z80: &mut Z80, bus: &mut B, reg: Operand8)
    ensures
        ({
            let m = old(bus).memory();
            let l = old(z80).loc8(m, reg);
            let v = old(z80).load_spec(m, l);
            let r = shifted(Shift::Rr, v, old(z80).registers.f & CARRY != 0);
            &&& *final(z80) == old(z80).advanced(fetch_len8(reg)).with_f(rot_flags(r, v & 1 != 0)).stored(l, r)
            &&& final(bus).memory() == stored_mem(m, l, r)
            &&& final(bus).clock() == old(bus).clock() + fetch_time8(reg) + rmw_time(l)
            &&& final(bus).outputs() == old(bus).outputs()
        }),
{
    rotate(z80, bus, reg, Shift::Rr)
}

pub fn rrc<B: Bus>(z80: &mut Z80, bus: &mut B, reg: Operand8)
    ensures
        ({
            let m = old(bus).memory();
            let l = old(z80).loc8(m, reg);
            let v = old(z80).load_spec(m, l);
            let r = shifted(Shift::Rrc, v, false);
            &&& *final(z80) == old(z80).advanced(fetch_len8(reg)).with_f(rot_flags(r, v & 1 != 0)).stored(l, r)
            &&& final(bus).memory() == stored_mem(m, l, r)
            &&& final(bus).clock() == old(bus).clock() + fetch_time8(reg) + rmw_time(l)
            &&& final(bus).outputs() == old(bus).outputs()
        }),
{
    rotate(z80, bus, reg, Shift::Rrc)
}

pub fn sla<B: Bus>(z80: &mut Z80, bus: &mut B, reg: Operand8)
    ensures
        ({
            let m = old(bus).memory();
            let l = old(z80).loc8(m, reg);
            let v = old(z80).load_spec(m, l);
            let r = shifted(Shift::Sla, v, false);
            &&& *final(z80) == old(z80).advanced(fetch_len8(reg)).with_f(rot_flags(r, v & 0x80 != 0)).stored(l, r)
            &&& final(bus).memory() == stored_mem(m, l, r)
            &&& final(bus).clock() == old(bus).clock() + fetch_time8(reg) + rmw_time(l)
            &&& final(bus).outputs() == old(bus).outputs()
        }),
{
    rotate(z80, bus, reg, Shift::Sla)
}

pub fn sra<B: Bus>(z80: &mut Z80, bus: &mut B, reg: Operand8)
    ensures
        ({
            let m = old(bus).memory();
            let l = old(z80).loc8(m, reg);
            let v = old(z80).load_spec(m, l);
            let r = shifted(Shift::Sra, v, false);
            &&& *final(z80) == old(z80).advanced(fetch_len8(reg)).with_f(rot_flags(r, v & 1 != 0)).stored(l, r)
            &&& final(bus).memory() == stored_mem(m, l, r)
            &&& final(bus).clock() == old(bus).clock() + fetch_time8(reg) + rmw_time(l)
            &&& final(bus).outputs() == old(bus).outputs()
        }),
{
    rotate(z80, bus, reg, Shift::Sra)
}

/// The undocumented SLL: shifts left and always sets bit 0.
pub fn sll<B: Bus>(z80: &mut Z80, bus: &mut B, reg: Operand8)
    ensures
        ({
            let m = old(bus).memory();
            let l = old(z80).loc8(m, reg);
            let v = old(z80).load_spec(m, l);
            let r = shifted(Shift::Sll, v, false);
            &&& *final(z80) == old(z80).advanced(fetch_len8(reg)).with_f(rot_flags(r, v & 0x80 != 0)).stored(l, r)
            &&& final(bus).memory() == stored_mem(m, l, r)
            &&& final(bus).clock() == old(bus).clock() + fetch_time8(reg) + rmw_time(l)
            &&& final(bus).outputs() == old(bus).outputs()
        }),
{
    rotate(z80, bus, reg, Shift::Sll)
}

pub fn srl<B: Bus>(z80: &mut Z80, bus: &mut B, reg: Operand8)
    ensures
        ({
            let m = old(bus).memory();
            let l = old(z80).loc8(m, reg);
            let v = old(z80).load_spec(m, l);
            let r = shifted(Shift::Srl, v, false);
            &&& *final(z80) == old(z80).advanced(fetch_len8(reg)).with_f(rot_flags(r, v & 1 != 0)).stored(l, r)
            &&& final(bus).memory() == stored_mem(m, l, r)
            &&& final(bus).clock() == old(bus).clock() + fetch_time8(reg) + rmw_time(l)
            &&& final(bus).outputs() == old(bus).outputs()
        }),
{
    rotate(z80, bus, reg, Shift::Srl)
}

} // verus!
