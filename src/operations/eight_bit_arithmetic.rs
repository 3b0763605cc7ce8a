use crate::bus::Bus;
use crate::cpu::{fetch_len8, fetch_time8, rmw_time, stored_mem, Operand8, Z80};
use crate::flags::{flag_byte, make_flags, CARRY};
use crate::registers::Reg8;
use vstd::prelude::*;

verus! {

/// `a + b + c` as a 9-bit sum.
pub open spec fn sum8(a: u8, b: u8, c: u8) -> u16 {
    (a as int + b as int + c as int) as u16
}

/// `a - b - c` in 16-bit two's complement: bit 8 is the borrow.
pub open spec fn diff8(a: u8, b: u8, c: u8) -> u16 {
    (a as int - b as int - c as int) as u16
}

/// Flags of an 8-bit addition of `b` to `a` giving `res`.
pub open spec fn add_flags(a: u8, b: u8, res: u16) -> u8 {
    flag_byte(
        (res as u8) & 0x80 != 0,
        res as u8 == 0,
        (a ^ b ^ (res as u8)) & 0x10 != 0,
        (!(a ^ b) & (a ^ (res as u8)) & 0x80) != 0,
        false,
        res & 0x100 != 0,
        res as u8,
    )
}

/// Flags of an 8-bit subtraction of `b` from `a` giving `res`, X and Y from `xy`.
pub open spec fn sub_flags(a: u8, b: u8, res: u16, xy: u8) -> u8 {
    flag_byte(
        (res as u8) & 0x80 != 0,
        res as u8 == 0,
        (a ^ b ^ (res as u8)) & 0x10 != 0,
        ((a ^ b) & (a ^ (res as u8)) & 0x80) != 0,
        true,
        res & 0x100 != 0,
        xy,
    )
}

/// Flags of INC on `v`, carry kept from `f`.
pub open spec fn inc_flags(v: u8, f: u8) -> u8 {
    (f & CARRY) | flag_byte(
        ((v as int + 1) as u8) & 0x80 != 0,
        (v as int + 1) as u8 == 0,
        ((v as int + 1) as u8) & 0x0f == 0,
        v == 0x7f,
        false,
        false,
        (v as int + 1) as u8,
    )
}

/// Flags of DEC on `v`, carry kept from `f`.
pub open spec fn dec_flags(v: u8, f: u8) -> u8 {
    (f & CARRY) | flag_byte(
        ((v as int - 1) as u8) & 0x80 != 0,
        (v as int - 1) as u8 == 0,
        ((v as int - 1) as u8) & 0x0f == 0x0f,
        v == 0x80,
        true,
        false,
        (v as int - 1) as u8,
    )
}

/// The carry flag of `f` as 0 or 1.
pub open spec fn carry_of(f: u8) -> u8 {
    if f & CARRY != 0 {
        1
    } else {
        0
    }
}

/// Sets the flags of an 8-bit addition of `add` to `acc` that gave `res`.
pub fn flags_add(z80: &mut Z80, acc: u8, add: u8, res: u16)
    ensures
        *final(z80) == old(z80).with_f(add_flags(acc, add, res)),
{
    let r = res as u8;
    z80.registers.f = make_flags(
        r & 0x80 != 0,
        r == 0,
        (acc ^ add ^ r) & 0x10 != 0,
        (!(acc ^ add) & (acc ^ r) & 0x80) != 0,
        false,
        res & 0x100 != 0,
        r,
    );
}

/// Sets the flags of an 8-bit subtraction of `sub` from `acc` that gave `res`.
fn flags_sub(z80: &mut Z80, acc: u8, sub: u8, res: u16, xy: u8)
    ensures
        *final(z80) == old(z80).with_f(sub_flags(acc, sub, res, xy)),
{
    let r = res as u8;
    z80.registers.f = make_flags(
        r & 0x80 != 0,
        r == 0,
        (acc ^ sub ^ r) & 0x10 != 0,
        ((acc ^ sub) & (acc ^ r) & 0x80) != 0,
        true,
        res & 0x100 != 0,
        xy,
    );
}

/// `dest + source`, setting the flags.
pub fn raw_add(z80: &mut Z80, dest: u8, source: u8) -> (r: u8)
    ensures
        r == sum8(dest, source, 0) as u8,
        *final(z80) == old(z80).with_f(add_flags(dest, source, sum8(dest, source, 0))),
{
    let res = dest as u16 + source as u16;
    flags_add(z80, dest, source, res);
    res as u8
}

/// `dest + val + carry`, setting the flags.
pub fn raw_addc(z80: &mut Z80, dest: u8, val: u8, carry: u8) -> (r: u8)
    requires
        carry <= 1,
    ensures
        r == sum8(dest, val, carry) as u8,
        *final(z80) == old(z80).with_f(add_flags(dest, val, sum8(dest, val, carry))),
{
    let res = dest as u16 + val as u16 + carry as u16;
    flags_add(z80, dest, val, res);
    res as u8
}

/// `dest - val - carry`, setting the flags.
pub fn raw_sub(z80: &mut Z80, dest: u8, val: u8, carry: u8) -> (r: u8)
    requires
        carry <= 1,
    ensures
        r == diff8(dest, val, carry) as u8,
        *final(z80) == old(z80).with_f(
            sub_flags(dest, val, diff8(dest, val, carry), diff8(dest, val, carry) as u8),
        ),
{
    let res = (dest as i32 - val as i32 - carry as i32) as u16;
    flags_sub(z80, dest, val, res, res as u8);
    res as u8
}

/// Compares `val` with `dest`: the flags of `dest - val`, X and Y from `val`.
pub fn raw_cp(z80: &mut Z80, dest: u8, val: u8)
    ensures
        *final(z80) == old(z80).with_f(sub_flags(dest, val, diff8(dest, val, 0), val)),
{
    let res = (dest as i32 - val as i32) as u16;
    flags_sub(z80, dest, val, res, val);
}

/// The carry flag as 0 or 1.
pub fn carry_in(z80: &Z80) -> (c: u8)
    ensures
        c == carry_of(z80.registers.f),
{
    if z80.registers.f & CARRY != 0 {
        1
    } else {
        0
    }
}

/// ADD: `dest += source`.
pub fn add<B: Bus>(z80: &mut Z80, bus: &mut B, dest: Reg8, source: Operand8)
    ensures
        ({
            let m = old(bus).memory();
            let d = old(z80).registers.get8_spec(dest);
            let v = old(z80).operand(m, source);
            *final(z80) == old(z80).advanced(fetch_len8(source)).with_f(
                add_flags(d, v, sum8(d, v, 0)),
            ).with8(dest, sum8(d, v, 0) as u8)
        }),
        final(bus).memory() == old(bus).memory(),
        final(bus).clock() == old(bus).clock() + old(z80).operand_time(old(bus).memory(), source),
        final(bus).outputs() == old(bus).outputs(),
{
    let val = z80.read8(bus, source);
    let destval = z80.registers.get8(dest);
    let res = raw_add(z80, destval, val);
    z80.registers.set8(dest, res);
}

/// ADC: `dest += source + carry`.
pub fn adc<B: Bus>(z80: &mut Z80, bus: &mut B, dest: Reg8, source: Operand8)
    ensures
        ({
            let m = old(bus).memory();
            let d = old(z80).registers.get8_spec(dest);
            let v = old(z80).operand(m, source);
            let c = carry_of(old(z80).registers.f);
            *final(z80) == old(z80).advanced(fetch_len8(source)).with_f(
                add_flags(d, v, sum8(d, v, c)),
            ).with8(dest, sum8(d, v, c) as u8)
        }),
        final(bus).memory() == old(bus).memory(),
        final(bus).clock() == old(bus).clock() + old(z80).operand_time(old(bus).memory(), source),
        final(bus).outputs() == old(bus).outputs(),
{
    let val = z80.read8(bus, source);
    let destval = z80.registers.get8(dest);
    let carry = carry_in(z80);
    let res = raw_addc(z80, destval, val, carry);
    z80.registers.set8(dest, res);
}

/// SUB: `A -= source`.
pub fn sub<B: Bus>(z80: &mut Z80, bus: &mut B, source: Operand8)
    ensures
        ({
            let m = old(bus).memory();
            let a = old(z80).registers.a;
            let v = old(z80).operand(m, source);
            *final(z80) == old(z80).advanced(fetch_len8(source)).with_f(
                sub_flags(a, v, diff8(a, v, 0), diff8(a, v, 0) as u8),
            ).with8(Reg8::A, diff8(a, v, 0) as u8)
        }),
        final(bus).memory() == old(bus).memory(),
        final(bus).clock() == old(bus).clock() + old(z80).operand_time(old(bus).memory(), source),
        final(bus).outputs() == old(bus).outputs(),
{
    let val = z80.read8(bus, source);
    let a = z80.registers.a;
    let res = raw_sub(z80, a, val, 0);
    z80.registers.a = res;
}

/// SBC: `A -= source + carry`.
pub fn sbc<B: Bus>(z80: &mut Z80, bus: &mut B, source: Operand8)
    ensures
        ({
            let m = old(bus).memory();
            let a = old(z80).registers.a;
            let v = old(z80).operand(m, source);
            let c = carry_of(old(z80).registers.f);
            *final(z80) == old(z80).advanced(fetch_len8(source)).with_f(
                sub_flags(a, v, diff8(a, v, c), diff8(a, v, c) as u8),
            ).with8(Reg8::A, diff8(a, v, c) as u8)
        }),
        final(bus).memory() == old(bus).memory(),
        final(bus).clock() == old(bus).clock() + old(z80).operand_time(old(bus).memory(), source),
        final(bus).outputs() == old(bus).outputs(),
{
    let val = z80.read8(bus, source);
    let a = z80.registers.a;
    let carry = carry_in(z80);
    let res = raw_sub(z80, a, val, carry);
    z80.registers.a = res;
}

/// INC: adds one to an operand in place; the carry flag is kept.
pub fn inc_u8<B: Bus>(z80: &mut Z80, bus: &mut B, reg: Operand8)
    ensures
        ({
            let m = old(bus).memory();
            let l = old(z80).loc8(m, reg);
            let v = old(z80).load_spec(m, l);
            let r = (v as int + 1) as u8;
            &&& *final(z80) == old(z80).advanced(fetch_len8(reg)).with_f(
                inc_flags(v, old(z80).registers.f),
            ).stored(l, r)
            &&& final(bus).memory() == stored_mem(m, l, r)
            &&& final(bus).clock() == old(bus).clock() + fetch_time8(reg) + rmw_time(l)
            &&& final(bus).outputs() == old(bus).outputs()
        }),
{
    let l = z80.locate8(bus, reg);
    let val = z80.load8(bus, l);
    if let crate::cpu::Loc8::Addr(_) = l {
        bus.tick(0, 1);
    }
    let res = (val as u16 + 1) as u8;
    z80.registers.f = (z80.registers.f & CARRY) | make_flags(
        res & 0x80 != 0,
        res == 0,
        res & 0x0f == 0,
        val == 0x7f,
        false,
        false,
        res,
    );
    z80.store8(bus, l, res);
}

/// DEC: subtracts one from an operand in place; the carry flag is kept.
pub fn dec_u8<B: Bus>(z80: &mut Z80, bus: &mut B, reg: Operand8)
    ensures
        ({
            let m = old(bus).memory();
            let l = old(z80).loc8(m, reg);
            let v = old(z80).load_spec(m, l);
            let r = (v as int - 1) as u8;
            &&& *final(z80) == old(z80).advanced(fetch_len8(reg)).with_f(
                dec_flags(v, old(z80).registers.f),
            ).stored(l, r)
            &&& final(bus).memory() == stored_mem(m, l, r)
            &&& final(bus).clock() == old(bus).clock() + fetch_time8(reg) + rmw_time(l)
            &&& final(bus).outputs() == old(bus).outputs()
        }),
{
    let l = z80.locate8(bus, reg);
    let val = z80.load8(bus, l);
    if let crate::cpu::Loc8::Addr(_) = l {
        bus.tick(0, 1);
    }
    let res = (val as i16 - 1) as u8;
    z80.registers.f = (z80.registers.f & CARRY) | make_flags(
        res & 0x80 != 0,
        res == 0,
        res & 0x0f == 0x0f,
        val == 0x80,
        true,
        false,
        res,
    );
    z80.store8(bus, l, res);
}

} // verus!
