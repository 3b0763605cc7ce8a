use crate::bus::Bus;
use crate::cpu::{fetch_len8, Operand8, Z80};
use crate::flags::{flag_byte, is_parity_even, make_flags, parity_even};
use crate::operations::eight_bit_arithmetic::{diff8, raw_cp, sub_flags};
use crate::registers::Reg8;
use vstd::prelude::*;

verus! {

/// Flags of AND, OR and XOR giving `r`; only AND sets the half-carry.
pub open spec fn logic_flags(r: u8, half: bool) -> u8 {
    flag_byte(r & 0x80 != 0, r == 0, half, parity_even(r), false, false, r)
}

/// Sets the flags of a logical operation that gave `val`.
fn common_logic_flags(z80: &mut Z80, val: u8, half: bool)
    ensures
        *final(z80) == old(z80).with_f(logic_flags(val, half)),
{
    let p = is_parity_even(val);
    z80.registers.f = make_flags(val & 0x80 != 0, val == 0, half, p, false, false, val);
}

/// OR: `A |= reg`.
pub fn or<B: Bus>(z80: &mut Z80, bus: &mut B, reg: Operand8)
    ensures
        ({
            let r = old(z80).registers.a | old(z80).operand(old(bus).memory(), reg);
            *final(z80) == old(z80).advanced(fetch_len8(reg)).with_f(logic_flags(r, false)).with8(
                Reg8::A,
                r,
            )
        }),
        final(bus).memory() == old(bus).memory(),
        final(bus).clock() == old(bus).clock() + old(z80).operand_time(old(bus).memory(), reg),
        final(bus).outputs() == old(bus).outputs(),
{
    let val = z80.read8(bus, reg);
    let res = z80.registers.a | val;
    common_logic_flags(z80, res, false);
    z80.registers.a = res;
}

/// AND: `A &= reg`.
pub fn and<B: Bus>(z80: &mut Z80, bus: &mut B, reg: Operand8)
    ensures
        ({
            let r = old(z80).registers.a & old(z80).operand(old(bus).memory(), reg);
            *final(z80) == old(z80).advanced(fetch_len8(reg)).with_f(logic_flags(r, true)).with8(
                Reg8::A,
                r,
            )
        }),
        final(bus).memory() == old(bus).memory(),
        final(bus).clock() == old(bus).clock() + old(z80).operand_time(old(bus).memory(), reg),
        final(bus).outputs() == old(bus).outputs(),
{
    let val = z80.read8(bus, reg);
    let res = z80.registers.a & val;
    common_logic_flags(z80, res, true);
    z80.registers.a = res;
}

/// XOR: `A ^= reg`.
pub fn xor<B: Bus>(z80: &mut Z80, bus: &mut B, reg: Operand8)
    ensures
        ({
            let r = old(z80).registers.a ^ old(z80).operand(old(bus).memory(), reg);
            *final(z80) == old(z80).advanced(fetch_len8(reg)).with_f(logic_flags(r, false)).with8(
                Reg8::A,
                r,
            )
        }),
        final(bus).memory() == old(bus).memory(),
        final(bus).clock() == old(bus).clock() + old(z80).operand_time(old(bus).memory(), reg),
        final(bus).outputs() == old(bus).outputs(),
{
    let val = z80.read8(bus, reg);
    let res = z80.registers.a ^ val;
    common_logic_flags(z80, res, false);
    z80.registers.a = res;
}

/// CP: the flags of `A - source`, X and Y from the operand; A is kept.
pub fn cp<B: Bus>(z80: &mut Z80, bus: &mut B, source: Operand8)
    ensures
        ({
            let a = old(z80).registers.a;
            let v = old(z80).operand(old(bus).memory(), source);
            *final(z80) == old(z80).advanced(fetch_len8(source)).with_f(
                sub_flags(a, v, diff8(a, v, 0), v),
            )
        }),
        final(bus).memory() == old(bus).memory(),
        final(bus).clock() == old(bus).clock() + old(z80).operand_time(old(bus).memory(), source),
        final(bus).outputs() == old(bus).outputs(),
{
    let val = z80.read8(bus, source);
    let a = z80.registers.a;
    raw_cp(z80, a, val);
}

} // verus!
