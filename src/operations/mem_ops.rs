use crate::bus::{add16, Bus};
use crate::cpu::{offset16, Z80};
use crate::flags::{bit_if, CARRY, FLAG_X, FLAG_Y, HALF_CARRY, PARITY, SIGN, SUBTRACT, ZERO};
use crate::registers::Reg16;
use vstd::prelude::*;

verus! {

/// Flags of a block compare of `a` with `v` leaving `bc` in BC; carry kept from `f`.
///
/// S and Z come from `a - v`, H is its borrow out of bit 3, P/V is `bc != 0`,
/// N is set, and Y, X are bits 1 and 3 of `a - v - H`.
pub open spec fn block_cp_flags(a: u8, v: u8, bc: u16, f: u8) -> u8 {
    let d = (a as int - v as int) as u8;
    let h = (d & 0x0f) > (a & 0x0f);
    let n = (d as int - (if h { 1int } else { 0int })) as u8;
    (f & CARRY) | bit_if(d & 0x80 != 0, SIGN) | bit_if(d == 0, ZERO) | bit_if(h, HALF_CARRY)
        | bit_if(bc != 0, PARITY) | SUBTRACT | bit_if(n & 0x02 != 0, FLAG_Y) | bit_if(
        n & 0x08 != 0,
        FLAG_X,
    )
}

/// The processor after one block compare step that moves HL by `step`.
pub open spec fn block_cp(cpu: Z80, mem: Map<u16, u8>, step: int) -> Z80 {
    let hl = cpu.reg16(Reg16::HL);
    let bc = add16(cpu.reg16(Reg16::BC), -1);
    cpu.with16(Reg16::HL, add16(hl, step)).with16(Reg16::BC, bc).with_f(
        block_cp_flags(cpu.registers.a, mem[hl], bc, cpu.registers.f),
    )
}

/// Compares A with the byte at HL, then moves HL by `step` and counts BC down.
pub fn block_compare<B: Bus>(cpu: &mut Z80, bus: &mut B, step: i32)
    requires
        step == 1 || step == -1,
    ensures
        *final(cpu) == block_cp(*old(cpu), old(bus).memory(), step as int),
        final(bus).memory() == old(bus).memory(),
        final(bus).clock() == old(bus).clock() + 8,
        final(bus).outputs() == old(bus).outputs(),
{
    let a = cpu.registers.a;
    let hl = cpu.registers.get16(Reg16::HL);
    let v = bus.memory_read(hl);
    bus.tick(1, 3);
    bus.tick(0, 5);
    let d = (a as i16 - v as i16) as u8;
    cpu.registers.set16(Reg16::HL, offset16(hl, step));
    let bc = offset16(cpu.registers.get16(Reg16::BC), -1);
    cpu.registers.set16(Reg16::BC, bc);
    let h = (d & 0x0f) > (a & 0x0f);
    let n = (d as i16 - (if h { 1i16 } else { 0i16 })) as u8;
    let f = cpu.registers.f;
    cpu.registers.f = (f & CARRY) | (if d & 0x80 != 0 { SIGN } else { 0 }) | (if d == 0 {
        ZERO
    } else {
        0
    }) | (if h { HALF_CARRY } else { 0 }) | (if bc != 0 { PARITY } else { 0 }) | SUBTRACT | (if n
        & 0x02 != 0 {
        FLAG_Y
    } else {
        0
    }) | (if n & 0x08 != 0 { FLAG_X } else { 0 });
}

/// CPD: compares A with the byte at HL, then decrements HL and BC.
pub fn cpd<B: Bus>(cpu: &mut Z80, bus: &mut B)
    ensures
        *final(cpu) == block_cp(*old(cpu), old(bus).memory(), -1),
        final(bus).memory() == old(bus).memory(),
        final(bus).clock() == old(bus).clock() + 8,
        final(bus).outputs() == old(bus).outputs(),
{
    block_compare(cpu, bus, -1)
}

} // verus!
