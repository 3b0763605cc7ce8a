use crate::registers::Registers;
use vstd::prelude::*;

verus! {

/// A bit of the flag register F. `Parity` and `Overflow` name the same bit.
#[derive(Clone, Copy, Debug, PartialEq, Eq, Structural)]
pub enum Flag {
    Sign,
    Zero,
    HalfCarry,
    Parity,
    Overflow,
    Subtract,
    Carry,
    X,
    Y,
}

/// Mask of the sign flag in F.
pub const SIGN: u8 = 0x80;
/// Mask of the zero flag in F.
pub const ZERO: u8 = 0x40;
/// Mask of the undocumented Y flag (a copy of bit 5 of some value).
pub const FLAG_Y: u8 = 0x20;
/// Mask of the half-carry flag in F.
pub const HALF_CARRY: u8 = 0x10;
/// Mask of the undocumented X flag (a copy of bit 3 of some value).
pub const FLAG_X: u8 = 0x08;
/// Mask of the parity/overflow flag in F.
pub const PARITY: u8 = 0x04;
/// Mask of the subtract flag in F.
pub const SUBTRACT: u8 = 0x02;
/// Mask of the carry flag in F.
pub const CARRY: u8 = 0x01;

/// Bits 5 and 3 of a value: where the Y and X flags copy it from.
pub const XY_MASK: u8 = 0x28;

/// `m` when `b` holds, else no bit.
pub open spec fn bit_if(b: bool, m: u8) -> u8 {
    if b {
        m
    } else {
        0
    }
}

/// The flag byte with S, Z, H, P/V, N, C as given and Y, X taken from `xy`.
pub open spec fn flag_byte(s: bool, z: bool, h: bool, pv: bool, n: bool, c: bool, xy: u8) -> u8 {
    bit_if(s, SIGN) | bit_if(z, ZERO) | bit_if(h, HALF_CARRY) | bit_if(pv, PARITY) | bit_if(
        n,
        SUBTRACT,
    ) | bit_if(c, CARRY) | (xy & XY_MASK)
}

/// The number of set bits of `v` is even.
pub open spec fn parity_even(v: u8) -> bool {
    ((v & 1) + ((v >> 1) & 1) + ((v >> 2) & 1) + ((v >> 3) & 1) + ((v >> 4) & 1) + ((v >> 5) & 1)
        + ((v >> 6) & 1) + ((v >> 7) & 1)) % 2 == 0
}

/// Each flag of a composed flag byte reads back as given.
pub proof fn lemma_flag_byte(s: bool, z: bool, h: bool, pv: bool, n: bool, c: bool, xy: u8)
    ensures
        (flag_byte(s, z, h, pv, n, c, xy) & SIGN != 0) == s,
        (flag_byte(s, z, h, pv, n, c, xy) & ZERO != 0) == z,
        (flag_byte(s, z, h, pv, n, c, xy) & HALF_CARRY != 0) == h,
        (flag_byte(s, z, h, pv, n, c, xy) & PARITY != 0) == pv,
        (flag_byte(s, z, h, pv, n, c, xy) & SUBTRACT != 0) == n,
        (flag_byte(s, z, h, pv, n, c, xy) & CARRY != 0) == c,
        flag_byte(s, z, h, pv, n, c, xy) & XY_MASK == xy & XY_MASK,
{
    assert((flag_byte(s, z, h, pv, n, c, xy) & SIGN != 0) == s && (flag_byte(s, z, h, pv, n, c, xy)
        & ZERO != 0) == z && (flag_byte(s, z, h, pv, n, c, xy) & HALF_CARRY != 0) == h && (
    flag_byte(s, z, h, pv, n, c, xy) & PARITY != 0) == pv && (flag_byte(s, z, h, pv, n, c, xy)
        & SUBTRACT != 0) == n && (flag_byte(s, z, h, pv, n, c, xy) & CARRY != 0) == c && flag_byte(
        s,
        z,
        h,
        pv,
        n,
        c,
        xy,
    ) & XY_MASK == xy & XY_MASK) by (bit_vector);
}

/// Builds the flag byte that `flag_byte` describes.
pub fn make_flags(s: bool, z: bool, h: bool, pv: bool, n: bool, c: bool, xy: u8) -> (r: u8)
    ensures
        r == flag_byte(s, z, h, pv, n, c, xy),
{
    let bs: u8 = if s { SIGN } else { 0 };
    let bz: u8 = if z { ZERO } else { 0 };
    let bh: u8 = if h { HALF_CARRY } else { 0 };
    let bp: u8 = if pv { PARITY } else { 0 };
    let bn: u8 = if n { SUBTRACT } else { 0 };
    let bc: u8 = if c { CARRY } else { 0 };
    bs | bz | bh | bp | bn | bc | (xy & XY_MASK)
}

/// Whether `v` has an even number of set bits.
pub fn is_parity_even(v: u8) -> (r: bool)
    ensures
        r == parity_even(v),
{
    assert((v & 1) <= 1 && ((v >> 1) & 1) <= 1 && ((v >> 2) & 1) <= 1 && ((v >> 3) & 1) <= 1 && ((v
        >> 4) & 1) <= 1 && ((v >> 5) & 1) <= 1 && ((v >> 6) & 1) <= 1 && ((v >> 7) & 1) <= 1)
        by (bit_vector);
    let n: u8 = (v & 1) + ((v >> 1) & 1) + ((v >> 2) & 1) + ((v >> 3) & 1) + ((v >> 4) & 1) + ((v
        >> 5) & 1) + ((v >> 6) & 1) + ((v >> 7) & 1);
    n % 2 == 0
}

impl Flag {
    /// The position of the flag's bit in F.
    pub open spec fn index(self) -> u8 {
        match self {
            Flag::Sign => 7,
            Flag::Zero => 6,
            Flag::Y => 5,
            Flag::HalfCarry => 4,
            Flag::X => 3,
            Flag::Parity | Flag::Overflow => 2,
            Flag::Subtract => 1,
            Flag::Carry => 0,
        }
    }

    /// The flag's bit in F.
    pub open spec fn mask(self) -> u8 {
        1u8 << self.index()
    }

    pub fn read(self, registers: &Registers) -> (r: bool)
        ensures
            r == (registers.f & self.mask() != 0),
    {
        proof {
            lemma_flag_masks();
        }
        match self {
            Flag::Sign => registers.f & SIGN != 0,
            Flag::Zero => registers.f & ZERO != 0,
            Flag::Y => registers.f & FLAG_Y != 0,
            Flag::HalfCarry => registers.f & HALF_CARRY != 0,
            Flag::X => registers.f & FLAG_X != 0,
            Flag::Parity | Flag::Overflow => registers.f & PARITY != 0,
            Flag::Subtract => registers.f & SUBTRACT != 0,
            Flag::Carry => registers.f & CARRY != 0,
        }
    }

    pub fn write(self, registers: &mut Registers, val: bool)
        ensures
            *final(registers) == (Registers {
                f: if val {
                    old(registers).f | self.mask()
                } else {
                    old(registers).f & !self.mask()
                },
                ..*old(registers)
            }),
    {
        let flags = registers.f;
        let bit: u8 = match self {
            Flag::Sign => 7,
            Flag::Zero => 6,
            Flag::Y => 5,
            Flag::HalfCarry => 4,
            Flag::X => 3,
            Flag::Parity | Flag::Overflow => 2,
            Flag::Subtract => 1,
            Flag::Carry => 0,
        };
        registers.f = if val {
            set_bit(flags, bit)
        } else {
            reset_bit(flags, bit)
        };
    }
}

/// The masks of the flags are the single bits at their positions.
pub proof fn lemma_flag_masks()
    ensures
        1u8 << 7u8 == SIGN,
        1u8 << 6u8 == ZERO,
        1u8 << 5u8 == FLAG_Y,
        1u8 << 4u8 == HALF_CARRY,
        1u8 << 3u8 == FLAG_X,
        1u8 << 2u8 == PARITY,
        1u8 << 1u8 == SUBTRACT,
        1u8 << 0u8 == CARRY,
{
    assert(1u8 << 7u8 == 0x80u8 && 1u8 << 6u8 == 0x40u8 && 1u8 << 5u8 == 0x20u8 && 1u8 << 4u8
        == 0x10u8 && 1u8 << 3u8 == 0x08u8 && 1u8 << 2u8 == 0x04u8 && 1u8 << 1u8 == 0x02u8 && 1u8
        << 0u8 == 0x01u8) by (bit_vector);
}

/// `val` with bit `bit` set.
pub fn set_bit(val: u8, bit: u8) -> (r: u8)
    requires
        bit < 8,
    ensures
        r == val | (1u8 << bit),
{
    val | (1u8 << bit)
}

/// `val` with bit `bit` cleared.
pub fn reset_bit(val: u8, bit: u8) -> (r: u8)
    requires
        bit < 8,
    ensures
        r == val & !(1u8 << bit),
{
    val & !(1u8 << bit)
}

} // verus!
