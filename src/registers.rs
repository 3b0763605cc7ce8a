use crate::bus::word;
use crate::flags::Flag;
use vstd::prelude::*;

verus! {

/// An 8-bit register, including the halves of IX and IY and the alternates.
#[derive(Clone, Copy, Debug, PartialEq, Eq, Structural)]
pub enum Reg8 {
    A,
    B,
    C,
    D,
    E,
    F,
    H,
    L,
    R,
    I,
    IXH,
    IXL,
    IYH,
    IYL,
    AltA,
    AltB,
    AltC,
    AltD,
    AltE,
    AltF,
    AltH,
    AltL,
}

/// A 16-bit register or register pair.
#[derive(Clone, Copy, Debug, PartialEq, Eq, Structural)]
pub enum Reg16 {
    AF,
    BC,
    DE,
    HL,
    SP,
    PC,
    IX,
    IY,
    AltAF,
    AltBC,
    AltDE,
    AltHL,
}

/// The register file, without SP and PC, which the processor holds itself.
#[derive(Clone, Copy, Debug, PartialEq, Eq, Structural)]
pub struct Registers {
    pub a: u8,
    pub b: u8,
    pub c: u8,
    pub d: u8,
    pub e: u8,
    pub f: u8,
    pub h: u8,
    pub l: u8,
    pub r: u8,
    pub i: u8,
    pub ix: u16,
    pub iy: u16,
    pub alt_a: u8,
    pub alt_b: u8,
    pub alt_c: u8,
    pub alt_d: u8,
    pub alt_e: u8,
    pub alt_f: u8,
    pub alt_h: u8,
    pub alt_l: u8,
}

/// The high byte of a word.
pub open spec fn hi(w: u16) -> u8 {
    (w / 256) as u8
}

/// The low byte of a word.
pub open spec fn lo(w: u16) -> u8 {
    (w % 256) as u8
}

/// Joins a low and a high byte into a word.
pub fn make_u16(l: u8, h: u8) -> (r: u16)
    ensures
        r == word(l, h),
{
    (h as u16) * 256 + (l as u16)
}

/// The high byte of `w`.
pub fn high_byte(w: u16) -> (r: u8)
    ensures
        r == hi(w),
{
    (w / 256) as u8
}

/// The low byte of `w`.
pub fn low_byte(w: u16) -> (r: u8)
    ensures
        r == lo(w),
{
    (w % 256) as u8
}

/// Splitting a word into its bytes and joining them gives the word back.
pub proof fn lemma_word_split(w: u16)
    ensures
        word(lo(w), hi(w)) == w,
        hi(word(lo(w), hi(w))) == hi(w),
{
}

/// Joining two bytes and splitting the word gives the bytes back.
pub proof fn lemma_word_join(l: u8, h: u8)
    ensures
        lo(word(l, h)) == l,
        hi(word(l, h)) == h,
{
}

impl Registers {
    /// The value of an 8-bit register.
    pub open spec fn get8_spec(self, r: Reg8) -> u8 {
        match r {
            Reg8::A => self.a,
            Reg8::B => self.b,
            Reg8::C => self.c,
            Reg8::D => self.d,
            Reg8::E => self.e,
            Reg8::F => self.f,
            Reg8::H => self.h,
            Reg8::L => self.l,
            Reg8::R => self.r,
            Reg8::I => self.i,
            Reg8::IXH => hi(self.ix),
            Reg8::IXL => lo(self.ix),
            Reg8::IYH => hi(self.iy),
            Reg8::IYL => lo(self.iy),
            Reg8::AltA => self.alt_a,
            Reg8::AltB => self.alt_b,
            Reg8::AltC => self.alt_c,
            Reg8::AltD => self.alt_d,
            Reg8::AltE => self.alt_e,
            Reg8::AltF => self.alt_f,
            Reg8::AltH => self.alt_h,
            Reg8::AltL => self.alt_l,
        }
    }

    /// The register file with the 8-bit register `r` set to `v`.
    pub open spec fn set8_spec(self, r: Reg8, v: u8) -> Registers {
        match r {
            Reg8::A => Registers { a: v, ..self },
            Reg8::B => Registers { b: v, ..self },
            Reg8::C => Registers { c: v, ..self },
            Reg8::D => Registers { d: v, ..self },
            Reg8::E => Registers { e: v, ..self },
            Reg8::F => Registers { f: v, ..self },
            Reg8::H => Registers { h: v, ..self },
            Reg8::L => Registers { l: v, ..self },
            Reg8::R => Registers { r: v, ..self },
            Reg8::I => Registers { i: v, ..self },
            Reg8::IXH => Registers { ix: word(lo(self.ix), v), ..self },
            Reg8::IXL => Registers { ix: word(v, hi(self.ix)), ..self },
            Reg8::IYH => Registers { iy: word(lo(self.iy), v), ..self },
            Reg8::IYL => Registers { iy: word(v, hi(self.iy)), ..self },
            Reg8::AltA => Registers { alt_a: v, ..self },
            Reg8::AltB => Registers { alt_b: v, ..self },
            Reg8::AltC => Registers { alt_c: v, ..self },
            Reg8::AltD => Registers { alt_d: v, ..self },
            Reg8::AltE => Registers { alt_e: v, ..self },
            Reg8::AltF => Registers { alt_f: v, ..self },
            Reg8::AltH => Registers { alt_h: v, ..self },
            Reg8::AltL => Registers { alt_l: v, ..self },
        }
    }

    /// The value of a register pair or index register of the file.
    pub open spec fn get16_spec(self, r: Reg16) -> u16 {
        match r {
            Reg16::AF => word(self.f, self.a),
            Reg16::BC => word(self.c, self.b),
            Reg16::DE => word(self.e, self.d),
            Reg16::HL => word(self.l, self.h),
            Reg16::IX => self.ix,
            Reg16::IY => self.iy,
            Reg16::AltAF => word(self.alt_f, self.alt_a),
            Reg16::AltBC => word(self.alt_c, self.alt_b),
            Reg16::AltDE => word(self.alt_e, self.alt_d),
            Reg16::AltHL => word(self.alt_l, self.alt_h),
            _ => 0,
        }
    }

    /// The register file with the pair or index register `r` set to `v`.
    pub open spec fn set16_spec(self, r: Reg16, v: u16) -> Registers {
        match r {
            Reg16::AF => Registers { a: hi(v), f: lo(v), ..self },
            Reg16::BC => Registers { b: hi(v), c: lo(v), ..self },
            Reg16::DE => Registers { d: hi(v), e: lo(v), ..self },
            Reg16::HL => Registers { h: hi(v), l: lo(v), ..self },
            Reg16::IX => Registers { ix: v, ..self },
            Reg16::IY => Registers { iy: v, ..self },
            Reg16::AltAF => Registers { alt_a: hi(v), alt_f: lo(v), ..self },
            Reg16::AltBC => Registers { alt_b: hi(v), alt_c: lo(v), ..self },
            Reg16::AltDE => Registers { alt_d: hi(v), alt_e: lo(v), ..self },
            Reg16::AltHL => Registers { alt_h: hi(v), alt_l: lo(v), ..self },
            _ => self,
        }
    }

    /// The file with a main register pair and its alternate exchanged.
    pub open spec fn swapped(self, r: Reg16) -> Registers {
        match r {
            Reg16::AF => Registers { a: self.alt_a, f: self.alt_f, alt_a: self.a, alt_f: self.f, ..self },
            Reg16::BC => Registers { b: self.alt_b, c: self.alt_c, alt_b: self.b, alt_c: self.c, ..self },
            Reg16::DE => Registers { d: self.alt_d, e: self.alt_e, alt_d: self.d, alt_e: self.e, ..self },
            Reg16::HL => Registers { h: self.alt_h, l: self.alt_l, alt_h: self.h, alt_l: self.l, ..self },
            _ => self,
        }
    }

    /// The register file at power-on.
    pub open spec fn power_on() -> Registers {
        Registers {
            a: 0,
            b: 0,
            c: 0,
            d: 0,
            e: 0,
            f: 0,
            h: 0,
            l: 0,
            r: 0x8c,
            i: 0,
            ix: 0,
            iy: 0,
            alt_a: 0,
            alt_b: 0,
            alt_c: 0,
            alt_d: 0,
            alt_e: 0,
            alt_f: 0,
            alt_h: 0,
            alt_l: 0,
        }
    }

    pub fn get8(&self, r: Reg8) -> (v: u8)
        ensures
            v == self.get8_spec(r),
    {
        match r {
            Reg8::A => self.a,
            Reg8::B => self.b,
            Reg8::C => self.c,
            Reg8::D => self.d,
            Reg8::E => self.e,
            Reg8::F => self.f,
            Reg8::H => self.h,
            Reg8::L => self.l,
            Reg8::R => self.r,
            Reg8::I => self.i,
            Reg8::IXH => high_byte(self.ix),
            Reg8::IXL => low_byte(self.ix),
            Reg8::IYH => high_byte(self.iy),
            Reg8::IYL => low_byte(self.iy),
            Reg8::AltA => self.alt_a,
            Reg8::AltB => self.alt_b,
            Reg8::AltC => self.alt_c,
            Reg8::AltD => self.alt_d,
            Reg8::AltE => self.alt_e,
            Reg8::AltF => self.alt_f,
            Reg8::AltH => self.alt_h,
            Reg8::AltL => self.alt_l,
        }
    }

    pub fn set8(&mut self, r: Reg8, v: u8)
        ensures
            *final(self) == old(self).set8_spec(r, v),
    {
        match r {
            Reg8::A => self.a = v,
            Reg8::B => self.b = v,
            Reg8::C => self.c = v,
            Reg8::D => self.d = v,
            Reg8::E => self.e = v,
            Reg8::F => self.f = v,
            Reg8::H => self.h = v,
            Reg8::L => self.l = v,
            Reg8::R => self.r = v,
            Reg8::I => self.i = v,
            Reg8::IXH => self.ix = make_u16(low_byte(self.ix), v),
            Reg8::IXL => self.ix = make_u16(v, high_byte(self.ix)),
            Reg8::IYH => self.iy = make_u16(low_byte(self.iy), v),
            Reg8::IYL => self.iy = make_u16(v, high_byte(self.iy)),
            Reg8::AltA => self.alt_a = v,
            Reg8::AltB => self.alt_b = v,
            Reg8::AltC => self.alt_c = v,
            Reg8::AltD => self.alt_d = v,
            Reg8::AltE => self.alt_e = v,
            Reg8::AltF => self.alt_f = v,
            Reg8::AltH => self.alt_h = v,
            Reg8::AltL => self.alt_l = v,
        }
    }

    pub fn get16(&self, r: Reg16) -> (v: u16)
        ensures
            v == self.get16_spec(r),
    {
        match r {
            Reg16::AF => make_u16(self.f, self.a),
            Reg16::BC => make_u16(self.c, self.b),
            Reg16::DE => make_u16(self.e, self.d),
            Reg16::HL => make_u16(self.l, self.h),
            Reg16::IX => self.ix,
            Reg16::IY => self.iy,
            Reg16::AltAF => make_u16(self.alt_f, self.alt_a),
            Reg16::AltBC => make_u16(self.alt_c, self.alt_b),
            Reg16::AltDE => make_u16(self.alt_e, self.alt_d),
            Reg16::AltHL => make_u16(self.alt_l, self.alt_h),
            _ => 0,
        }
    }

    pub fn set16(&mut self, r: Reg16, v: u16)
        ensures
            *final(self) == old(self).set16_spec(r, v),
    {
        let h = high_byte(v);
        let l = low_byte(v);
        match r {
            Reg16::AF => {
                self.a = h;
                self.f = l;
            },
            Reg16::BC => {
                self.b = h;
                self.c = l;
            },
            Reg16::DE => {
                self.d = h;
                self.e = l;
            },
            Reg16::HL => {
                self.h = h;
                self.l = l;
            },
            Reg16::IX => self.ix = v,
            Reg16::IY => self.iy = v,
            Reg16::AltAF => {
                self.alt_a = h;
                self.alt_f = l;
            },
            Reg16::AltBC => {
                self.alt_b = h;
                self.alt_c = l;
            },
            Reg16::AltDE => {
                self.alt_d = h;
                self.alt_e = l;
            },
            Reg16::AltHL => {
                self.alt_h = h;
                self.alt_l = l;
            },
            _ => {},
        }
    }

    pub fn set_flag(&mut self, flag: Flag, val: bool)
        ensures
            *final(self) == (Registers {
                f: if val {
                    old(self).f | flag.mask()
                } else {
                    old(self).f & !flag.mask()
                },
                ..*old(self)
            }),
    {
        flag.write(self, val)
    }

    pub fn get_flag(&self, flag: Flag) -> (r: bool)
        ensures
            r == (self.f & flag.mask() != 0),
    {
        flag.read(self)
    }

    /// Copies bits 5 and 3 of `val` into the Y and X flags.
    pub fn set_xy(&mut self, val: u8)
        ensures
            *final(self) == (Registers { f: (old(self).f & !0x28u8) | (val & 0x28u8), ..*old(self) }),
    {
        self.f = (self.f & !0x28u8) | (val & 0x28u8);
    }

    /// Exchanges one 8-bit register with its alternate; `r` is one of A, F, B, C, D, E, H, L.
    fn alt_swap8(&mut self, r: Reg8)
        requires
            r == Reg8::A || r == Reg8::F || r == Reg8::B || r == Reg8::C || r == Reg8::D || r
                == Reg8::E || r == Reg8::H || r == Reg8::L,
        ensures
            r == Reg8::A ==> *final(self) == (Registers { a: old(self).alt_a, alt_a: old(self).a, ..*old(self) }),
            r == Reg8::F ==> *final(self) == (Registers { f: old(self).alt_f, alt_f: old(self).f, ..*old(self) }),
            r == Reg8::B ==> *final(self) == (Registers { b: old(self).alt_b, alt_b: old(self).b, ..*old(self) }),
            r == Reg8::C ==> *final(self) == (Registers { c: old(self).alt_c, alt_c: old(self).c, ..*old(self) }),
            r == Reg8::D ==> *final(self) == (Registers { d: old(self).alt_d, alt_d: old(self).d, ..*old(self) }),
            r == Reg8::E ==> *final(self) == (Registers { e: old(self).alt_e, alt_e: old(self).e, ..*old(self) }),
            r == Reg8::H ==> *final(self) == (Registers { h: old(self).alt_h, alt_h: old(self).h, ..*old(self) }),
            r == Reg8::L ==> *final(self) == (Registers { l: old(self).alt_l, alt_l: old(self).l, ..*old(self) }),
    {
        match r {
            Reg8::A => {
                let t = self.a;
                self.a = self.alt_a;
                self.alt_a = t;
            },
            Reg8::F => {
                let t = self.f;
                self.f = self.alt_f;
                self.alt_f = t;
            },
            Reg8::B => {
                let t = self.b;
                self.b = self.alt_b;
                self.alt_b = t;
            },
            Reg8::C => {
                let t = self.c;
                self.c = self.alt_c;
                self.alt_c = t;
            },
            Reg8::D => {
                let t = self.d;
                self.d = self.alt_d;
                self.alt_d = t;
            },
            Reg8::E => {
                let t = self.e;
                self.e = self.alt_e;
                self.alt_e = t;
            },
            Reg8::H => {
                let t = self.h;
                self.h = self.alt_h;
                self.alt_h = t;
            },
            _ => {
                let t = self.l;
                self.l = self.alt_l;
                self.alt_l = t;
            },
        }
    }

    /// Exchanges a main register pair (AF, BC, DE or HL) with its alternate.
    pub fn alt_swap(&mut self, r: Reg16)
        requires
            r == Reg16::AF || r == Reg16::BC || r == Reg16::DE || r == Reg16::HL,
        ensures
            *final(self) == old(self).swapped(r),
    {
        match r {
            Reg16::AF => {
                self.alt_swap8(Reg8::A);
                self.alt_swap8(Reg8::F);
            },
            Reg16::BC => {
                self.alt_swap8(Reg8::B);
                self.alt_swap8(Reg8::C);
            },
            Reg16::DE => {
                self.alt_swap8(Reg8::D);
                self.alt_swap8(Reg8::E);
            },
            _ => {
                self.alt_swap8(Reg8::H);
                self.alt_swap8(Reg8::L);
            },
        }
    }
}

impl Default for Registers {
    fn default() -> (r: Registers)
        ensures
            r == Registers::power_on(),
    {
        Registers {
            a: 0,
            b: 0,
            c: 0,
            d: 0,
            e: 0,
            f: 0,
            h: 0,
            l: 0,
            r: 0x8c,
            i: 0,
            ix: 0,
            iy: 0,
            alt_a: 0,
            alt_b: 0,
            alt_c: 0,
            alt_d: 0,
            alt_e: 0,
            alt_f: 0,
            alt_h: 0,
            alt_l: 0,
        }
    }
}

} // verus!
