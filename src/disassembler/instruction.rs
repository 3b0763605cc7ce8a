use crate::registers::{Reg16, Reg8};
use vstd::prelude::*;
use vstd::string::StringExecFns;

verus! {

/// A branch condition.
#[derive(Clone, Copy, Debug, PartialEq, Eq, Structural)]
pub enum Cond {
    Zero,
    NotZero,
    Carry,
    NotCarry,
    ParityEven,
    ParityOdd,
    Positive,
    Negative,
    True,
    False,
}

/// An immediate byte.
#[derive(Clone, Copy, Debug, PartialEq, Eq, Structural)]
pub struct Data8(pub u8);

/// An immediate word.
#[derive(Clone, Copy, Debug, PartialEq, Eq, Structural)]
pub struct Data16(pub u16);

/// A memory address as an instruction names it.
#[derive(Clone, Copy, Debug, PartialEq, Eq, Structural)]
pub enum Address {
    Direct(Data16),
    BC,
    DE,
    HL,
    ZeroPage(Data8),
    /// An index register plus a signed displacement.
    RelOffset(Reg16, Data8),
}

/// An 8-bit operand as an instruction names it.
#[derive(Clone, Copy, Debug, PartialEq, Eq, Structural)]
pub enum Arg8 {
    Register(Reg8),
    Immediate(Data8),
    Memory(Address),
}

/// A 16-bit operand as an instruction names it.
#[derive(Clone, Copy, Debug, PartialEq, Eq, Structural)]
pub enum Arg16 {
    Register(Reg16),
    Immediate(Data16),
    Memory(Address),
}

/// The prefix bytes that select the other opcode pages.
#[derive(Clone, Copy, Debug, PartialEq, Eq, Structural)]
pub enum Prefix {
    CB,
    DD,
    ED,
    FD,
}

/// A disassembled instruction.
#[allow(non_camel_case_types)]
#[derive(Clone, Copy, Debug, PartialEq, Eq, Structural)]
pub enum Instruction {
    ADD8(Arg8, Arg8),
    ADC8(Arg8, Arg8),
    ADD16(Arg16, Arg16),
    ADC16(Arg16, Arg16),
    AND(Arg8),
    BIT(u8, Arg8),
    CCF,
    CP(Arg8),
    CPD,
    CPL,
    CPDR,
    CPI,
    CPIR,
    CALL(Address),
    CALL_COND(Cond, Address),
    DAA,
    DEC8(Arg8),
    DEC16(Arg16),
    DI,
    DJNZ(Arg8),
    EI,
    EX(Arg16, Arg16),
    EXX,
    HALT,
    IM,
    IN(Arg8, Arg8),
    INC8(Arg8),
    INC8_MEMORY(Address),
    INC16(Arg16),
    IND,
    INDR,
    INI,
    INIR,
    JP(Address),
    JP_COND(Cond, Address),
    JR(Address),
    JR_COND(Cond, u8),
    LD8(Arg8, Arg8),
    LD16(Arg16, Arg16),
    LDD,
    LDDR,
    LDI,
    LDIR,
    NEG,
    NOP,
    OR(Arg8),
    OTDR,
    OTIR,
    OUT(Arg8, Arg8),
    OUTD,
    OUTI,
    POP(Arg16),
    PUSH(Arg16),
    RES(u8, Arg8),
    RET,
    RETI,
    RETN,
    RET_COND(Cond),
    RL(Arg8),
    RLA,
    RLC(Arg8),
    RLCA,
    RLD,
    RR(Arg8),
    RRA,
    RRC(Arg8),
    RRCA,
    RRD,
    RST(u8),
    SBC8(Arg8),
    SBC16(Arg16, Arg16),
    SCF,
    SET(u8, Arg8),
    SRA(Arg8),
    SLA(Arg8),
    SLL(Arg8),
    SRL(Arg8),
    SUB8(Arg8),
    XOR(Arg8),
}

/// The lower-case hexadecimal digit of `d`.
pub open spec fn hex_digit_text(d: u16) -> Seq<char> {
    match d {
        0 => "0"@,
        1 => "1"@,
        2 => "2"@,
        3 => "3"@,
        4 => "4"@,
        5 => "5"@,
        6 => "6"@,
        7 => "7"@,
        8 => "8"@,
        9 => "9"@,
        10 => "a"@,
        11 => "b"@,
        12 => "c"@,
        13 => "d"@,
        14 => "e"@,
        _ => "f"@,
    }
}

/// The lower-case hexadecimal digit of `d`.
fn hex_digit(d: u16) -> (r: &'static str)
    ensures
        r@ == hex_digit_text(d),
{
    match d {
        0 => "0",
        1 => "1",
        2 => "2",
        3 => "3",
        4 => "4",
        5 => "5",
        6 => "6",
        7 => "7",
        8 => "8",
        9 => "9",
        10 => "a",
        11 => "b",
        12 => "c",
        13 => "d",
        14 => "e",
        _ => "f",
    }
}

/// `s` followed by the low `digits` (2 or 4) hexadecimal digits of `v`.
pub open spec fn hex_out(s: Seq<char>, v: u16, digits: u8) -> Seq<char> {
    if digits == 4 {
        s + hex_digit_text((v >> 12u16) & 0xf) + hex_digit_text((v >> 8u16) & 0xf) + hex_digit_text(
            (v >> 4u16) & 0xf,
        ) + hex_digit_text(v & 0xf)
    } else {
        s + hex_digit_text((v >> 4u16) & 0xf) + hex_digit_text(v & 0xf)
    }
}

/// `s` followed by `v` as a signed decimal number.
pub open spec fn signed_out(s: Seq<char>, v: u8) -> Seq<char> {
    let n: u16 = if v < 128 {
        v as u16
    } else {
        (256 - v) as u16
    };
    let s1 = if v < 128 {
        s
    } else {
        s + "-"@
    };
    let s2 = if n >= 100 {
        s1 + hex_digit_text(n / 100) + hex_digit_text((n % 100) / 10)
    } else if n >= 10 {
        s1 + hex_digit_text(n / 10)
    } else {
        s1
    };
    s2 + hex_digit_text(n % 10)
}

/// Appends the low `digits` (2 or 4) hexadecimal digits of `v`, most significant first.
fn push_hex(s: &mut String, v: u16, digits: u8)
    requires
        digits == 2 || digits == 4,
    ensures
        final(s)@ == hex_out(old(s)@, v, digits),
{
    if digits == 4 {
        s.append(hex_digit((v >> 12u16) & 0xf));
        s.append(hex_digit((v >> 8u16) & 0xf));
    }
    s.append(hex_digit((v >> 4u16) & 0xf));
    s.append(hex_digit(v & 0xf));
}

/// Appends `v` as a signed decimal number.
fn push_signed(s: &mut String, v: u8)
    ensures
        final(s)@ == signed_out(old(s)@, v),
{
    let n: u16 = if v < 128 {
        v as u16
    } else {
        256 - v as u16
    };
    if v >= 128 {
        s.append("-");
    }
    if n >= 100 {
        s.append(hex_digit(n / 100));
        s.append(hex_digit((n % 100) / 10));
    } else if n >= 10 {
        s.append(hex_digit(n / 10));
    }
    s.append(hex_digit(n % 10));
}

impl Reg8 {
    /// The register's assembler name.
    pub fn name(self) -> (r: &'static str)
        ensures
            r@ == reg8_text(self),
    {
        match self {
            Reg8::A => "a",
            Reg8::B => "b",
            Reg8::C => "c",
            Reg8::D => "d",
            Reg8::E => "e",
            Reg8::F => "f",
            Reg8::H => "h",
            Reg8::L => "l",
            Reg8::R => "r",
            Reg8::I => "i",
            Reg8::IXH => "ixh",
            Reg8::IXL => "ixl",
            Reg8::IYH => "iyh",
            Reg8::IYL => "iyl",
            Reg8::AltA => "'a",
            Reg8::AltB => "'b",
            Reg8::AltC => "'c",
            Reg8::AltD => "'d",
            Reg8::AltE => "'e",
            Reg8::AltF => "'f",
            Reg8::AltH => "'h",
            Reg8::AltL => "'l",
        }
    }
}

impl Reg16 {
    /// The register's assembler name.
    pub fn name(self) -> (r: &'static str)
        ensures
            r@ == reg16_text(self),
    {
        match self {
            Reg16::AF => "af",
            Reg16::BC => "bc",
            Reg16::DE => "de",
            Reg16::HL => "hl",
            Reg16::SP => "sp",
            Reg16::PC => "pc",
            Reg16::IX => "ix",
            Reg16::IY => "iy",
            Reg16::AltAF => "af'",
            Reg16::AltBC => "bc'",
            Reg16::AltDE => "de'",
            Reg16::AltHL => "hl'",
        }
    }
}

impl Cond {
    /// The condition's assembler name; empty for the unconditional forms.
    pub fn name(self) -> (r: &'static str)
        ensures
            r@ == cond_text(self),
    {
        match self {
            Cond::Zero => "z",
            Cond::NotZero => "nz",
            Cond::Carry => "c",
            Cond::NotCarry => "nc",
            Cond::ParityEven => "pe",
            Cond::ParityOdd => "po",
            Cond::Positive => "p",
            Cond::Negative => "m",
            _ => "",
        }
    }
}

/// The assembler name of a reg8.
pub open spec fn reg8_text(r: Reg8) -> Seq<char> {
    match r {
        Reg8::A => "a"@,
        Reg8::B => "b"@,
        Reg8::C => "c"@,
        Reg8::D => "d"@,
        Reg8::E => "e"@,
        Reg8::F => "f"@,
        Reg8::H => "h"@,
        Reg8::L => "l"@,
        Reg8::R => "r"@,
        Reg8::I => "i"@,
        Reg8::IXH => "ixh"@,
        Reg8::IXL => "ixl"@,
        Reg8::IYH => "iyh"@,
        Reg8::IYL => "iyl"@,
        Reg8::AltA => "'a"@,
        Reg8::AltB => "'b"@,
        Reg8::AltC => "'c"@,
        Reg8::AltD => "'d"@,
        Reg8::AltE => "'e"@,
        Reg8::AltF => "'f"@,
        Reg8::AltH => "'h"@,
        Reg8::AltL => "'l"@,
    }
}

/// The assembler name of a reg16.
pub open spec fn reg16_text(r: Reg16) -> Seq<char> {
    match r {
        Reg16::AF => "af"@,
        Reg16::BC => "bc"@,
        Reg16::DE => "de"@,
        Reg16::HL => "hl"@,
        Reg16::SP => "sp"@,
        Reg16::PC => "pc"@,
        Reg16::IX => "ix"@,
        Reg16::IY => "iy"@,
        Reg16::AltAF => "af'"@,
        Reg16::AltBC => "bc'"@,
        Reg16::AltDE => "de'"@,
        Reg16::AltHL => "hl'"@,
    }
}

/// The assembler name of a condition.
pub open spec fn cond_text(c: Cond) -> Seq<char> {
    match c {
        Cond::Zero => "z"@,
        Cond::NotZero => "nz"@,
        Cond::Carry => "c"@,
        Cond::NotCarry => "nc"@,
        Cond::ParityEven => "pe"@,
        Cond::ParityOdd => "po"@,
        Cond::Positive => "p"@,
        Cond::Negative => "m"@,
        _ => ""@,
    }
}

/// `s` followed by the text of an address, without parentheses.
pub open spec fn address_out(s: Seq<char>, a: Address) -> Seq<char> {
    match a {
        Address::Direct(Data16(x)) => hex_out(s + "$"@, x, 4),
        Address::ZeroPage(Data8(x)) => hex_out(s + "$"@, x as u16, 2),
        Address::BC => s + "bc"@,
        Address::DE => s + "de"@,
        Address::HL => s + "hl"@,
        Address::RelOffset(r, Data8(d)) => signed_out(
            if d < 128 {
                s + reg16_text(r) + "+"@
            } else {
                s + reg16_text(r)
            },
            d,
        ),
    }
}

/// `s` followed by the text of an 8-bit operand.
pub open spec fn arg8_out(s: Seq<char>, a: Arg8) -> Seq<char> {
    match a {
        Arg8::Register(r) => s + reg8_text(r),
        Arg8::Immediate(Data8(v)) => hex_out(s + "$"@, v as u16, 2),
        Arg8::Memory(x) => address_out(s + "("@, x) + ")"@,
    }
}

/// `s` followed by the text of a 16-bit operand.
pub open spec fn arg16_out(s: Seq<char>, a: Arg16) -> Seq<char> {
    match a {
        Arg16::Register(r) => s + reg16_text(r),
        Arg16::Immediate(Data16(v)) => hex_out(s + "$"@, v, 4),
        Arg16::Memory(x) => address_out(s + "("@, x) + ")"@,
    }
}

/// `s` followed by a mnemonic and one 8-bit operand.
pub open spec fn unary8_out(s: Seq<char>, m: Seq<char>, a: Arg8) -> Seq<char> {
    arg8_out(s + m + " "@, a)
}

/// `s` followed by a mnemonic and two 8-bit operands.
pub open spec fn binary8_out(s: Seq<char>, m: Seq<char>, a: Arg8, b: Arg8) -> Seq<char> {
    arg8_out(unary8_out(s, m, a) + ","@, b)
}

/// `s` followed by a mnemonic and two 16-bit operands.
pub open spec fn binary16_out(s: Seq<char>, m: Seq<char>, a: Arg16, b: Arg16) -> Seq<char> {
    arg16_out(arg16_out(s + m + " "@, a) + ","@, b)
}

/// `s` followed by a mnemonic, a bit number and an operand.
pub open spec fn bit_op_out(s: Seq<char>, m: Seq<char>, b: u8, a: Arg8) -> Seq<char> {
    arg8_out(s + m + " "@ + hex_digit_text((b % 8) as u16) + ","@, a)
}

/// `s` followed by a mnemonic and an address.
pub open spec fn address_op_out(s: Seq<char>, m: Seq<char>, a: Address) -> Seq<char> {
    address_out(s + m + " "@, a)
}

/// `s` followed by the assembler text of `i`.
pub open spec fn instruction_out(s: Seq<char>, i: Instruction) -> Seq<char> {
    match i {
        Instruction::ADD8(d, v) => binary8_out(s, "add"@, d, v),
        Instruction::ADC8(d, v) => binary8_out(s, "adc"@, d, v),
        Instruction::ADD16(d, v) => binary16_out(s, "add"@, d, v),
        Instruction::ADC16(d, v) => binary16_out(s, "adc"@, d, v),
        Instruction::AND(v) => unary8_out(s, "and"@, v),
        Instruction::BIT(b, v) => bit_op_out(s, "bit"@, b, v),
        Instruction::CP(v) => unary8_out(s, "cp"@, v),
        Instruction::CALL(a) => address_op_out(s, "call"@, a),
        Instruction::CALL_COND(c, a) => address_out(s + "call "@ + cond_text(c) + ","@, a),
        Instruction::DEC8(v) => unary8_out(s, "dec"@, v),
        Instruction::DEC16(v) => arg16_out(s + "dec "@, v),
        Instruction::DJNZ(v) => unary8_out(s, "djnz"@, v),
        Instruction::EX(a, b) => binary16_out(s, "ex"@, a, b),
        Instruction::IN(d, p) => binary8_out(s, "in"@, d, p),
        Instruction::INC8(v) => unary8_out(s, "inc"@, v),
        Instruction::INC8_MEMORY(a) => address_op_out(s, "inc"@, a),
        Instruction::INC16(v) => arg16_out(s + "inc "@, v),
        Instruction::JP(a) => address_op_out(s, "jp"@, a),
        Instruction::JP_COND(c, a) => address_out(s + "jp "@ + cond_text(c) + ","@, a),
        Instruction::JR(a) => address_op_out(s, "jr"@, a),
        Instruction::JR_COND(c, e) => signed_out(s + "jr "@ + cond_text(c) + ","@, e),
        Instruction::LD8(d, v) => binary8_out(s, "ld"@, d, v),
        Instruction::LD16(d, v) => binary16_out(s, "ld"@, d, v),
        Instruction::OR(v) => unary8_out(s, "or"@, v),
        Instruction::OUT(p, v) => arg8_out(arg8_out(s + "out ("@, p) + "),"@, v),
        Instruction::POP(v) => arg16_out(s + "pop "@, v),
        Instruction::PUSH(v) => arg16_out(s + "push "@, v),
        Instruction::RES(b, v) => bit_op_out(s, "res"@, b, v),
        Instruction::RET_COND(c) => s + "ret "@ + cond_text(c),
        Instruction::RL(v) => unary8_out(s, "rl"@, v),
        Instruction::RLC(v) => unary8_out(s, "rlc"@, v),
        Instruction::RR(v) => unary8_out(s, "rr"@, v),
        Instruction::RRC(v) => unary8_out(s, "rrc"@, v),
        Instruction::RST(n) => hex_out(s + "rst "@, n as u16, 2),
        Instruction::SBC8(v) => arg8_out(s + "sbc a,"@, v),
        Instruction::SBC16(d, v) => binary16_out(s, "sbc"@, d, v),
        Instruction::SET(b, v) => bit_op_out(s, "set"@, b, v),
        Instruction::SLA(v) => unary8_out(s, "sla"@, v),
        Instruction::SLL(v) => unary8_out(s, "sll"@, v),
        Instruction::SRA(v) => unary8_out(s, "sra"@, v),
        Instruction::SRL(v) => unary8_out(s, "srl"@, v),
        Instruction::SUB8(v) => unary8_out(s, "sub"@, v),
        Instruction::XOR(v) => unary8_out(s, "xor"@, v),
        Instruction::CCF => s + "ccf"@,
        Instruction::CPD => s + "cpd"@,
        Instruction::CPL => s + "cpl"@,
        Instruction::CPDR => s + "cpdr"@,
        Instruction::CPI => s + "cpi"@,
        Instruction::CPIR => s + "cpir"@,
        Instruction::DAA => s + "daa"@,
        Instruction::DI => s + "di"@,
        Instruction::EI => s + "ei"@,
        Instruction::EXX => s + "exx"@,
        Instruction::HALT => s + "halt"@,
        Instruction::IM => s + "im"@,
        Instruction::IND => s + "ind"@,
        Instruction::INDR => s + "indr"@,
        Instruction::INI => s + "ini"@,
        Instruction::INIR => s + "inir"@,
        Instruction::LDD => s + "ldd"@,
        Instruction::LDDR => s + "lddr"@,
        Instruction::LDI => s + "ldi"@,
        Instruction::LDIR => s + "ldir"@,
        Instruction::NEG => s + "neg"@,
        Instruction::NOP => s + "nop"@,
        Instruction::OTDR => s + "otdr"@,
        Instruction::OTIR => s + "otir"@,
        Instruction::OUTD => s + "outd"@,
        Instruction::OUTI => s + "outi"@,
        Instruction::RET => s + "ret"@,
        Instruction::RETI => s + "reti"@,
        Instruction::RETN => s + "retn"@,
        Instruction::RLA => s + "rla"@,
        Instruction::RLCA => s + "rlca"@,
        Instruction::RLD => s + "rld"@,
        Instruction::RRA => s + "rra"@,
        Instruction::RRCA => s + "rrca"@,
        Instruction::RRD => s + "rrd"@,
        Instruction::SCF => s + "scf"@,
    }
}

/// The lower-case assembler text of an instruction.
pub open spec fn text(i: Instruction) -> Seq<char> {
    instruction_out(Seq::empty(), i)
}

impl Address {
    /// Appends the address as assembler text, without parentheses.
    pub fn write_to(&self, s: &mut String)
        ensures
            final(s)@ == address_out(old(s)@, *self),
    {
        match *self {
            Address::Direct(Data16(a)) => {
                s.append("$");
                push_hex(s, a, 4);
            },
            Address::ZeroPage(Data8(a)) => {
                s.append("$");
                push_hex(s, a as u16, 2);
            },
            Address::BC => s.append("bc"),
            Address::DE => s.append("de"),
            Address::HL => s.append("hl"),
            Address::RelOffset(r, Data8(d)) => {
                s.append(r.name());
                if d < 128 {
                    s.append("+");
                }
                push_signed(s, d);
            },
        }
    }
}

impl Arg8 {
    /// Appends the operand as assembler text.
    pub fn write_to(&self, s: &mut String)
        ensures
            final(s)@ == arg8_out(old(s)@, *self),
    {
        match *self {
            Arg8::Register(r) => s.append(r.name()),
            Arg8::Immediate(Data8(v)) => {
                s.append("$");
                push_hex(s, v as u16, 2);
            },
            Arg8::Memory(a) => {
                s.append("(");
                a.write_to(s);
                s.append(")");
            },
        }
    }
}

impl Arg16 {
    /// Appends the operand as assembler text.
    pub fn write_to(&self, s: &mut String)
        ensures
            final(s)@ == arg16_out(old(s)@, *self),
    {
        match *self {
            Arg16::Register(r) => s.append(r.name()),
            Arg16::Immediate(Data16(v)) => {
                s.append("$");
                push_hex(s, v, 4);
            },
            Arg16::Memory(a) => {
                s.append("(");
                a.write_to(s);
                s.append(")");
            },
        }
    }
}

/// Appends a mnemonic and one 8-bit operand.
fn unary8(s: &mut String, m: &str, a: &Arg8)
    ensures
        final(s)@ == unary8_out(old(s)@, m@, *a),
{
    s.append(m);
    s.append(" ");
    a.write_to(s);
}

/// Appends a mnemonic and two 8-bit operands.
fn binary8(s: &mut String, m: &str, a: &Arg8, b: &Arg8)
    ensures
        final(s)@ == binary8_out(old(s)@, m@, *a, *b),
{
    unary8(s, m, a);
    s.append(",");
    b.write_to(s);
}

/// Appends a mnemonic and two 16-bit operands.
fn binary16(s: &mut String, m: &str, a: &Arg16, b: &Arg16)
    ensures
        final(s)@ == binary16_out(old(s)@, m@, *a, *b),
{
    s.append(m);
    s.append(" ");
    a.write_to(s);
    s.append(",");
    b.write_to(s);
}

/// Appends a mnemonic, a bit number and an operand.
fn bit_op(s: &mut String, m: &str, b: u8, a: &Arg8)
    ensures
        final(s)@ == bit_op_out(old(s)@, m@, b, *a),
{
    s.append(m);
    s.append(" ");
    s.append(hex_digit((b % 8) as u16));
    s.append(",");
    a.write_to(s);
}

/// Appends a mnemonic and an address.
fn address_op(s: &mut String, m: &str, a: &Address)
    ensures
        final(s)@ == address_op_out(old(s)@, m@, *a),
{
    s.append(m);
    s.append(" ");
    a.write_to(s);
}

impl Instruction {
    /// The instruction as lower-case assembler text.
    pub fn to_text(&self) -> (r: String)
        ensures
            r@ == text(*self),
    {
        let mut s = String::new();
        match self {
            Instruction::ADD8(d, v) => binary8(&mut s, "add", d, v),
            Instruction::ADC8(d, v) => binary8(&mut s, "adc", d, v),
            Instruction::ADD16(d, v) => binary16(&mut s, "add", d, v),
            Instruction::ADC16(d, v) => binary16(&mut s, "adc", d, v),
            Instruction::AND(v) => unary8(&mut s, "and", v),
            Instruction::BIT(b, v) => bit_op(&mut s, "bit", *b, v),
            Instruction::CP(v) => unary8(&mut s, "cp", v),
            Instruction::CALL(a) => address_op(&mut s, "call", a),
            Instruction::CALL_COND(c, a) => {
                s.append("call ");
                s.append(c.name());
                s.append(",");
                a.write_to(&mut s);
            },
            Instruction::DEC8(v) => unary8(&mut s, "dec", v),
            Instruction::DEC16(v) => {
                s.append("dec ");
                v.write_to(&mut s);
            },
            Instruction::DJNZ(v) => unary8(&mut s, "djnz", v),
            Instruction::EX(a, b) => binary16(&mut s, "ex", a, b),
            Instruction::IN(d, p) => binary8(&mut s, "in", d, p),
            Instruction::INC8(v) => unary8(&mut s, "inc", v),
            Instruction::INC8_MEMORY(a) => address_op(&mut s, "inc", a),
            Instruction::INC16(v) => {
                s.append("inc ");
                v.write_to(&mut s);
            },
            Instruction::JP(a) => address_op(&mut s, "jp", a),
            Instruction::JP_COND(c, a) => {
                s.append("jp ");
                s.append(c.name());
                s.append(",");
                a.write_to(&mut s);
            },
            Instruction::JR(a) => address_op(&mut s, "jr", a),
            Instruction::JR_COND(c, e) => {
                s.append("jr ");
                s.append(c.name());
                s.append(",");
                push_signed(&mut s, *e);
            },
            Instruction::LD8(d, v) => binary8(&mut s, "ld", d, v),
            Instruction::LD16(d, v) => binary16(&mut s, "ld", d, v),
            Instruction::OR(v) => unary8(&mut s, "or", v),
            Instruction::OUT(p, v) => {
                s.append("out (");
                p.write_to(&mut s);
                s.append("),");
                v.write_to(&mut s);
            },
            Instruction::POP(v) => {
                s.append("pop ");
                v.write_to(&mut s);
            },
            Instruction::PUSH(v) => {
                s.append("push ");
                v.write_to(&mut s);
            },
            Instruction::RES(b, v) => bit_op(&mut s, "res", *b, v),
            Instruction::RET_COND(c) => {
                s.append("ret ");
                s.append(c.name());
            },
            Instruction::RL(v) => unary8(&mut s, "rl", v),
            Instruction::RLC(v) => unary8(&mut s, "rlc", v),
            Instruction::RR(v) => unary8(&mut s, "rr", v),
            Instruction::RRC(v) => unary8(&mut s, "rrc", v),
            Instruction::RST(n) => {
                s.append("rst ");
                push_hex(&mut s, *n as u16, 2);
            },
            Instruction::SBC8(v) => {
                s.append("sbc a,");
                v.write_to(&mut s);
            },
            Instruction::SBC16(d, v) => binary16(&mut s, "sbc", d, v),
            Instruction::SET(b, v) => bit_op(&mut s, "set", *b, v),
            Instruction::SLA(v) => unary8(&mut s, "sla", v),
            Instruction::SLL(v) => unary8(&mut s, "sll", v),
            Instruction::SRA(v) => unary8(&mut s, "sra", v),
            Instruction::SRL(v) => unary8(&mut s, "srl", v),
            Instruction::SUB8(v) => unary8(&mut s, "sub", v),
            Instruction::XOR(v) => unary8(&mut s, "xor", v),
            Instruction::CCF => s.append("ccf"),
            Instruction::CPD => s.append("cpd"),
            Instruction::CPL => s.append("cpl"),
            Instruction::CPDR => s.append("cpdr"),
            Instruction::CPI => s.append("cpi"),
            Instruction::CPIR => s.append("cpir"),
            Instruction::DAA => s.append("daa"),
            Instruction::DI => s.append("di"),
            Instruction::EI => s.append("ei"),
            Instruction::EXX => s.append("exx"),
            Instruction::HALT => s.append("halt"),
            Instruction::IM => s.append("im"),
            Instruction::IND => s.append("ind"),
            Instruction::INDR => s.append("indr"),
            Instruction::INI => s.append("ini"),
            Instruction::INIR => s.append("inir"),
            Instruction::LDD => s.append("ldd"),
            Instruction::LDDR => s.append("lddr"),
            Instruction::LDI => s.append("ldi"),
            Instruction::LDIR => s.append("ldir"),
            Instruction::NEG => s.append("neg"),
            Instruction::NOP => s.append("nop"),
            Instruction::OTDR => s.append("otdr"),
            Instruction::OTIR => s.append("otir"),
            Instruction::OUTD => s.append("outd"),
            Instruction::OUTI => s.append("outi"),
            Instruction::RET => s.append("ret"),
            Instruction::RETI => s.append("reti"),
            Instruction::RETN => s.append("retn"),
            Instruction::RLA => s.append("rla"),
            Instruction::RLCA => s.append("rlca"),
            Instruction::RLD => s.append("rld"),
            Instruction::RRA => s.append("rra"),
            Instruction::RRCA => s.append("rrca"),
            Instruction::RRD => s.append("rrd"),
            Instruction::SCF => s.append("scf"),
        }
        s
    }
}

} // verus!
