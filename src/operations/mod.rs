pub mod eight_bit_arithmetic;
pub mod logic;
pub mod mem_ops;
pub mod rot_shf;

use crate::cpu::{
    fetch_len16, fetch_len8, fetch_time8, time16, Indirect, Operand16, Operand8,
};
use crate::disassembler::instruction::Cond;
use crate::operations::rot_shf::Shift;
use crate::registers::{Reg16, Reg8};
use vstd::prelude::*;

verus! {

/// The eight accumulator operations of the ALU, in the order of their opcodes.
#[derive(Clone, Copy, Debug, PartialEq, Eq, Structural)]
pub enum AluOp {
    Add,
    Adc,
    Sub,
    Sbc,
    And,
    Xor,
    Or,
    Cp,
}

/// The block transfer, compare and I/O instructions of the ED page.
#[derive(Clone, Copy, Debug, PartialEq, Eq, Structural)]
pub enum BlockOp {
    Ldi,
    Cpi,
    Ini,
    Outi,
    Ldd,
    Cpd,
    Ind,
    Outd,
    Ldir,
    Cpir,
    Inir,
    Otir,
    Lddr,
    Cpdr,
    Indr,
    Otdr,
}

/// One decoded opcode: the operation and the kinds of its operands.
///
/// Operand bytes (immediates, displacements) are not part of it: they are
/// fetched while the operation executes.
#[derive(Clone, Copy, Debug, PartialEq, Eq, Structural)]
pub enum Op {
    Nop,
    /// LD dest, source.
    Ld8(Operand8, Operand8),
    /// LD (IX+d), n or LD (IY+d), n.
    LdIndexedImm(Reg16),
    /// LD dest, source on words.
    Ld16(Operand16, Operand16),
    /// LD SP, HL (or IX, IY).
    LdSp(Reg16),
    /// LD A, I or LD A, R.
    LdAFrom(Reg8),
    /// LD I, A or LD R, A.
    LdFromA(Reg8),
    Inc8(Operand8),
    Dec8(Operand8),
    Inc16(Reg16),
    Dec16(Reg16),
    Alu(AluOp, Operand8),
    /// ADD HL, rr (or IX, IY).
    Add16(Reg16, Reg16),
    /// ADC HL, rr.
    Adc16(Reg16),
    /// SBC HL, rr.
    Sbc16(Reg16),
    Rlca,
    Rrca,
    Rla,
    Rra,
    Daa,
    Cpl,
    Scf,
    Ccf,
    Rot(Shift, Operand8),
    BitTest(u8, Operand8),
    BitReset(u8, Operand8),
    BitSet(u8, Operand8),
    /// JP cc, nn.
    Jp(Cond),
    /// JP (HL) (or IX, IY).
    JpReg(Reg16),
    /// JR cc, e.
    Jr(Cond),
    Djnz,
    /// CALL cc, nn.
    Call(Cond),
    Ret,
    RetCond(Cond),
    Reti,
    Retn,
    Rst(u8),
    Push(Reg16),
    Pop(Reg16),
    ExAf,
    Exx,
    ExDeHl,
    /// EX (SP), HL (or IX, IY).
    ExSp(Reg16),
    Di,
    Ei,
    Halt,
    Im(u8),
    /// IN A, (n).
    InImm,
    /// OUT (n), A.
    OutImm,
    /// IN r, (C); with F as target only the flags are set.
    In(Reg8),
    /// OUT (C), r.
    Out(Operand8),
    Neg,
    Rrd,
    Rld,
    Block(BlockOp),
    PrefixCB,
    PrefixDD,
    PrefixED,
    PrefixFD,
    /// The DD CB / FD CB page: displacement, then the final opcode.
    IndexCB(Reg16),
}

impl Op {
    /// Whether the operation is a prefix that selects another page.
    pub open spec fn is_prefix(self) -> bool {
        self is PrefixCB || self is PrefixDD || self is PrefixED || self is PrefixFD
            || self is IndexCB
    }

    /// Whether the operands are ones the decoders produce: interrupt modes 0 to 2,
    /// bit numbers below 8, a writable destination for LD on words, and a
    /// register or constant for OUT (C).
    pub open spec fn well_formed(self) -> bool {
        &&& (self matches Op::Im(m) ==> m <= 2)
        &&& (self matches Op::BitTest(b, _) ==> b < 8)
        &&& (self matches Op::BitReset(b, _) ==> b < 8)
        &&& (self matches Op::BitSet(b, _) ==> b < 8)
        &&& (self matches Op::Ld16(d, _) ==> d != Operand16::Imm && d != Operand16::Reg(Reg16::PC))
        &&& (self matches Op::Pop(r) ==> r != Reg16::PC)
        &&& (self matches Op::ExSp(r) ==> r != Reg16::PC)
        &&& (self matches Op::Inc16(r) ==> r != Reg16::PC)
        &&& (self matches Op::Dec16(r) ==> r != Reg16::PC)
        &&& (self matches Op::Add16(r, _) ==> r != Reg16::PC)
        &&& (self matches Op::Out(o) ==> (o is Reg || o is Value))
    }

    /// Whether the operation writes to an output port.
    pub open spec fn writes_port(self) -> bool {
        ||| self is OutImm
        ||| self is Out
        ||| self == Op::Block(BlockOp::Outi)
        ||| self == Op::Block(BlockOp::Outd)
        ||| self == Op::Block(BlockOp::Otir)
        ||| self == Op::Block(BlockOp::Otdr)
    }

    /// Whether the operation is one of the ALU, rotate or bit operations.
    pub open spec fn is_alu(self) -> bool {
        ||| self is Alu
        ||| self is Add16
        ||| self is Adc16
        ||| self is Sbc16
        ||| self is Rot
        ||| self is BitTest
        ||| self is BitReset
        ||| self is BitSet
    }

    /// Whether the operation only loads, computes, rotates or tests bits.
    pub open spec fn is_data(self) -> bool {
        ||| self is Nop
        ||| self is Ld8
        ||| self is LdIndexedImm
        ||| self is Ld16
        ||| self is LdSp
        ||| self is LdAFrom
        ||| self is LdFromA
        ||| self is Inc8
        ||| self is Dec8
        ||| self is Inc16
        ||| self is Dec16
        ||| self is Alu
        ||| self is Add16
        ||| self is Adc16
        ||| self is Sbc16
        ||| self is Rlca
        ||| self is Rrca
        ||| self is Rla
        ||| self is Rra
        ||| self is Daa
        ||| self is Cpl
        ||| self is Scf
        ||| self is Ccf
        ||| self is Rot
        ||| self is BitTest
        ||| self is BitReset
        ||| self is BitSet
    }

    /// Whether the operation only loads, computes, rotates or tests bits.
    pub fn is_data_op(&self) -> (r: bool)
        ensures
            r == self.is_data(),
    {
        match self {
            Op::Nop | Op::Ld8(_, _) | Op::LdIndexedImm(_) | Op::Ld16(_, _) | Op::LdSp(_)
            | Op::LdAFrom(_) | Op::LdFromA(_) | Op::Inc8(_) | Op::Dec8(_) | Op::Inc16(_)
            | Op::Dec16(_) | Op::Alu(_, _) | Op::Add16(_, _) | Op::Adc16(_) | Op::Sbc16(_)
            | Op::Rlca | Op::Rrca | Op::Rla | Op::Rra | Op::Daa | Op::Cpl | Op::Scf | Op::Ccf
            | Op::Rot(_, _) | Op::BitTest(_, _) | Op::BitReset(_, _) | Op::BitSet(_, _) => true,
            _ => false,
        }
    }

    /// Whether the operation may set PC other than by moving past its bytes:
    /// jumps, calls, returns, restarts, HALT and the repeating block instructions.
    pub open spec fn branches(self) -> bool {
        ||| self is Jp
        ||| self is JpReg
        ||| self is Jr
        ||| self is Djnz
        ||| self is Call
        ||| self is Ret
        ||| self is RetCond
        ||| self is Reti
        ||| self is Retn
        ||| self is Rst
        ||| self is Halt
        ||| self matches Op::Block(b) && (b == BlockOp::Ldir || b == BlockOp::Lddr || b
            == BlockOp::Cpir || b == BlockOp::Cpdr || b == BlockOp::Inir || b == BlockOp::Indr
            || b == BlockOp::Otir || b == BlockOp::Otdr)
    }

    /// Operand bytes (immediates, displacements, addresses) that follow the opcode.
    pub open spec fn operand_len(self) -> int {
        match self {
            Op::Ld8(d, s) => fetch_len8(s) + fetch_len8(d),
            Op::LdIndexedImm(_) => 2,
            Op::Ld16(d, s) => fetch_len16(s) + fetch_len16(d),
            Op::Inc8(o) | Op::Dec8(o) | Op::Alu(_, o) | Op::Rot(_, o) => fetch_len8(o),
            Op::BitTest(_, o) | Op::BitReset(_, o) | Op::BitSet(_, o) => fetch_len8(o),
            Op::InImm | Op::OutImm => 1,
            Op::Jp(_) | Op::Call(_) => 2,
            Op::Jr(_) | Op::Djnz => 1,
            _ => 0,
        }
    }

    /// T-states of a non-branching operation after its opcode has been fetched.
    pub open spec fn time(self) -> int {
        match self {
            Op::Ld8(d, s) => fetch_time8(s) + operand_access(s) + fetch_time8(d) + operand_access(d),
            Op::LdIndexedImm(_) => 11,
            Op::Ld16(d, s) => time16(s) + time16(d),
            Op::LdSp(_) | Op::Inc16(_) | Op::Dec16(_) => 2,
            Op::LdAFrom(_) | Op::LdFromA(_) => 1,
            Op::Inc8(o) | Op::Dec8(o) | Op::Rot(_, o) | Op::BitReset(_, o) | Op::BitSet(_, o) =>
                fetch_time8(o) + operand_rmw(o),
            Op::Alu(_, o) => fetch_time8(o) + operand_access(o),
            Op::BitTest(_, o) => fetch_time8(o) + (if operand_access(o) == 3 {
                4int
            } else {
                0
            }),
            Op::Add16(_, _) | Op::Adc16(_) | Op::Sbc16(_) => 7,
            Op::ExSp(_) => 15,
            Op::Push(_) => 7,
            Op::Pop(_) => 6,
            Op::InImm | Op::OutImm => 7,
            Op::In(_) | Op::Out(_) => 4,
            Op::Rrd | Op::Rld => 10,
            Op::Block(_) => 8,
            _ => 0,
        }
    }
}

/// T-states of one access to an operand of this kind: a memory cycle or nothing.
pub open spec fn operand_access(o: Operand8) -> int {
    match o {
        Operand8::Reg(_) | Operand8::Imm | Operand8::Value(_) => 0,
        _ => 3,
    }
}

/// T-states of reading, modifying and writing back an operand of this kind.
pub open spec fn operand_rmw(o: Operand8) -> int {
    match o {
        Operand8::Reg(_) | Operand8::Imm | Operand8::Value(_) => 0,
        _ => 7,
    }
}

/// The table that `reg_operand` computes.
pub open spec fn reg_operand_of(z: u8, index: Option<Reg16>) -> Operand8 {
    match z {
        0 => Operand8::Reg(Reg8::B),
        1 => Operand8::Reg(Reg8::C),
        2 => Operand8::Reg(Reg8::D),
        3 => Operand8::Reg(Reg8::E),
        4 => match index {
            Some(Reg16::IX) => Operand8::Reg(Reg8::IXH),
            Some(_) => Operand8::Reg(Reg8::IYH),
            None => Operand8::Reg(Reg8::H),
        },
        5 => match index {
            Some(Reg16::IX) => Operand8::Reg(Reg8::IXL),
            Some(_) => Operand8::Reg(Reg8::IYL),
            None => Operand8::Reg(Reg8::L),
        },
        6 => match index {
            Some(r) => Operand8::Indexed(r),
            None => Operand8::Mem(Indirect::HL),
        },
        _ => Operand8::Reg(Reg8::A),
    }
}

/// The register operands of the base page, with H, L and (HL) replaced under an index prefix.
fn reg_operand(z: u8, index: Option<Reg16>) -> (o: Operand8)
    requires
        z < 8,
    ensures
        o == reg_operand_of(z, index),
        z != 6 ==> o is Reg,
{
    match z {
        0 => Operand8::Reg(Reg8::B),
        1 => Operand8::Reg(Reg8::C),
        2 => Operand8::Reg(Reg8::D),
        3 => Operand8::Reg(Reg8::E),
        4 => match index {
            Some(Reg16::IX) => Operand8::Reg(Reg8::IXH),
            Some(_) => Operand8::Reg(Reg8::IYH),
            None => Operand8::Reg(Reg8::H),
        },
        5 => match index {
            Some(Reg16::IX) => Operand8::Reg(Reg8::IXL),
            Some(_) => Operand8::Reg(Reg8::IYL),
            None => Operand8::Reg(Reg8::L),
        },
        6 => match index {
            Some(r) => Operand8::Indexed(r),
            None => Operand8::Mem(Indirect::HL),
        },
        _ => Operand8::Reg(Reg8::A),
    }
}

/// Whether `index` is no index register, IX or IY.
pub open spec fn index_valid(index: Option<Reg16>) -> bool {
    index matches Some(i) ==> (i == Reg16::IX || i == Reg16::IY)
}

/// The table that `hl_or` computes.
pub open spec fn hl_or_of(index: Option<Reg16>) -> Reg16 {
    match index {
        Some(r) => r,
        None => Reg16::HL,
    }
}

/// HL, or the index register that replaces it.
fn hl_or(index: Option<Reg16>) -> (r: Reg16)
    requires
        index_valid(index),
    ensures
        r == hl_or_of(index),
        r != Reg16::PC,
{
    match index {
        Some(r) => r,
        None => Reg16::HL,
    }
}

/// The table that `pair` computes.
pub open spec fn pair_of(p: u8, index: Option<Reg16>) -> Reg16 {
    match p {
        0 => Reg16::BC,
        1 => Reg16::DE,
        2 => hl_or_of(index),
        _ => Reg16::SP,
    }
}

/// The register pairs BC, DE, HL, SP.
fn pair(p: u8, index: Option<Reg16>) -> (r: Reg16)
    requires
        p < 4,
        index_valid(index),
    ensures
        r == pair_of(p, index),
        r != Reg16::PC,
{
    match p {
        0 => Reg16::BC,
        1 => Reg16::DE,
        2 => hl_or(index),
        _ => Reg16::SP,
    }
}

/// The table that `stack_pair` computes.
pub open spec fn stack_pair_of(p: u8, index: Option<Reg16>) -> Reg16 {
    match p {
        0 => Reg16::BC,
        1 => Reg16::DE,
        2 => hl_or_of(index),
        _ => Reg16::AF,
    }
}

/// The register pairs BC, DE, HL, AF of PUSH and POP.
fn stack_pair(p: u8, index: Option<Reg16>) -> (r: Reg16)
    requires
        p < 4,
        index_valid(index),
    ensures
        r == stack_pair_of(p, index),
        r != Reg16::PC,
{
    match p {
        0 => Reg16::BC,
        1 => Reg16::DE,
        2 => hl_or(index),
        _ => Reg16::AF,
    }
}

/// The table that `condition` computes.
pub open spec fn condition_of(y: u8) -> Cond {
    match y {
        0 => Cond::NotZero,
        1 => Cond::Zero,
        2 => Cond::NotCarry,
        3 => Cond::Carry,
        4 => Cond::ParityOdd,
        5 => Cond::ParityEven,
        6 => Cond::Positive,
        _ => Cond::Negative,
    }
}

/// The conditions NZ, Z, NC, C, PO, PE, P, M.
pub fn condition(y: u8) -> (c: Cond)
    requires
        y < 8,
    ensures
        c == condition_of(y),
{
    match y {
        0 => Cond::NotZero,
        1 => Cond::Zero,
        2 => Cond::NotCarry,
        3 => Cond::Carry,
        4 => Cond::ParityOdd,
        5 => Cond::ParityEven,
        6 => Cond::Positive,
        _ => Cond::Negative,
    }
}

/// The table that `alu_op` computes.
pub open spec fn alu_op_of(y: u8) -> AluOp {
    match y {
        0 => AluOp::Add,
        1 => AluOp::Adc,
        2 => AluOp::Sub,
        3 => AluOp::Sbc,
        4 => AluOp::And,
        5 => AluOp::Xor,
        6 => AluOp::Or,
        _ => AluOp::Cp,
    }
}

fn alu_op(y: u8) -> (r: AluOp)
    requires
        y < 8,
    ensures
        r == alu_op_of(y),
{
    match y {
        0 => AluOp::Add,
        1 => AluOp::Adc,
        2 => AluOp::Sub,
        3 => AluOp::Sbc,
        4 => AluOp::And,
        5 => AluOp::Xor,
        6 => AluOp::Or,
        _ => AluOp::Cp,
    }
}

/// The table that `shift_op` computes.
pub open spec fn shift_op_of(y: u8) -> Shift {
    match y {
        0 => Shift::Rlc,
        1 => Shift::Rrc,
        2 => Shift::Rl,
        3 => Shift::Rr,
        4 => Shift::Sla,
        5 => Shift::Sra,
        6 => Shift::Sll,
        _ => Shift::Srl,
    }
}

fn shift_op(y: u8) -> (r: Shift)
    requires
        y < 8,
    ensures
        r == shift_op_of(y),
{
    match y {
        0 => Shift::Rlc,
        1 => Shift::Rrc,
        2 => Shift::Rl,
        3 => Shift::Rr,
        4 => Shift::Sla,
        5 => Shift::Sra,
        6 => Shift::Sll,
        _ => Shift::Srl,
    }
}

/// The opcode table that `decode_fd_dd` decodes by.
pub open spec fn base_table(index: Option<Reg16>, op: u8) -> Op {
    let x = op >> 6u8;
    let y = (op >> 3u8) & 7;
    let z = op & 7;
    let p = y >> 1u8;
    let q = y & 1;
    let hl = hl_or_of(index);
    if x == 0 {
        match z {
            0 => match y {
                0 => Op::Nop,
                1 => Op::ExAf,
                2 => Op::Djnz,
                3 => Op::Jr(Cond::True),
                _ => Op::Jr(condition_of((y - 4) as u8)),
            },
            1 => if q == 0 {
                Op::Ld16(Operand16::Reg(pair_of(p, index)), Operand16::Imm)
            } else {
                Op::Add16(hl, pair_of(p, index))
            },
            2 => match (q, p) {
                (0, 0) => Op::Ld8(Operand8::Mem(Indirect::BC), Operand8::Reg(Reg8::A)),
                (0, 1) => Op::Ld8(Operand8::Mem(Indirect::DE), Operand8::Reg(Reg8::A)),
                (0, 2) => Op::Ld16(Operand16::MemImm, Operand16::Reg(hl)),
                (0, _) => Op::Ld8(Operand8::Mem(Indirect::ImmWord), Operand8::Reg(Reg8::A)),
                (_, 0) => Op::Ld8(Operand8::Reg(Reg8::A), Operand8::Mem(Indirect::BC)),
                (_, 1) => Op::Ld8(Operand8::Reg(Reg8::A), Operand8::Mem(Indirect::DE)),
                (_, 2) => Op::Ld16(Operand16::Reg(hl), Operand16::MemImm),
                (_, _) => Op::Ld8(Operand8::Reg(Reg8::A), Operand8::Mem(Indirect::ImmWord)),
            },
            3 => if q == 0 {
                Op::Inc16(pair_of(p, index))
            } else {
                Op::Dec16(pair_of(p, index))
            },
            4 => Op::Inc8(reg_operand_of(y, index)),
            5 => Op::Dec8(reg_operand_of(y, index)),
            6 => match (y, index) {
                (6, Some(i)) => Op::LdIndexedImm(i),
                _ => Op::Ld8(reg_operand_of(y, index), Operand8::Imm),
            },
            _ => match y {
                0 => Op::Rlca,
                1 => Op::Rrca,
                2 => Op::Rla,
                3 => Op::Rra,
                4 => Op::Daa,
                5 => Op::Cpl,
                6 => Op::Scf,
                _ => Op::Ccf,
            },
        }
    } else if x == 1 {
        if y == 6 && z == 6 {
            Op::Halt
        } else if y == 6 {
            Op::Ld8(reg_operand_of(6, index), reg_operand_of(z, None))
        } else if z == 6 {
            Op::Ld8(reg_operand_of(y, None), reg_operand_of(6, index))
        } else {
            Op::Ld8(reg_operand_of(y, index), reg_operand_of(z, index))
        }
    } else if x == 2 {
        Op::Alu(alu_op_of(y), reg_operand_of(z, index))
    } else {
        match z {
            0 => Op::RetCond(condition_of(y)),
            1 => if q == 0 {
                Op::Pop(stack_pair_of(p, index))
            } else {
                match p {
                    0 => Op::Ret,
                    1 => Op::Exx,
                    2 => Op::JpReg(hl),
                    _ => Op::LdSp(hl),
                }
            },
            2 => Op::Jp(condition_of(y)),
            3 => match y {
                0 => Op::Jp(Cond::True),
                1 => match index {
                    Some(i) => Op::IndexCB(i),
                    None => Op::PrefixCB,
                },
                2 => Op::OutImm,
                3 => Op::InImm,
                4 => Op::ExSp(hl),
                5 => Op::ExDeHl,
                6 => Op::Di,
                _ => Op::Ei,
            },
            4 => Op::Call(condition_of(y)),
            5 => if q == 0 {
                Op::Push(stack_pair_of(p, index))
            } else {
                match p {
                    0 => Op::Call(Cond::True),
                    1 => Op::PrefixDD,
                    2 => Op::PrefixED,
                    _ => Op::PrefixFD,
                }
            },
            6 => Op::Alu(alu_op_of(y), Operand8::Imm),
            _ => Op::Rst((y * 8) as u8),
        }
    }
}

/// Decodes a base-page opcode; under an index prefix HL, H and L give way to IX or IY.
pub fn decode_fd_dd(index: Option<Reg16>, op: u8) -> (r: Op)
    requires
        index_valid(index),
    ensures
        r == base_table(index, op),
        op == 0xcb ==> r == (match index {
            Some(i) => Op::IndexCB(i),
            None => Op::PrefixCB,
        }),
        op == 0xdd ==> r == Op::PrefixDD,
        op == 0xed ==> r == Op::PrefixED,
        op == 0xfd ==> r == Op::PrefixFD,
        op == 0x76 ==> r == Op::Halt,
        op == 0x00 ==> r == Op::Nop,
        r.well_formed(),
        r is PrefixDD || r is PrefixFD ==> op == 0xdd || op == 0xfd,
        index is None ==> !(r is IndexCB),
{
    let x = op >> 6u8;
    let y = (op >> 3u8) & 7;
    let z = op & 7;
    let p = y >> 1u8;
    let q = y & 1;
    assert(x < 4 && y < 8 && z < 8 && p < 4 && q < 2) by (bit_vector)
        requires
            x == op >> 6u8,
            y == (op >> 3u8) & 7,
            z == op & 7,
            p == y >> 1u8,
            q == y & 1,
    ;
    assert(op == 0xcb ==> (x == 3 && y == 1 && z == 3)) by (bit_vector)
        requires
            x == op >> 6u8,
            y == (op >> 3u8) & 7,
            z == op & 7,
    ;
    assert(op == 0xdd <==> (x == 3 && z == 5 && q == 1 && p == 1)) by (bit_vector)
        requires
            x == op >> 6u8,
            y == (op >> 3u8) & 7,
            z == op & 7,
            p == y >> 1u8,
            q == y & 1,
    ;
    assert(op == 0xed ==> (x == 3 && z == 5 && q == 1 && p == 2)) by (bit_vector)
        requires
            x == op >> 6u8,
            y == (op >> 3u8) & 7,
            z == op & 7,
            p == y >> 1u8,
            q == y & 1,
    ;
    assert(op == 0xfd <==> (x == 3 && z == 5 && q == 1 && p == 3)) by (bit_vector)
        requires
            x == op >> 6u8,
            y == (op >> 3u8) & 7,
            z == op & 7,
            p == y >> 1u8,
            q == y & 1,
    ;
    assert((op == 0x76 ==> (x == 1 && y == 6 && z == 6)) && (op == 0 ==> (x == 0 && y == 0 && z
        == 0))) by (bit_vector)
        requires
            x == op >> 6u8,
            y == (op >> 3u8) & 7,
            z == op & 7,
    ;
    let hl = hl_or(index);
    if x == 0 {
        match z {
            0 => match y {
                0 => Op::Nop,
                1 => Op::ExAf,
                2 => Op::Djnz,
                3 => Op::Jr(Cond::True),
                _ => Op::Jr(condition(y - 4)),
            },
            1 => if q == 0 {
                Op::Ld16(Operand16::Reg(pair(p, index)), Operand16::Imm)
            } else {
                Op::Add16(hl, pair(p, index))
            },
            2 => match (q, p) {
                (0, 0) => Op::Ld8(Operand8::Mem(Indirect::BC), Operand8::Reg(Reg8::A)),
                (0, 1) => Op::Ld8(Operand8::Mem(Indirect::DE), Operand8::Reg(Reg8::A)),
                (0, 2) => Op::Ld16(Operand16::MemImm, Operand16::Reg(hl)),
                (0, _) => Op::Ld8(Operand8::Mem(Indirect::ImmWord), Operand8::Reg(Reg8::A)),
                (_, 0) => Op::Ld8(Operand8::Reg(Reg8::A), Operand8::Mem(Indirect::BC)),
                (_, 1) => Op::Ld8(Operand8::Reg(Reg8::A), Operand8::Mem(Indirect::DE)),
                (_, 2) => Op::Ld16(Operand16::Reg(hl), Operand16::MemImm),
                (_, _) => Op::Ld8(Operand8::Reg(Reg8::A), Operand8::Mem(Indirect::ImmWord)),
            },
            3 => if q == 0 {
                Op::Inc16(pair(p, index))
            } else {
                Op::Dec16(pair(p, index))
            },
            4 => Op::Inc8(reg_operand(y, index)),
            5 => Op::Dec8(reg_operand(y, index)),
            6 => match (y, index) {
                (6, Some(i)) => Op::LdIndexedImm(i),
                _ => Op::Ld8(reg_operand(y, index), Operand8::Imm),
            },
            _ => match y {
                0 => Op::Rlca,
                1 => Op::Rrca,
                2 => Op::Rla,
                3 => Op::Rra,
                4 => Op::Daa,
                5 => Op::Cpl,
                6 => Op::Scf,
                _ => Op::Ccf,
            },
        }
    } else if x == 1 {
        if y == 6 && z == 6 {
            Op::Halt
        } else if y == 6 {
            Op::Ld8(reg_operand(6, index), reg_operand(z, None))
        } else if z == 6 {
            Op::Ld8(reg_operand(y, None), reg_operand(6, index))
        } else {
            Op::Ld8(reg_operand(y, index), reg_operand(z, index))
        }
    } else if x == 2 {
        Op::Alu(alu_op(y), reg_operand(z, index))
    } else {
        match z {
            0 => Op::RetCond(condition(y)),
            1 => if q == 0 {
                Op::Pop(stack_pair(p, index))
            } else {
                match p {
                    0 => Op::Ret,
                    1 => Op::Exx,
                    2 => Op::JpReg(hl),
                    _ => Op::LdSp(hl),
                }
            },
            2 => Op::Jp(condition(y)),
            3 => match y {
                0 => Op::Jp(Cond::True),
                1 => match index {
                    Some(i) => Op::IndexCB(i),
                    None => Op::PrefixCB,
                },
                2 => Op::OutImm,
                3 => Op::InImm,
                4 => Op::ExSp(hl),
                5 => Op::ExDeHl,
                6 => Op::Di,
                _ => Op::Ei,
            },
            4 => Op::Call(condition(y)),
            5 => if q == 0 {
                Op::Push(stack_pair(p, index))
            } else {
                match p {
                    0 => Op::Call(Cond::True),
                    1 => Op::PrefixDD,
                    2 => Op::PrefixED,
                    _ => Op::PrefixFD,
                }
            },
            6 => Op::Alu(alu_op(y), Operand8::Imm),
            _ => Op::Rst(y * 8),
        }
    }
}

/// Decodes an opcode of the base page.
pub fn decode(op: u8) -> (r: Op)
    ensures
        r == base_table(None, op),
        op == 0xcb ==> r == Op::PrefixCB,
        op == 0xdd ==> r == Op::PrefixDD,
        op == 0xed ==> r == Op::PrefixED,
        op == 0xfd ==> r == Op::PrefixFD,
        op == 0x76 ==> r == Op::Halt,
        op == 0x00 ==> r == Op::Nop,
        r.well_formed(),
        r is PrefixDD || r is PrefixFD ==> op == 0xdd || op == 0xfd,
        !(r is IndexCB),
{
    decode_fd_dd(None, op)
}

/// Decodes the opcode that follows a DD prefix: HL becomes IX.
pub fn decode_dd(op: u8) -> (r: Op)
    ensures
        r == base_table(Some(Reg16::IX), op),
        op == 0xcb ==> r == Op::IndexCB(Reg16::IX),
        op == 0xdd ==> r == Op::PrefixDD,
        op == 0xed ==> r == Op::PrefixED,
        op == 0xfd ==> r == Op::PrefixFD,
        op == 0x76 ==> r == Op::Halt,
        op == 0x00 ==> r == Op::Nop,
        r.well_formed(),
        r is PrefixDD || r is PrefixFD ==> op == 0xdd || op == 0xfd,
{
    decode_fd_dd(Some(Reg16::IX), op)
}

/// Decodes the opcode that follows an FD prefix: HL becomes IY.
pub fn decode_fd(op: u8) -> (r: Op)
    ensures
        r == base_table(Some(Reg16::IY), op),
        op == 0xcb ==> r == Op::IndexCB(Reg16::IY),
        op == 0xdd ==> r == Op::PrefixDD,
        op == 0xed ==> r == Op::PrefixED,
        op == 0xfd ==> r == Op::PrefixFD,
        op == 0x76 ==> r == Op::Halt,
        op == 0x00 ==> r == Op::Nop,
        r.well_formed(),
        r is PrefixDD || r is PrefixFD ==> op == 0xdd || op == 0xfd,
{
    decode_fd_dd(Some(Reg16::IY), op)
}

/// The opcode table that `decode_cb` decodes by.
pub open spec fn cb_table(op: u8) -> Op {
    let x = op >> 6u8;
    let y = (op >> 3u8) & 7;
    let z = op & 7;
    let o = reg_operand_of(z, None);
    match x {
        0 => Op::Rot(shift_op_of(y), o),
        1 => Op::BitTest(y, o),
        2 => Op::BitReset(y, o),
        _ => Op::BitSet(y, o),
    }
}

/// Decodes the opcode that follows a CB prefix.
pub fn decode_cb(op: u8) -> (r: Op)
    ensures
        r == cb_table(op),
        !r.is_prefix(),
        r.well_formed(),
{
    let x = op >> 6u8;
    let y = (op >> 3u8) & 7;
    let z = op & 7;
    assert(x < 4 && y < 8 && z < 8) by (bit_vector)
        requires
            x == op >> 6u8,
            y == (op >> 3u8) & 7,
            z == op & 7,
    ;
    let o = reg_operand(z, None);
    match x {
        0 => Op::Rot(shift_op(y), o),
        1 => Op::BitTest(y, o),
        2 => Op::BitReset(y, o),
        _ => Op::BitSet(y, o),
    }
}

/// The opcode table that `decode_dd_fd_cb` decodes by.
pub open spec fn index_cb_table(address: u16, op: u8) -> Op {
    let x = op >> 6u8;
    let y = (op >> 3u8) & 7;
    let o = Operand8::At(address);
    match x {
        0 => Op::Rot(shift_op_of(y), o),
        1 => Op::BitTest(y, o),
        2 => Op::BitReset(y, o),
        _ => Op::BitSet(y, o),
    }
}

/// Decodes the final opcode of a DD CB or FD CB instruction, whose operand is
/// the byte at `address` (index register plus displacement).
pub fn decode_dd_fd_cb(address: u16, op: u8) -> (r: Op)
    ensures
        r == index_cb_table(address, op),
        !r.is_prefix(),
        !r.branches(),
        !r.writes_port(),
        r.operand_len() == 0,
        r.well_formed(),
{
    let x = op >> 6u8;
    let y = (op >> 3u8) & 7;
    assert(x < 4 && y < 8) by (bit_vector)
        requires
            x == op >> 6u8,
            y == (op >> 3u8) & 7,
    ;
    let o = Operand8::At(address);
    match x {
        0 => Op::Rot(shift_op(y), o),
        1 => Op::BitTest(y, o),
        2 => Op::BitReset(y, o),
        _ => Op::BitSet(y, o),
    }
}

/// The opcode table that `decode_ed` decodes by.
pub open spec fn ed_table(op: u8) -> Op {
    let x = op >> 6u8;
    let y = (op >> 3u8) & 7;
    let z = op & 7;
    let p = y >> 1u8;
    let q = y & 1;
    if x == 1 {
        match z {
            0 => if y == 6 {
                Op::In(Reg8::F)
            } else {
                match reg_operand_of(y, None) {
                    Operand8::Reg(r) => Op::In(r),
                    _ => Op::Nop,
                }
            },
            1 => if y == 6 {
                Op::Out(Operand8::Value(0))
            } else {
                Op::Out(reg_operand_of(y, None))
            },
            2 => if q == 0 {
                Op::Sbc16(pair_of(p, None))
            } else {
                Op::Adc16(pair_of(p, None))
            },
            3 => if q == 0 {
                Op::Ld16(Operand16::MemImm, Operand16::Reg(pair_of(p, None)))
            } else {
                Op::Ld16(Operand16::Reg(pair_of(p, None)), Operand16::MemImm)
            },
            4 => Op::Neg,
            5 => if y == 1 {
                Op::Reti
            } else {
                Op::Retn
            },
            6 => Op::Im(
                match y & 3 {
                    0 | 1 => 0,
                    2 => 1,
                    _ => 2,
                },
            ),
            _ => match y {
                0 => Op::LdFromA(Reg8::I),
                1 => Op::LdFromA(Reg8::R),
                2 => Op::LdAFrom(Reg8::I),
                3 => Op::LdAFrom(Reg8::R),
                4 => Op::Rrd,
                5 => Op::Rld,
                _ => Op::Nop,
            },
        }
    } else if x == 2 && z <= 3 && y >= 4 {
        Op::Block(
            match (y, z) {
                (4, 0) => BlockOp::Ldi,
                (4, 1) => BlockOp::Cpi,
                (4, 2) => BlockOp::Ini,
                (4, _) => BlockOp::Outi,
                (5, 0) => BlockOp::Ldd,
                (5, 1) => BlockOp::Cpd,
                (5, 2) => BlockOp::Ind,
                (5, _) => BlockOp::Outd,
                (6, 0) => BlockOp::Ldir,
                (6, 1) => BlockOp::Cpir,
                (6, 2) => BlockOp::Inir,
                (6, _) => BlockOp::Otir,
                (_, 0) => BlockOp::Lddr,
                (_, 1) => BlockOp::Cpdr,
                (_, 2) => BlockOp::Indr,
                (_, _) => BlockOp::Otdr,
            },
        )
    } else {
        Op::Nop
    }
}

/// Decodes the opcode that follows an ED prefix; undefined ones are NOPs.
pub fn decode_ed(op: u8) -> (r: Op)
    ensures
        r == ed_table(op),
        !r.is_prefix(),
        r.well_formed(),
{
    let x = op >> 6u8;
    let y = (op >> 3u8) & 7;
    let z = op & 7;
    let p = y >> 1u8;
    let q = y & 1;
    assert(x < 4 && y < 8 && z < 8 && p < 4 && q < 2) by (bit_vector)
        requires
            x == op >> 6u8,
            y == (op >> 3u8) & 7,
            z == op & 7,
            p == y >> 1u8,
            q == y & 1,
    ;
    if x == 1 {
        match z {
            0 => if y == 6 {
                Op::In(Reg8::F)
            } else {
                match reg_operand(y, None) {
                    Operand8::Reg(r) => Op::In(r),
                    _ => Op::Nop,
                }
            },
            1 => if y == 6 {
                Op::Out(Operand8::Value(0))
            } else {
                Op::Out(reg_operand(y, None))
            },
            2 => if q == 0 {
                Op::Sbc16(pair(p, None))
            } else {
                Op::Adc16(pair(p, None))
            },
            3 => if q == 0 {
                Op::Ld16(Operand16::MemImm, Operand16::Reg(pair(p, None)))
            } else {
                Op::Ld16(Operand16::Reg(pair(p, None)), Operand16::MemImm)
            },
            4 => Op::Neg,
            5 => if y == 1 {
                Op::Reti
            } else {
                Op::Retn
            },
            6 => Op::Im(
                match y & 3 {
                    0 | 1 => 0,
                    2 => 1,
                    _ => 2,
                },
            ),
            _ => match y {
                0 => Op::LdFromA(Reg8::I),
                1 => Op::LdFromA(Reg8::R),
                2 => Op::LdAFrom(Reg8::I),
                3 => Op::LdAFrom(Reg8::R),
                4 => Op::Rrd,
                5 => Op::Rld,
                _ => Op::Nop,
            },
        }
    } else if x == 2 && z <= 3 && y >= 4 {
        Op::Block(
            match (y, z) {
                (4, 0) => BlockOp::Ldi,
                (4, 1) => BlockOp::Cpi,
                (4, 2) => BlockOp::Ini,
                (4, _) => BlockOp::Outi,
                (5, 0) => BlockOp::Ldd,
                (5, 1) => BlockOp::Cpd,
                (5, 2) => BlockOp::Ind,
                (5, _) => BlockOp::Outd,
                (6, 0) => BlockOp::Ldir,
                (6, 1) => BlockOp::Cpir,
                (6, 2) => BlockOp::Inir,
                (6, _) => BlockOp::Otir,
                (_, 0) => BlockOp::Lddr,
                (_, 1) => BlockOp::Cpdr,
                (_, 2) => BlockOp::Indr,
                (_, _) => BlockOp::Otdr,
            },
        )
    } else {
        Op::Nop
    }
}

/// Whether an 8-bit operand is H, L or the byte at HL.
pub open spec fn operand_uses_hl(o: Operand8) -> bool {
    o == Operand8::Reg(Reg8::H) || o == Operand8::Reg(Reg8::L) || o == Operand8::Mem(Indirect::HL)
}

/// Whether a decoded base-page operation involves HL, H, L or (HL), or is the
/// CB prefix, whose page an index prefix redirects to (IX+d) or (IY+d).
pub open spec fn uses_hl(op: Op) -> bool {
    match op {
        Op::Ld8(d, s) => operand_uses_hl(d) || operand_uses_hl(s),
        Op::Inc8(o) | Op::Dec8(o) | Op::Alu(_, o) => operand_uses_hl(o),
        Op::Ld16(d, s) => d == Operand16::Reg(Reg16::HL) || s == Operand16::Reg(Reg16::HL),
        Op::Inc16(r) | Op::Dec16(r) | Op::Push(r) | Op::Pop(r) | Op::JpReg(r) | Op::LdSp(r)
        | Op::ExSp(r) => r == Reg16::HL,
        Op::Add16(d, s) => d == Reg16::HL || s == Reg16::HL,
        Op::PrefixCB => true,
        _ => false,
    }
}

/// A DD or FD prefix changes nothing for an opcode that does not involve HL,
/// H or L: the opcode decodes as it does on the base page.
pub proof fn lemma_index_prefix_transparent(index: Reg16, op: u8)
    requires
        index == Reg16::IX || index == Reg16::IY,
        !uses_hl(base_table(None, op)),
    ensures
        base_table(Some(index), op) == base_table(None, op),
{
    let x = op >> 6u8;
    let y = (op >> 3u8) & 7;
    let z = op & 7;
    let p = y >> 1u8;
    let q = y & 1;
    assert(x < 4 && y < 8 && z < 8 && p < 4 && q < 2) by (bit_vector)
        requires
            x == op >> 6u8,
            y == (op >> 3u8) & 7,
            z == op & 7,
            p == y >> 1u8,
            q == y & 1,
    ;
}

} // verus!
