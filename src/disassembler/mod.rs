pub mod instruction;

use crate::bus::{add16, word, Bus};
use crate::cpu::{lemma_add16_add, mem_word, offset16, Indirect, Operand16, Operand8};
use crate::disassembler::instruction::{
    Address, Arg16, Arg8, Cond, Data16, Data8, Instruction,
};
use crate::operations::rot_shf::Shift;
use crate::operations::{
    base_table, cb_table, ed_table, index_cb_table,
    decode, decode_cb, decode_dd, decode_dd_fd_cb, decode_ed, decode_fd, AluOp, BlockOp, Op,
};
use crate::registers::{make_u16, Reg16, Reg8};
use vstd::prelude::*;

verus! {

/// The byte `k` places after `pc`.
pub open spec fn byte_near(mem: Map<u16, u8>, pc: u16, k: int) -> u8 {
    mem[add16(pc, k)]
}

/// The little-endian word `k` places after `pc`.
pub open spec fn word_near(mem: Map<u16, u8>, pc: u16, k: int) -> u16 {
    word(byte_near(mem, pc, k), byte_near(mem, pc, k + 1))
}

/// How an 8-bit operand whose bytes start `k` places after `pc` is named.
pub open spec fn arg8_named(mem: Map<u16, u8>, pc: u16, o: Operand8, k: int) -> Arg8 {
    match o {
        Operand8::Reg(r) => Arg8::Register(r),
        Operand8::Imm => Arg8::Immediate(Data8(byte_near(mem, pc, k))),
        Operand8::Mem(Indirect::BC) => Arg8::Memory(Address::BC),
        Operand8::Mem(Indirect::DE) => Arg8::Memory(Address::DE),
        Operand8::Mem(Indirect::HL) => Arg8::Memory(Address::HL),
        Operand8::Mem(Indirect::ImmWord) => Arg8::Memory(
            Address::Direct(Data16(word_near(mem, pc, k))),
        ),
        Operand8::Indexed(r) => Arg8::Memory(Address::RelOffset(r, Data8(byte_near(mem, pc, k)))),
        Operand8::At(a) => Arg8::Memory(Address::Direct(Data16(a))),
        Operand8::Value(v) => Arg8::Immediate(Data8(v)),
    }
}

/// How a 16-bit operand whose bytes start `k` places after `pc` is named.
pub open spec fn arg16_named(mem: Map<u16, u8>, pc: u16, o: Operand16, k: int) -> Arg16 {
    match o {
        Operand16::Reg(r) => Arg16::Register(r),
        Operand16::Imm => Arg16::Immediate(Data16(word_near(mem, pc, k))),
        Operand16::MemImm => Arg16::Memory(Address::Direct(Data16(word_near(mem, pc, k)))),
    }
}

/// How a decoded operation whose operand bytes start `k` places after `pc` is named.
pub open spec fn op_named(mem: Map<u16, u8>, pc: u16, op: Op, k: int) -> Instruction {
    let a = Arg8::Register(Reg8::A);
    match op {
        Op::Nop => Instruction::NOP,
        Op::Ld8(d, s) => Instruction::LD8(arg8_named(mem, pc, d, k), arg8_named(mem, pc, s, k)),
        Op::LdIndexedImm(i) => Instruction::LD8(
            arg8_named(mem, pc, Operand8::Indexed(i), k),
            Arg8::Immediate(Data8(byte_near(mem, pc, k + 1))),
        ),
        Op::Ld16(d, s) => Instruction::LD16(arg16_named(mem, pc, d, k), arg16_named(mem, pc, s, k)),
        Op::LdSp(r) => Instruction::LD16(Arg16::Register(Reg16::SP), Arg16::Register(r)),
        Op::LdAFrom(r) => Instruction::LD8(a, Arg8::Register(r)),
        Op::LdFromA(r) => Instruction::LD8(Arg8::Register(r), a),
        Op::Inc8(o) => Instruction::INC8(arg8_named(mem, pc, o, k)),
        Op::Dec8(o) => Instruction::DEC8(arg8_named(mem, pc, o, k)),
        Op::Inc16(r) => Instruction::INC16(Arg16::Register(r)),
        Op::Dec16(r) => Instruction::DEC16(Arg16::Register(r)),
        Op::Alu(kind, o) => {
            let v = arg8_named(mem, pc, o, k);
            match kind {
                AluOp::Add => Instruction::ADD8(a, v),
                AluOp::Adc => Instruction::ADC8(a, v),
                AluOp::Sub => Instruction::SUB8(v),
                AluOp::Sbc => Instruction::SBC8(v),
                AluOp::And => Instruction::AND(v),
                AluOp::Xor => Instruction::XOR(v),
                AluOp::Or => Instruction::OR(v),
                AluOp::Cp => Instruction::CP(v),
            }
        },
        Op::Add16(d, s) => Instruction::ADD16(Arg16::Register(d), Arg16::Register(s)),
        Op::Adc16(s) => Instruction::ADC16(Arg16::Register(Reg16::HL), Arg16::Register(s)),
        Op::Sbc16(s) => Instruction::SBC16(Arg16::Register(Reg16::HL), Arg16::Register(s)),
        Op::Rlca => Instruction::RLCA,
        Op::Rrca => Instruction::RRCA,
        Op::Rla => Instruction::RLA,
        Op::Rra => Instruction::RRA,
        Op::Daa => Instruction::DAA,
        Op::Cpl => Instruction::CPL,
        Op::Scf => Instruction::SCF,
        Op::Ccf => Instruction::CCF,
        Op::Rot(kind, o) => {
            let v = arg8_named(mem, pc, o, k);
            match kind {
                Shift::Rlc => Instruction::RLC(v),
                Shift::Rrc => Instruction::RRC(v),
                Shift::Rl => Instruction::RL(v),
                Shift::Rr => Instruction::RR(v),
                Shift::Sla => Instruction::SLA(v),
                Shift::Sra => Instruction::SRA(v),
                Shift::Sll => Instruction::SLL(v),
                Shift::Srl => Instruction::SRL(v),
            }
        },
        Op::BitTest(b, o) => Instruction::BIT(b, arg8_named(mem, pc, o, k)),
        Op::BitReset(b, o) => Instruction::RES(b, arg8_named(mem, pc, o, k)),
        Op::BitSet(b, o) => Instruction::SET(b, arg8_named(mem, pc, o, k)),
        Op::Jp(Cond::True) => Instruction::JP(Address::Direct(Data16(word_near(mem, pc, k)))),
        Op::Jp(c) => Instruction::JP_COND(c, Address::Direct(Data16(word_near(mem, pc, k)))),
        Op::JpReg(Reg16::IX) => Instruction::JP(Address::RelOffset(Reg16::IX, Data8(0))),
        Op::JpReg(Reg16::IY) => Instruction::JP(Address::RelOffset(Reg16::IY, Data8(0))),
        Op::JpReg(_) => Instruction::JP(Address::HL),
        Op::Jr(c) => Instruction::JR_COND(c, byte_near(mem, pc, k)),
        Op::Djnz => Instruction::DJNZ(Arg8::Immediate(Data8(byte_near(mem, pc, k)))),
        Op::Call(Cond::True) => Instruction::CALL(Address::Direct(Data16(word_near(mem, pc, k)))),
        Op::Call(c) => Instruction::CALL_COND(c, Address::Direct(Data16(word_near(mem, pc, k)))),
        Op::Ret => Instruction::RET,
        Op::RetCond(c) => Instruction::RET_COND(c),
        Op::Reti => Instruction::RETI,
        Op::Retn => Instruction::RETN,
        Op::Rst(n) => Instruction::RST(n),
        Op::Push(r) => Instruction::PUSH(Arg16::Register(r)),
        Op::Pop(r) => Instruction::POP(Arg16::Register(r)),
        Op::ExAf => Instruction::EX(Arg16::Register(Reg16::AF), Arg16::Register(Reg16::AltAF)),
        Op::Exx => Instruction::EXX,
        Op::ExDeHl => Instruction::EX(Arg16::Register(Reg16::DE), Arg16::Register(Reg16::HL)),
        Op::ExSp(r) => Instruction::EX(Arg16::Memory(Address::Direct(Data16(0))), Arg16::Register(r)),
        Op::Di => Instruction::DI,
        Op::Ei => Instruction::EI,
        Op::Halt => Instruction::HALT,
        Op::Im(_) => Instruction::IM,
        Op::InImm => Instruction::IN(a, Arg8::Immediate(Data8(byte_near(mem, pc, k)))),
        Op::OutImm => Instruction::OUT(Arg8::Immediate(Data8(byte_near(mem, pc, k))), a),
        Op::In(r) => Instruction::IN(Arg8::Register(r), Arg8::Register(Reg8::C)),
        Op::Out(o) => Instruction::OUT(Arg8::Register(Reg8::C), arg8_named(mem, pc, o, k)),
        Op::Neg => Instruction::NEG,
        Op::Rrd => Instruction::RRD,
        Op::Rld => Instruction::RLD,
        Op::Block(b) => match b {
            BlockOp::Ldi => Instruction::LDI,
            BlockOp::Cpi => Instruction::CPI,
            BlockOp::Ini => Instruction::INI,
            BlockOp::Outi => Instruction::OUTI,
            BlockOp::Ldd => Instruction::LDD,
            BlockOp::Cpd => Instruction::CPD,
            BlockOp::Ind => Instruction::IND,
            BlockOp::Outd => Instruction::OUTD,
            BlockOp::Ldir => Instruction::LDIR,
            BlockOp::Cpir => Instruction::CPIR,
            BlockOp::Inir => Instruction::INIR,
            BlockOp::Otir => Instruction::OTIR,
            BlockOp::Lddr => Instruction::LDDR,
            BlockOp::Cpdr => Instruction::CPDR,
            BlockOp::Indr => Instruction::INDR,
            BlockOp::Otdr => Instruction::OTDR,
        },
        _ => Instruction::NOP,
    }
}

/// The instruction at `pc`, decoded through the opcode tables.
pub open spec fn named(mem: Map<u16, u8>, pc: u16) -> Instruction {
    let op = base_table(None, byte_near(mem, pc, 0));
    match op {
        Op::PrefixCB => op_named(mem, pc, cb_table(byte_near(mem, pc, 1)), 2),
        Op::PrefixED => op_named(mem, pc, ed_table(byte_near(mem, pc, 1)), 2),
        Op::PrefixDD | Op::PrefixFD => {
            let code = byte_near(mem, pc, 1);
            let o = if op == Op::PrefixDD {
                base_table(Some(Reg16::IX), code)
            } else {
                base_table(Some(Reg16::IY), code)
            };
            match o {
                Op::IndexCB(i) => {
                    let d = byte_near(mem, pc, 2);
                    let inner = index_cb_table(0, byte_near(mem, pc, 3));
                    match inner {
                        Op::Rot(_, _) | Op::BitTest(_, _) | Op::BitReset(_, _) | Op::BitSet(
                            _,
                            _,
                        ) => {
                            let arg = Arg8::Memory(Address::RelOffset(i, Data8(d)));
                            match inner {
                                Op::BitTest(b, _) => Instruction::BIT(b, arg),
                                Op::BitReset(b, _) => Instruction::RES(b, arg),
                                Op::BitSet(b, _) => Instruction::SET(b, arg),
                                Op::Rot(Shift::Rlc, _) => Instruction::RLC(arg),
                                Op::Rot(Shift::Rrc, _) => Instruction::RRC(arg),
                                Op::Rot(Shift::Rl, _) => Instruction::RL(arg),
                                Op::Rot(Shift::Rr, _) => Instruction::RR(arg),
                                Op::Rot(Shift::Sla, _) => Instruction::SLA(arg),
                                Op::Rot(Shift::Sra, _) => Instruction::SRA(arg),
                                Op::Rot(Shift::Sll, _) => Instruction::SLL(arg),
                                _ => Instruction::SRL(arg),
                            }
                        },
                        _ => Instruction::NOP,
                    }
                },
                Op::PrefixED => op_named(mem, pc, ed_table(byte_near(mem, pc, 2)), 3),
                Op::PrefixCB | Op::PrefixDD | Op::PrefixFD => Instruction::NOP,
                _ => op_named(mem, pc, o, 2),
            }
        },
        _ => op_named(mem, pc, op, 1),
    }
}

/// Reads instructions from a bus without executing them.
///
/// `pc` is the address of the opcode being shown; reading ahead has no
/// effect on the bus.
pub struct Disassembler<B: Bus> {
    pub bus: B,
    pub pc: u16,
}

impl<B: Bus> Disassembler<B> {
    /// The byte after the opcode at `pc`.
    pub fn next_byte(&self) -> (r: u8)
        ensures
            r == self.bus.memory()[add16(self.pc, 1)],
    {
        self.bus.memory_read(offset16(self.pc, 1))
    }

    /// The little-endian word after the opcode at `pc`.
    pub fn next_word(&self) -> (r: u16)
        ensures
            r == mem_word(self.bus.memory(), add16(self.pc, 1)),
    {
        let lo = self.bus.memory_read(offset16(self.pc, 1));
        proof {
            lemma_add16_add(self.pc, 1, 1);
        }
        let hi = self.bus.memory_read(offset16(self.pc, 2));
        make_u16(lo, hi)
    }

    /// The byte `k` places after `pc`.
    fn byte_at(&self, k: i32) -> (r: u8)
        requires
            0 <= k < 8,
        ensures
            r == byte_near(self.bus.memory(), self.pc, k as int),
    {
        self.bus.memory_read(offset16(self.pc, k))
    }

    /// The word `k` places after `pc`.
    fn word_at(&self, k: i32) -> (r: u16)
        requires
            0 <= k < 7,
        ensures
            r == word_near(self.bus.memory(), self.pc, k as int),
    {
        make_u16(self.byte_at(k), self.byte_at(k + 1))
    }

    /// Names an 8-bit operand whose bytes start `k` places after `pc`.
    fn arg8(&self, o: Operand8, k: i32) -> (r: Arg8)
        requires
            0 <= k < 6,
        ensures
            r == arg8_named(self.bus.memory(), self.pc, o, k as int),
    {
        match o {
            Operand8::Reg(r) => Arg8::Register(r),
            Operand8::Imm => Arg8::Immediate(Data8(self.byte_at(k))),
            Operand8::Mem(Indirect::BC) => Arg8::Memory(Address::BC),
            Operand8::Mem(Indirect::DE) => Arg8::Memory(Address::DE),
            Operand8::Mem(Indirect::HL) => Arg8::Memory(Address::HL),
            Operand8::Mem(Indirect::ImmWord) => Arg8::Memory(
                Address::Direct(Data16(self.word_at(k))),
            ),
            Operand8::Indexed(r) => Arg8::Memory(Address::RelOffset(r, Data8(self.byte_at(k)))),
            Operand8::At(a) => Arg8::Memory(Address::Direct(Data16(a))),
            Operand8::Value(v) => Arg8::Immediate(Data8(v)),
        }
    }

    /// Names a 16-bit operand whose bytes start `k` places after `pc`.
    fn arg16(&self, o: Operand16, k: i32) -> (r: Arg16)
        requires
            0 <= k < 6,
        ensures
            r == arg16_named(self.bus.memory(), self.pc, o, k as int),
    {
        match o {
            Operand16::Reg(r) => Arg16::Register(r),
            Operand16::Imm => Arg16::Immediate(Data16(self.word_at(k))),
            Operand16::MemImm => Arg16::Memory(Address::Direct(Data16(self.word_at(k)))),
        }
    }

    /// Names a decoded operation whose operand bytes start `k` places after `pc`.
    fn name_op(&self, op: Op, k: i32) -> (r: Instruction)
        requires
            0 <= k < 4,
        ensures
            r == op_named(self.bus.memory(), self.pc, op, k as int),
    {
        let a = Arg8::Register(Reg8::A);
        match op {
            Op::Nop => Instruction::NOP,
            Op::Ld8(d, s) => Instruction::LD8(self.arg8(d, k), self.arg8(s, k)),
            Op::LdIndexedImm(i) => Instruction::LD8(
                self.arg8(Operand8::Indexed(i), k),
                Arg8::Immediate(Data8(self.byte_at(k + 1))),
            ),
            Op::Ld16(d, s) => Instruction::LD16(self.arg16(d, k), self.arg16(s, k)),
            Op::LdSp(r) => Instruction::LD16(Arg16::Register(Reg16::SP), Arg16::Register(r)),
            Op::LdAFrom(r) => Instruction::LD8(a, Arg8::Register(r)),
            Op::LdFromA(r) => Instruction::LD8(Arg8::Register(r), a),
            Op::Inc8(o) => Instruction::INC8(self.arg8(o, k)),
            Op::Dec8(o) => Instruction::DEC8(self.arg8(o, k)),
            Op::Inc16(r) => Instruction::INC16(Arg16::Register(r)),
            Op::Dec16(r) => Instruction::DEC16(Arg16::Register(r)),
            Op::Alu(kind, o) => {
                let v = self.arg8(o, k);
                match kind {
                    AluOp::Add => Instruction::ADD8(a, v),
                    AluOp::Adc => Instruction::ADC8(a, v),
                    AluOp::Sub => Instruction::SUB8(v),
                    AluOp::Sbc => Instruction::SBC8(v),
                    AluOp::And => Instruction::AND(v),
                    AluOp::Xor => Instruction::XOR(v),
                    AluOp::Or => Instruction::OR(v),
                    AluOp::Cp => Instruction::CP(v),
                }
            },
            Op::Add16(d, s) => Instruction::ADD16(Arg16::Register(d), Arg16::Register(s)),
            Op::Adc16(s) => Instruction::ADC16(Arg16::Register(Reg16::HL), Arg16::Register(s)),
            Op::Sbc16(s) => Instruction::SBC16(Arg16::Register(Reg16::HL), Arg16::Register(s)),
            Op::Rlca => Instruction::RLCA,
            Op::Rrca => Instruction::RRCA,
            Op::Rla => Instruction::RLA,
            Op::Rra => Instruction::RRA,
            Op::Daa => Instruction::DAA,
            Op::Cpl => Instruction::CPL,
            Op::Scf => Instruction::SCF,
            Op::Ccf => Instruction::CCF,
            Op::Rot(kind, o) => {
                let v = self.arg8(o, k);
                match kind {
                    Shift::Rlc => Instruction::RLC(v),
                    Shift::Rrc => Instruction::RRC(v),
                    Shift::Rl => Instruction::RL(v),
                    Shift::Rr => Instruction::RR(v),
                    Shift::Sla => Instruction::SLA(v),
                    Shift::Sra => Instruction::SRA(v),
                    Shift::Sll => Instruction::SLL(v),
                    Shift::Srl => Instruction::SRL(v),
                }
            },
            Op::BitTest(b, o) => Instruction::BIT(b, self.arg8(o, k)),
            Op::BitReset(b, o) => Instruction::RES(b, self.arg8(o, k)),
            Op::BitSet(b, o) => Instruction::SET(b, self.arg8(o, k)),
            Op::Jp(Cond::True) => Instruction::JP(Address::Direct(Data16(self.word_at(k)))),
            Op::Jp(c) => Instruction::JP_COND(c, Address::Direct(Data16(self.word_at(k)))),
            Op::JpReg(Reg16::IX) => Instruction::JP(Address::RelOffset(Reg16::IX, Data8(0))),
            Op::JpReg(Reg16::IY) => Instruction::JP(Address::RelOffset(Reg16::IY, Data8(0))),
            Op::JpReg(_) => Instruction::JP(Address::HL),
            Op::Jr(c) => Instruction::JR_COND(c, self.byte_at(k)),
            Op::Djnz => Instruction::DJNZ(Arg8::Immediate(Data8(self.byte_at(k)))),
            Op::Call(Cond::True) => Instruction::CALL(Address::Direct(Data16(self.word_at(k)))),
            Op::Call(c) => Instruction::CALL_COND(c, Address::Direct(Data16(self.word_at(k)))),
            Op::Ret => Instruction::RET,
            Op::RetCond(c) => Instruction::RET_COND(c),
            Op::Reti => Instruction::RETI,
            Op::Retn => Instruction::RETN,
            Op::Rst(n) => Instruction::RST(n),
            Op::Push(r) => Instruction::PUSH(Arg16::Register(r)),
            Op::Pop(r) => Instruction::POP(Arg16::Register(r)),
            Op::ExAf => Instruction::EX(Arg16::Register(Reg16::AF), Arg16::Register(Reg16::AltAF)),
            Op::Exx => Instruction::EXX,
            Op::ExDeHl => Instruction::EX(Arg16::Register(Reg16::DE), Arg16::Register(Reg16::HL)),
            Op::ExSp(r) => Instruction::EX(Arg16::Memory(Address::Direct(Data16(0))), Arg16::Register(r)),
            Op::Di => Instruction::DI,
            Op::Ei => Instruction::EI,
            Op::Halt => Instruction::HALT,
            Op::Im(_) => Instruction::IM,
            Op::InImm => Instruction::IN(a, Arg8::Immediate(Data8(self.byte_at(k)))),
            Op::OutImm => Instruction::OUT(Arg8::Immediate(Data8(self.byte_at(k))), a),
            Op::In(r) => Instruction::IN(Arg8::Register(r), Arg8::Register(Reg8::C)),
            Op::Out(o) => Instruction::OUT(Arg8::Register(Reg8::C), self.arg8(o, k)),
            Op::Neg => Instruction::NEG,
            Op::Rrd => Instruction::RRD,
            Op::Rld => Instruction::RLD,
            Op::Block(b) => match b {
                BlockOp::Ldi => Instruction::LDI,
                BlockOp::Cpi => Instruction::CPI,
                BlockOp::Ini => Instruction::INI,
                BlockOp::Outi => Instruction::OUTI,
                BlockOp::Ldd => Instruction::LDD,
                BlockOp::Cpd => Instruction::CPD,
                BlockOp::Ind => Instruction::IND,
                BlockOp::Outd => Instruction::OUTD,
                BlockOp::Ldir => Instruction::LDIR,
                BlockOp::Cpir => Instruction::CPIR,
                BlockOp::Inir => Instruction::INIR,
                BlockOp::Otir => Instruction::OTIR,
                BlockOp::Lddr => Instruction::LDDR,
                BlockOp::Cpdr => Instruction::CPDR,
                BlockOp::Indr => Instruction::INDR,
                BlockOp::Otdr => Instruction::OTDR,
            },
            _ => Instruction::NOP,
        }
    }

    /// The instruction at `pc`, decoded through the same tables as execution.
    pub fn instruction(&self) -> (r: Instruction)
        ensures
            r == named(self.bus.memory(), self.pc),
    {
        let op = decode(self.byte_at(0));
        match op {
            Op::PrefixCB => self.name_op(decode_cb(self.byte_at(1)), 2),
            Op::PrefixED => self.name_op(decode_ed(self.byte_at(1)), 2),
            Op::PrefixDD | Op::PrefixFD => {
                let code = self.byte_at(1);
                let o = if op == Op::PrefixDD {
                    decode_dd(code)
                } else {
                    decode_fd(code)
                };
                match o {
                    Op::IndexCB(i) => {
                        let d = self.byte_at(2);
                        let inner = decode_dd_fd_cb(0, self.byte_at(3));
                        match inner {
                            Op::Rot(_, _) | Op::BitTest(_, _) | Op::BitReset(_, _) | Op::BitSet(
                                _,
                                _,
                            ) => {
                                let arg = Arg8::Memory(Address::RelOffset(i, Data8(d)));
                                match inner {
                                    Op::BitTest(b, _) => Instruction::BIT(b, arg),
                                    Op::BitReset(b, _) => Instruction::RES(b, arg),
                                    Op::BitSet(b, _) => Instruction::SET(b, arg),
                                    Op::Rot(Shift::Rlc, _) => Instruction::RLC(arg),
                                    Op::Rot(Shift::Rrc, _) => Instruction::RRC(arg),
                                    Op::Rot(Shift::Rl, _) => Instruction::RL(arg),
                                    Op::Rot(Shift::Rr, _) => Instruction::RR(arg),
                                    Op::Rot(Shift::Sla, _) => Instruction::SLA(arg),
                                    Op::Rot(Shift::Sra, _) => Instruction::SRA(arg),
                                    Op::Rot(Shift::Sll, _) => Instruction::SLL(arg),
                                    _ => Instruction::SRL(arg),
                                }
                            },
                            _ => Instruction::NOP,
                        }
                    },
                    Op::PrefixED => self.name_op(decode_ed(self.byte_at(2)), 3),
                    Op::PrefixCB | Op::PrefixDD | Op::PrefixFD => Instruction::NOP,
                    _ => self.name_op(o, 2),
                }
            },
            _ => self.name_op(op, 1),
        }
    }
}

} // verus!
