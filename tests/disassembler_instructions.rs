use z80::disassembler::instruction::{Arg8, Instruction};
use z80::registers::Reg8;

#[test]
fn test_output() {
    let instr = Instruction::ADD8(Arg8::Register(Reg8::A), Arg8::Register(Reg8::B));
    assert_eq!("add a,b", instr.to_text());
}

#[test]
fn test_output_correct() {
    let out = Instruction::RRD.to_text();
    assert_eq!("rrd", out);
}
