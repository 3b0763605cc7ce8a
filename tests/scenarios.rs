use z80::bus::{Bus, FlatBus};
use z80::cpu::Z80;
use z80::flags::Flag;
use z80::registers::Reg16;

fn new_cpu(prg: Vec<u8>) -> (Z80, FlatBus) {
    (Z80::new(), FlatBus::new(&prg))
}

fn flag(cpu: &Z80, f: Flag) -> bool {
    cpu.registers.get_flag(f)
}

#[test]
fn inc_b_carries_into_half() {
    let (mut cpu, mut bus) = new_cpu(vec![0x04]);
    cpu.registers.b = 0x0f;
    cpu.step(&mut bus, 0);
    assert_eq!(0x10, cpu.registers.b);
    assert!(flag(&cpu, Flag::HalfCarry));
    assert!(!flag(&cpu, Flag::Zero));
    assert!(!flag(&cpu, Flag::Sign));
    assert!(!flag(&cpu, Flag::Subtract));
    assert!(!flag(&cpu, Flag::Overflow));
}

#[test]
fn add_a_b_overflows() {
    let (mut cpu, mut bus) = new_cpu(vec![0x80]);
    cpu.registers.a = 0x7f;
    cpu.registers.b = 0x01;
    cpu.registers.f = 0;
    cpu.step(&mut bus, 0);
    assert_eq!(0x80, cpu.registers.a);
    assert!(flag(&cpu, Flag::Sign));
    assert!(!flag(&cpu, Flag::Zero));
    assert!(flag(&cpu, Flag::HalfCarry));
    assert!(flag(&cpu, Flag::Overflow));
    assert!(!flag(&cpu, Flag::Subtract));
    assert!(!flag(&cpu, Flag::Carry));
}

#[test]
fn daa_after_bcd_add() {
    let (mut cpu, mut bus) = new_cpu(vec![0x80, 0x27]);
    cpu.registers.a = 0x15;
    cpu.registers.b = 0x27;
    cpu.step(&mut bus, 0);
    assert_eq!(0x3c, cpu.registers.a);
    cpu.step(&mut bus, 0);
    assert_eq!(0x42, cpu.registers.a);
    assert!(flag(&cpu, Flag::HalfCarry));
    assert!(flag(&cpu, Flag::Parity));
    assert!(!flag(&cpu, Flag::Subtract));
    assert!(!flag(&cpu, Flag::Carry));
}

#[test]
fn jr_nz_taken_and_not_taken() {
    let (mut cpu, mut bus) = new_cpu(vec![0x20, 0x05]);
    cpu.registers.set_flag(Flag::Zero, false);
    cpu.step(&mut bus, 0);
    assert_eq!(7, cpu.pc);
    assert_eq!(12, bus.t_states());

    let (mut cpu, mut bus) = new_cpu(vec![0x20, 0x05]);
    cpu.registers.set_flag(Flag::Zero, true);
    cpu.step(&mut bus, 0);
    assert_eq!(2, cpu.pc);
    assert_eq!(7, bus.t_states());
}

#[test]
fn ldir_copies_three_bytes() {
    let (mut cpu, mut bus) = new_cpu(vec![0xed, 0xb0]);
    bus.memory_write(0x2000, 1);
    bus.memory_write(0x2001, 2);
    bus.memory_write(0x2002, 3);
    cpu.set16(Reg16::HL, 0x2000);
    cpu.set16(Reg16::DE, 0x3000);
    cpu.set16(Reg16::BC, 3);
    let mut steps = 0;
    while cpu.pc == 0 {
        cpu.step(&mut bus, 0);
        steps += 1;
    }
    assert_eq!(3, steps);
    assert_eq!(2, cpu.pc);
    assert_eq!(1, bus.memory_read(0x3000));
    assert_eq!(2, bus.memory_read(0x3001));
    assert_eq!(3, bus.memory_read(0x3002));
    assert_eq!(0, cpu.get16(Reg16::BC));
    assert!(!flag(&cpu, Flag::Parity));
    assert_eq!(0x2003, cpu.get16(Reg16::HL));
    assert_eq!(0x3003, cpu.get16(Reg16::DE));
    assert_eq!(21 + 21 + 16, bus.t_states());
}

#[test]
fn call_ret_pairing() {
    let (mut cpu, mut bus) = new_cpu(vec![0xcd, 0xff, 0x00]);
    bus.memory_write(0x00ff, 0xc9);
    cpu.sp = 0x2000;
    cpu.pc = 0;
    cpu.step(&mut bus, 0);
    assert_eq!(0x00ff, cpu.pc);
    assert_eq!(0x1ffe, cpu.sp);
    assert_eq!(0x03, bus.memory_read(0x1ffe));
    assert_eq!(0x00, bus.memory_read(0x1fff));
    cpu.step(&mut bus, 0);
    assert_eq!(0x0003, cpu.pc);
    assert_eq!(0x2000, cpu.sp);
}
