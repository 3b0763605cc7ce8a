use z80::bus::{Bus, FlatBus};
use z80::cpu::Z80;

fn new_cpu(prg: Vec<u8>) -> (Z80, FlatBus) {
    (Z80::new(), FlatBus::new(&prg))
}

#[test]
fn test_jp_hl() {
    let (mut cpu, mut bus) = new_cpu(vec![0xe9]);
    cpu.registers.l = 0xff;
    cpu.step(&mut bus, 0);
    assert_eq!(0xff, cpu.pc);
    assert_eq!(1, bus.m_cycles());
    assert_eq!(4, bus.t_states());
}

#[test]
fn test_jp_nn() {
    let (mut cpu, mut bus) = new_cpu(vec![0xc3, 0xff, 0x00]);
    cpu.step(&mut bus, 0);
    assert_eq!(0xff, cpu.pc);
    assert_eq!(3, bus.m_cycles());
    assert_eq!(10, bus.t_states());
}

#[test]
fn call_returns_to_correct_place() {
    let (mut cpu, mut bus) = new_cpu(vec![0xcd, 0xff, 0x00]);
    cpu.sp = 0x2000;
    bus.memory_write_word(0x00ff, 0xc9);
    cpu.step(&mut bus, 0);
    assert_eq!(0xff, cpu.pc);
    assert_eq!(5, bus.m_cycles());
    assert_eq!(17, bus.t_states());
    cpu.step(&mut bus, 0);
    assert_eq!(0x03, cpu.pc);
    assert_eq!(0x2000, cpu.sp);
}

#[test]
fn test_rst() {
    let (mut cpu, mut bus) = new_cpu(vec![0xff]);
    cpu.sp = 0x2000;
    cpu.step(&mut bus, 0);
    assert_eq!(0x38, cpu.pc);
    let val = bus.memory_read_word(0x1ffe);
    assert_eq!(0x01, val);
}
