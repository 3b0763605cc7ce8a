use z80::bus::{Bus, FlatBus};
use z80::cpu::Z80;

fn new_cpu(prg: Vec<u8>) -> (Z80, FlatBus) {
    (Z80::new(), FlatBus::new(&prg))
}

#[test]
fn test_inc8() {
    let (mut cpu, mut bus) = new_cpu(vec![0x04]);
    cpu.registers.b = 0x10;
    cpu.step(&mut bus, 0);
    assert_eq!(0x11, cpu.registers.b);
    assert_eq!(1, bus.m_cycles());
    assert_eq!(4, bus.t_states());
}

#[test]
fn test_inc16() {
    let (mut cpu, mut bus) = new_cpu(vec![0x03]);
    cpu.registers.b = 0x14;
    cpu.registers.c = 0x7;
    cpu.step(&mut bus, 0);
    assert_eq!(0x8, cpu.registers.c);
    assert_eq!(1, bus.m_cycles());
    assert_eq!(6, bus.t_states());
}
