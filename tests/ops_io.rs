use z80::bus::{Bus, FlatBus};
use z80::cpu::Z80;

fn new_cpu(prg: Vec<u8>) -> (Z80, FlatBus) {
    (Z80::new(), FlatBus::new(&prg))
}

#[test]
fn test_out_n_a() {
    let (mut cpu, mut bus) = new_cpu(vec![0xd3, 0x01]);
    cpu.registers.a = 0x23;
    cpu.step(&mut bus, 0);
    assert_eq!(0x23, bus.port_value(0x01));
}

#[test]
fn test_out_c_r() {
    let (mut cpu, mut bus) = new_cpu(vec![0xed, 0x51]);
    cpu.registers.c = 0x01;
    cpu.registers.d = 0x5a;
    cpu.step(&mut bus, 0);
    assert_eq!(3, bus.m_cycles());
    assert_eq!(12, bus.t_states());
    assert_eq!(0x5a, bus.port_value(0x01));
}

#[test]
fn test_outi() {
    let (mut cpu, mut bus) = new_cpu(vec![0xed, 0xa3]);
    cpu.registers.b = 0x10;
    cpu.registers.c = 0x07;
    cpu.registers.d = 0x5a;
    cpu.registers.h = 0x10;
    cpu.registers.l = 0x00;
    bus.memory_write(0x1000, 0x59);
    cpu.step(&mut bus, 0);
    assert_eq!(0x0f, cpu.registers.b);
    assert_eq!(0x10, cpu.registers.h);
    assert_eq!(0x01, cpu.registers.l);
    assert_eq!(0x59, bus.port_value(0x07));
    assert_eq!(4, bus.m_cycles());
    assert_eq!(16, bus.t_states());
}
