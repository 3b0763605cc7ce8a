use z80::bus::{Bus, FlatBus};
use z80::cpu::Z80;
use z80::disassembler::Disassembler;
use z80::flags::Flag;
use z80::registers::Reg16;

fn new_cpu(prg: Vec<u8>) -> (Z80, FlatBus) {
    (Z80::new(), FlatBus::new(&prg))
}

#[test]
fn pc_moves_past_indexed_store() {
    // LD (IX+5), 0x5a: two opcode bytes, a displacement and an immediate.
    let (mut cpu, mut bus) = new_cpu(vec![0xdd, 0x36, 0x05, 0x5a]);
    let e = cpu.step(&mut bus, 0).unwrap();
    assert_eq!(4, cpu.pc);
    assert_eq!(2, e.fetches);
    assert_eq!(19, bus.t_states());
}

#[test]
fn indexed_bit_operations_take_documented_time() {
    // INC (IX+1): 23 T-states.
    let (mut cpu, mut bus) = new_cpu(vec![0xdd, 0x34, 0x01]);
    cpu.registers.ix = 0x1000;
    bus.memory_write(0x1001, 0x7f);
    cpu.step(&mut bus, 0);
    assert_eq!(0x80, bus.memory_read(0x1001));
    assert_eq!(23, bus.t_states());
    assert!(cpu.registers.get_flag(Flag::Overflow));

    // RLC (IX-1): 23 T-states, four bytes.
    let (mut cpu, mut bus) = new_cpu(vec![0xdd, 0xcb, 0xff, 0x06]);
    cpu.registers.ix = 0x1001;
    bus.memory_write(0x1000, 0x81);
    cpu.step(&mut bus, 0);
    assert_eq!(0x03, bus.memory_read(0x1000));
    assert!(cpu.registers.get_flag(Flag::Carry));
    assert_eq!(4, cpu.pc);
    assert_eq!(23, bus.t_states());

    // BIT 7,(IY+2): 20 T-states.
    let (mut cpu, mut bus) = new_cpu(vec![0xfd, 0xcb, 0x02, 0x7e]);
    cpu.registers.iy = 0x1000;
    bus.memory_write(0x1002, 0x80);
    cpu.step(&mut bus, 0);
    assert!(cpu.registers.get_flag(Flag::Sign));
    assert!(!cpu.registers.get_flag(Flag::Zero));
    assert_eq!(20, bus.t_states());
}

#[test]
fn cp_takes_xy_from_operand() {
    let (mut cpu, mut bus) = new_cpu(vec![0xb8]);
    cpu.registers.a = 0x00;
    cpu.registers.b = 0x28;
    cpu.registers.f = 0;
    cpu.step(&mut bus, 0);
    assert_eq!(0x00, cpu.registers.a);
    assert!(cpu.registers.get_flag(Flag::X));
    assert!(cpu.registers.get_flag(Flag::Y));
    assert!(cpu.registers.get_flag(Flag::Carry));
    assert!(cpu.registers.get_flag(Flag::Subtract));
}

#[test]
fn inc_keeps_carry() {
    let (mut cpu, mut bus) = new_cpu(vec![0x3c]);
    cpu.registers.a = 0xff;
    cpu.registers.f = 0x01;
    cpu.step(&mut bus, 0);
    assert_eq!(0, cpu.registers.a);
    assert!(cpu.registers.get_flag(Flag::Carry));
    assert!(cpu.registers.get_flag(Flag::Zero));
}

#[test]
fn push_pop_round_trip() {
    let (mut cpu, mut bus) = new_cpu(vec![0xc5, 0xc1]);
    cpu.sp = 0x8000;
    cpu.set16(Reg16::BC, 0x1234);
    cpu.step(&mut bus, 0);
    assert_eq!(0x7ffe, cpu.sp);
    cpu.set16(Reg16::BC, 0);
    cpu.step(&mut bus, 0);
    assert_eq!(0x1234, cpu.get16(Reg16::BC));
    assert_eq!(0x8000, cpu.sp);
}

#[test]
fn exchanges_twice_are_no_ops() {
    let (mut cpu, mut bus) = new_cpu(vec![0x08, 0x08, 0xd9, 0xd9]);
    cpu.set16(Reg16::AF, 0x1122);
    cpu.set16(Reg16::BC, 0x3344);
    cpu.set16(Reg16::DE, 0x5566);
    cpu.set16(Reg16::HL, 0x7788);
    cpu.step(&mut bus, 0);
    assert_eq!(0, cpu.get16(Reg16::AF));
    assert_eq!(0x1122, cpu.get16(Reg16::AltAF));
    cpu.step(&mut bus, 0);
    assert_eq!(0x1122, cpu.get16(Reg16::AF));
    cpu.step(&mut bus, 0);
    assert_eq!(0x3344, cpu.get16(Reg16::AltBC));
    assert_eq!(0, cpu.get16(Reg16::HL));
    cpu.step(&mut bus, 0);
    assert_eq!(0x3344, cpu.get16(Reg16::BC));
    assert_eq!(0x5566, cpu.get16(Reg16::DE));
    assert_eq!(0x7788, cpu.get16(Reg16::HL));
}

#[test]
fn cpl_twice_restores_a() {
    let (mut cpu, mut bus) = new_cpu(vec![0x2f, 0x2f]);
    cpu.registers.a = 0x5c;
    cpu.registers.f = 0;
    cpu.step(&mut bus, 0);
    assert_eq!(0xa3, cpu.registers.a);
    cpu.step(&mut bus, 0);
    assert_eq!(0x5c, cpu.registers.a);
    assert!(cpu.registers.get_flag(Flag::HalfCarry));
    assert!(cpu.registers.get_flag(Flag::Subtract));
}

#[test]
fn ldir_copies_a_longer_block() {
    let (mut cpu, mut bus) = new_cpu(vec![0xed, 0xb0]);
    for i in 0..300u16 {
        bus.memory_write(0x4000 + i, (i * 7) as u8);
    }
    cpu.set16(Reg16::HL, 0x4000);
    cpu.set16(Reg16::DE, 0x8000);
    cpu.set16(Reg16::BC, 300);
    while cpu.pc == 0 {
        cpu.step(&mut bus, 0);
    }
    for i in 0..300u16 {
        assert_eq!((i * 7) as u8, bus.memory_read(0x8000 + i));
    }
    assert_eq!(0x4000 + 300, cpu.get16(Reg16::HL));
    assert_eq!(0x8000 + 300, cpu.get16(Reg16::DE));
    assert_eq!(0, cpu.get16(Reg16::BC));
}

#[test]
fn ei_delays_interrupts_by_one_instruction() {
    // EI; NOP; NOP with an interrupt line held active, mode 1.
    let (mut cpu, mut bus) = new_cpu(vec![0xfb, 0x00, 0x00]);
    cpu.sp = 0x8000;
    cpu.interrupt_mode = 1;
    cpu.step(&mut bus, 1);
    assert_eq!(1, cpu.pc);
    assert_eq!(1, cpu.iff1);
    // The instruction after EI still runs before the interrupt.
    cpu.step(&mut bus, 1);
    assert_eq!(2, cpu.pc);
    assert_eq!(1, cpu.iff1);
    cpu.step(&mut bus, 1);
    // Accepted now: the NOP at 0x38 ran after the push of 0x0002.
    assert_eq!(0x39, cpu.pc);
    assert_eq!(0, cpu.iff1);
    assert_eq!(0, cpu.iff2);
    assert_eq!(0x02, bus.memory_read(0x7ffe));
    assert_eq!(0x00, bus.memory_read(0x7fff));
}

#[test]
fn mode_two_interrupt_uses_vector_table() {
    let (mut cpu, mut bus) = new_cpu(vec![0x00]);
    cpu.sp = 0x8000;
    cpu.interrupt_mode = 2;
    cpu.iff1 = 1;
    cpu.iff2 = 1;
    cpu.registers.i = 0x12;
    bus.memory_write(0x12ff, 0x00);
    bus.memory_write(0x1300, 0x50);
    cpu.handle_interrupt(&mut bus, 1);
    assert_eq!(0x5000, cpu.pc);
    assert_eq!(0x7ffe, cpu.sp);
}

#[test]
fn halt_waits_for_an_interrupt() {
    let (mut cpu, mut bus) = new_cpu(vec![0x76, 0x00]);
    cpu.sp = 0x8000;
    cpu.interrupt_mode = 1;
    cpu.iff1 = 1;
    cpu.iff2 = 1;
    let r = cpu.registers.r;
    cpu.step(&mut bus, 0);
    assert!(cpu.halted);
    assert_eq!(0, cpu.pc);
    let t = bus.t_states();
    assert!(cpu.step(&mut bus, 0).is_none());
    assert_eq!(0, cpu.pc);
    assert_eq!(t + 4, bus.t_states());
    assert_eq!((r & 0x80) | ((r + 2) & 0x7f), cpu.registers.r);
    cpu.step(&mut bus, 1);
    assert!(!cpu.halted);
    assert_eq!(0x39, cpu.pc);
    // The return address is the byte after HALT.
    assert_eq!(0x01, bus.memory_read(0x7ffe));
}

#[test]
fn nmi_saves_iff1_and_jumps() {
    let (mut cpu, mut bus) = new_cpu(vec![0x00]);
    cpu.sp = 0x8000;
    cpu.iff1 = 1;
    cpu.iff2 = 1;
    cpu.pc = 0x1234;
    cpu.request_nmi();
    assert!(cpu.step(&mut bus, 0).is_none());
    assert_eq!(0x0066, cpu.pc);
    assert_eq!(0, cpu.iff1);
    assert_eq!(1, cpu.iff2);
    assert_eq!(0x34, bus.memory_read(0x7ffe));
    assert_eq!(0x12, bus.memory_read(0x7fff));
    assert!(!cpu.nmi);
}

#[test]
fn retn_restores_iff1() {
    let (mut cpu, mut bus) = new_cpu(vec![0xed, 0x45]);
    cpu.sp = 0x8000;
    bus.memory_write_word(0x8000, 0x4321);
    cpu.iff1 = 0;
    cpu.iff2 = 1;
    cpu.step(&mut bus, 0);
    assert_eq!(0x4321, cpu.pc);
    assert_eq!(1, cpu.iff1);
    assert_eq!(14, bus.t_states());
}

#[test]
fn ld_a_i_copies_iff2() {
    let (mut cpu, mut bus) = new_cpu(vec![0xed, 0x57]);
    cpu.registers.i = 0x42;
    cpu.iff2 = 1;
    cpu.step(&mut bus, 0);
    assert_eq!(0x42, cpu.registers.a);
    assert!(cpu.registers.get_flag(Flag::Parity));
}

#[test]
fn neg_of_0x80_overflows() {
    let (mut cpu, mut bus) = new_cpu(vec![0xed, 0x44]);
    cpu.registers.a = 0x80;
    cpu.step(&mut bus, 0);
    assert_eq!(0x80, cpu.registers.a);
    assert!(cpu.registers.get_flag(Flag::Overflow));
    assert!(cpu.registers.get_flag(Flag::Carry));
}

#[test]
fn sll_sets_bit_zero() {
    let (mut cpu, mut bus) = new_cpu(vec![0xcb, 0x30]);
    cpu.registers.b = 0x80;
    cpu.step(&mut bus, 0);
    assert_eq!(0x01, cpu.registers.b);
    assert!(cpu.registers.get_flag(Flag::Carry));
    assert_eq!(8, bus.t_states());
}

#[test]
fn cpir_stops_on_match() {
    let (mut cpu, mut bus) = new_cpu(vec![0xed, 0xb1]);
    bus.memory_write(0x2000, 5);
    bus.memory_write(0x2001, 7);
    bus.memory_write(0x2002, 9);
    cpu.registers.a = 7;
    cpu.set16(Reg16::HL, 0x2000);
    cpu.set16(Reg16::BC, 3);
    while cpu.pc == 0 {
        cpu.step(&mut bus, 0);
    }
    assert_eq!(0x2002, cpu.get16(Reg16::HL));
    assert_eq!(1, cpu.get16(Reg16::BC));
    assert!(cpu.registers.get_flag(Flag::Zero));
}

#[test]
fn otir_writes_a_block_to_a_port() {
    let (mut cpu, mut bus) = new_cpu(vec![0xed, 0xb3]);
    bus.memory_write(0x1000, 0xaa);
    bus.memory_write(0x1001, 0xbb);
    cpu.set16(Reg16::HL, 0x1000);
    cpu.registers.b = 2;
    cpu.registers.c = 0x10;
    while cpu.pc == 0 {
        cpu.step(&mut bus, 0);
    }
    assert_eq!(0, cpu.registers.b);
    assert_eq!(&vec![(0x10, 0xaa), (0x10, 0xbb)], bus.port_writes());
    assert!(cpu.registers.get_flag(Flag::Zero));
}

#[test]
fn in_r_c_sets_flags_from_the_byte() {
    let (mut cpu, mut bus) = new_cpu(vec![0xed, 0x78]);
    bus.set_port_input(0x00);
    cpu.step(&mut bus, 0);
    assert_eq!(0, cpu.registers.a);
    assert!(cpu.registers.get_flag(Flag::Zero));
    assert!(cpu.registers.get_flag(Flag::Parity));
    assert_eq!(12, bus.t_states());
}

#[test]
fn wasted_index_prefix_is_a_nop() {
    let (mut cpu, mut bus) = new_cpu(vec![0xdd, 0xfd, 0x21, 0x34, 0x12]);
    cpu.step(&mut bus, 0);
    assert_eq!(1, cpu.pc);
    assert_eq!(4, bus.t_states());
    cpu.step(&mut bus, 0);
    assert_eq!(0x1234, cpu.registers.iy);
    assert_eq!(0, cpu.registers.ix);
}

#[test]
fn disassembles_with_the_same_tables() {
    let bus = FlatBus::new(&vec![0x3e, 0x12, 0xdd, 0x36, 0x05, 0x5a, 0xed, 0xb0, 0xcb, 0x47]);
    let mut dis = Disassembler { bus, pc: 0 };
    assert_eq!(0x12, dis.next_byte());
    assert_eq!("ld a,$12", dis.instruction().to_text());
    dis.pc = 2;
    assert_eq!("ld (ix+5),$5a", dis.instruction().to_text());
    dis.pc = 6;
    assert_eq!("ldir", dis.instruction().to_text());
    dis.pc = 8;
    assert_eq!("bit 0,a", dis.instruction().to_text());
    dis.pc = 0;
    assert_eq!(0xdd12, dis.next_word());
}

#[test]
fn flat_bus_words_wrap_around() {
    let mut bus = FlatBus::new(&vec![]);
    bus.memory_write_word(0xffff, 0x1234);
    assert_eq!(0x34, bus.memory_read(0xffff));
    assert_eq!(0x12, bus.memory_read(0x0000));
    assert_eq!(0x1234, bus.memory_read_word(0xffff));
    bus.tick(2, 7);
    assert_eq!(2, bus.m_cycles());
    assert_eq!(7, bus.t_states());
}

#[test]
fn stack_pointer_wraps_on_push() {
    let (mut cpu, mut bus) = new_cpu(vec![0xe5]);
    cpu.sp = 0x0001;
    cpu.set16(Reg16::HL, 0xbeef);
    cpu.step(&mut bus, 0);
    assert_eq!(0xffff, cpu.sp);
    assert_eq!(0xbe, bus.memory_read(0x0000));
    assert_eq!(0xef, bus.memory_read(0xffff));
}
