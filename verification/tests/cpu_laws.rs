//! The step loop, interrupts and reset, on concrete programs.

use clinker6502_core::bus::Bus;
use clinker6502_core::cpu::Cpu;

/// A flat 64 KiB address space that records the addresses it is asked for.
struct LogBus {
    mem: [u8; 0x10000],
    reads: Vec<u16>,
    writes: usize,
}

impl LogBus {
    fn new() -> Self {
        Self { mem: [0; 0x10000], reads: Vec::new(), writes: 0 }
    }

    fn load(&mut self, addr: u16, bytes: &[u8]) {
        for (i, b) in bytes.iter().enumerate() {
            self.mem[(addr as usize + i) & 0xFFFF] = *b;
        }
    }
}

impl Bus for LogBus {
    fn read_u8(&mut self, addr: u16) -> u8 {
        self.reads.push(addr);
        self.mem[addr as usize]
    }
    fn write_u8(&mut self, addr: u16, val: u8) {
        self.writes += 1;
        self.mem[addr as usize] = val;
    }
}

fn booted_at(bus: &mut LogBus, start: u16) -> Cpu {
    bus.load(0xFFFC, &start.to_le_bytes());
    let mut cpu = Cpu::new();
    cpu.reset(bus);
    bus.reads.clear();
    cpu
}

#[test]
fn new_is_the_power_on_state() {
    let cpu = Cpu::new();
    assert_eq!((cpu.a, cpu.x, cpu.y, cpu.s, cpu.pc), (0, 0, 0, 0xFD, 0));
    assert_eq!(cpu.cycles, 0);
    assert!(!cpu.irq && !cpu.nmi && !cpu.nmi_edge.level() && !cpu.reset_pending);
    assert!(!cpu.brk_trapped);
    assert_eq!(cpu.unknown_opcodes, 0);
    assert!(!cpu.status.carry && !cpu.status.interrupt_disable);
    let d = Cpu::default();
    assert_eq!((d.s, d.pc, d.cycles), (0xFD, 0, 0));
}

#[test]
fn reset_reads_the_vector_low_byte_first() {
    let mut bus = LogBus::new();
    bus.load(0xFFFC, &[0x34, 0x12]);
    let mut cpu = Cpu::new();
    cpu.nmi = true;
    cpu.reset(&mut bus);
    assert_eq!(cpu.pc, 0x1234);
    assert_eq!(bus.reads, vec![0xFFFC, 0xFFFD]);
    assert!(cpu.nmi_edge.level());
    assert_eq!(cpu.cycles, 7);
}

#[test]
fn read_u16_wraps_at_the_top_of_memory() {
    let mut bus = LogBus::new();
    bus.load(0xFFFF, &[0xCD]);
    bus.load(0x0000, &[0xAB]);
    assert_eq!(bus.read_u16(0xFFFF), 0xABCD);
    assert_eq!(bus.reads, vec![0xFFFF, 0x0000]);
}

#[test]
fn each_step_adds_its_cycles() {
    let mut bus = LogBus::new();
    // NOP; LDA $1234; BRK; unknown; JMP ($2000)
    bus.load(0xD000, &[0xEA, 0xAD, 0x34, 0x12, 0x00, 0xFF, 0x6C, 0x00, 0x20]);
    let mut cpu = booted_at(&mut bus, 0xD000);
    let expected = [2u8, 4, 7, 2, 5];
    for want in expected {
        let before = cpu.cycles;
        let got = cpu.step(&mut bus);
        assert_eq!(got, want);
        assert_eq!(cpu.cycles, before + got as u64);
    }
    assert_eq!(cpu.pc, 0xD009);
}

#[test]
fn pc_moves_past_the_operand_bytes() {
    let mut bus = LogBus::new();
    // LDA #$01; LDA $10; JSR $4000; RTS; BNE +5
    bus.load(0xD000, &[0xA9, 0x01, 0xA5, 0x10, 0x20, 0x00, 0x40, 0x60, 0xD0, 0x05]);
    let mut cpu = booted_at(&mut bus, 0xD000);
    cpu.step(&mut bus);
    assert_eq!(cpu.pc, 0xD002);
    assert_eq!(bus.reads, vec![0xD000, 0xD001]);
    cpu.step(&mut bus);
    assert_eq!(cpu.pc, 0xD004);
    cpu.step(&mut bus);
    assert_eq!(cpu.pc, 0xD007);
    assert_eq!(cpu.cycles, 7 + 2 + 3 + 6);
    cpu.step(&mut bus);
    assert_eq!(cpu.pc, 0xD008);
    cpu.step(&mut bus);
    assert_eq!(cpu.pc, 0xD00A);
}

#[test]
fn pc_wraps_past_the_top_of_memory() {
    let mut bus = LogBus::new();
    bus.load(0xFFFE, &[0xAD, 0x00]); // LDA $xx00, high operand byte at $0000
    bus.load(0x0000, &[0x10]);
    let mut cpu = booted_at(&mut bus, 0xFFFE);
    cpu.step(&mut bus);
    assert_eq!(cpu.pc, 0x0001);
    assert_eq!(bus.reads, vec![0xFFFE, 0xFFFF, 0x0000]);
}

#[test]
fn registers_and_memory_are_left_alone() {
    let mut bus = LogBus::new();
    // LDA #$55; LDX #$66; LDY #$77; STA $80; TAX; INX
    bus.load(0xD000, &[0xA9, 0x55, 0xA2, 0x66, 0xA0, 0x77, 0x85, 0x80, 0xAA, 0xE8]);
    let mut cpu = booted_at(&mut bus, 0xD000);
    for _ in 0..6 {
        cpu.step(&mut bus);
    }
    assert_eq!((cpu.a, cpu.x, cpu.y, cpu.s), (0, 0, 0, 0xFD));
    assert_eq!(bus.writes, 0);
    assert_eq!(cpu.pc, 0xD00A);
}

#[test]
fn flag_instructions_and_brk() {
    let mut bus = LogBus::new();
    bus.load(0xD000, &[0x38, 0x18, 0x00]); // SEC; CLC; BRK
    let mut cpu = booted_at(&mut bus, 0xD000);
    cpu.step(&mut bus);
    assert!(cpu.status.carry);
    cpu.step(&mut bus);
    assert!(!cpu.status.carry);
    assert!(!cpu.brk_trapped);
    let c = cpu.step(&mut bus);
    assert_eq!(c, 7);
    assert!(cpu.brk_trapped);
    assert_eq!(cpu.pc, 0xD003);
}

#[test]
fn unknown_opcode_costs_two_cycles_and_one_byte() {
    let mut bus = LogBus::new();
    bus.load(0xD000, &[0x02, 0x03]);
    let mut cpu = booted_at(&mut bus, 0xD000);
    assert_eq!(cpu.step(&mut bus), 2);
    assert_eq!(cpu.step(&mut bus), 2);
    assert_eq!(cpu.pc, 0xD002);
    assert_eq!(cpu.unknown_opcodes, 2);
    assert_eq!(cpu.cycles, 11);
}

#[test]
fn nmi_is_taken_again_only_after_release() {
    let mut bus = LogBus::new();
    bus.load(0xFFFA, &[0x00, 0xE0]);
    bus.load(0xE000, &[0xEA, 0xEA, 0xEA]);
    let mut cpu = booted_at(&mut bus, 0xD000);
    cpu.nmi = true;
    assert_eq!(cpu.step(&mut bus), 7);
    assert_eq!(cpu.pc, 0xE000);
    assert_eq!(bus.reads, vec![0xFFFA, 0xFFFB]);
    cpu.step(&mut bus);
    assert_eq!(cpu.pc, 0xE001);
    cpu.nmi = false;
    cpu.step(&mut bus);
    assert_eq!(cpu.pc, 0xE002);
    cpu.nmi = true;
    cpu.step(&mut bus);
    assert_eq!(cpu.pc, 0xE000);
}

#[test]
fn irq_entry_sets_the_disable_flag() {
    let mut bus = LogBus::new();
    bus.load(0xFFFE, &[0x00, 0xF0]);
    bus.load(0xF000, &[0xEA]);
    let mut cpu = booted_at(&mut bus, 0xD000);
    cpu.status.interrupt_disable = false;
    cpu.irq = true;
    assert_eq!(cpu.step(&mut bus), 7);
    assert_eq!(cpu.pc, 0xF000);
    assert!(cpu.status.interrupt_disable);
    assert_eq!(bus.reads, vec![0xFFFE, 0xFFFF]);
    // The line is still asserted, but I is now set: the handler runs.
    cpu.step(&mut bus);
    assert_eq!(cpu.pc, 0xF001);
}

#[test]
fn pending_reset_comes_first_and_is_cleared() {
    let mut bus = LogBus::new();
    bus.load(0xFFFA, &[0x00, 0xE0]);
    bus.load(0xFFFE, &[0x00, 0xF0]);
    bus.load(0xC000, &[0xEA]);
    let mut cpu = booted_at(&mut bus, 0xD000);
    bus.load(0xFFFC, &[0x00, 0xC0]);
    cpu.s = 0x10;
    cpu.status.interrupt_disable = false;
    cpu.irq = true;
    cpu.nmi = true;
    cpu.reset_pending = true;
    assert_eq!(cpu.step(&mut bus), 7);
    assert_eq!(cpu.pc, 0xC000);
    assert_eq!(cpu.s, 0xFD);
    assert!(cpu.status.interrupt_disable);
    assert!(!cpu.reset_pending);
    assert!(cpu.nmi_edge.level());
    // The NMI line was high before the reset: no edge afterwards.
    cpu.step(&mut bus);
    assert_eq!(cpu.pc, 0xC001);
}

#[test]
fn asl_accumulator_and_ldx_zero_page_y_step() {
    let mut bus = LogBus::new();
    bus.load(0xD000, &[0x0A, 0xB6, 0x40]); // ASL A; LDX $40,Y
    let mut cpu = booted_at(&mut bus, 0xD000);
    assert_eq!(cpu.step(&mut bus), 2);
    assert_eq!(cpu.pc, 0xD001);
    assert_eq!(bus.reads, vec![0xD000]);
    assert_eq!(cpu.step(&mut bus), 4);
    assert_eq!(cpu.pc, 0xD003);
    assert_eq!(bus.reads, vec![0xD000, 0xD001, 0xD002]);
    assert_eq!(bus.writes, 0);
}
