//! Instruction micro-sequences: flag laws, the compare quirk, branches,
//! the stack, and each opcode family on concrete programs placed in the
//! work RAM.

use nes_cpu::bus::{Cart, CpuMemoryBus, Ram};
use nes_cpu::cpu::Cpu;
use nes_cpu::flags::{CARRY, DECIMAL, INTERRUPT_DISABLE, NEGATIVE, OVERFLOW, ZERO};
use nes_cpu::mapper::{MapperEnum, Mmc1};

/// A machine with an empty cartridge and the program bytes written into
/// work RAM at 0x0200, where the program counter starts.
fn machine(program: &[u8]) -> (Cpu, CpuMemoryBus) {
    let mapper = MapperEnum::Mmc1(Mmc1::new(Vec::new()));
    let mut bus = CpuMemoryBus::new(Cart::new(mapper), Ram::new());
    let mut cpu = Cpu::new(&mut bus);
    for (i, b) in program.iter().enumerate() {
        bus.write(0x0200 + i as u16, *b);
    }
    cpu.prog_counter = 0x0200;
    bus.trace.clear();
    (cpu, bus)
}

fn step(cpu: &mut Cpu, bus: &mut CpuMemoryBus) {
    cpu.run_instr(bus).expect("opcode should be implemented");
}

#[test]
fn lda_immediate_flag_law() {
    // Zero iff the value is zero, Negative iff bit 7 is set.
    let cases = [
        (0x00u8, true, false),
        (0x01u8, false, false),
        (0x7Fu8, false, false),
        (0x80u8, false, true),
        (0xFFu8, false, true),
    ];
    for (v, z, n) in cases {
        let (mut cpu, mut bus) = machine(&[0xA9, v]);
        step(&mut cpu, &mut bus);
        assert_eq!(cpu.a_reg, v);
        assert_eq!(cpu.status_flags.contains_any(ZERO), z);
        assert_eq!(cpu.status_flags.contains_any(NEGATIVE), n);
    }
}

#[test]
fn ldx_ldy_immediate() {
    let (mut cpu, mut bus) = machine(&[0xA2, 0x80, 0xA0, 0x00]);
    step(&mut cpu, &mut bus);
    assert_eq!(cpu.x_reg, 0x80);
    assert!(cpu.status_flags.contains_any(NEGATIVE));
    step(&mut cpu, &mut bus);
    assert_eq!(cpu.y_reg, 0x00);
    assert!(cpu.status_flags.contains_any(ZERO));
    assert!(!cpu.status_flags.contains_any(NEGATIVE));
}

#[test]
fn cmp_immediate_quirk() {
    // CMP #0x01 with A = 0x00: Carry, Zero and Negative all clear —
    // Negative is taken from A's sign bit, not from the subtraction.
    let (mut cpu, mut bus) = machine(&[0xC9, 0x01]);
    cpu.a_reg = 0x00;
    step(&mut cpu, &mut bus);
    assert!(!cpu.status_flags.contains_any(CARRY));
    assert!(!cpu.status_flags.contains_any(ZERO));
    assert!(!cpu.status_flags.contains_any(NEGATIVE));
}

#[test]
fn cmp_immediate_greater_equal() {
    let (mut cpu, mut bus) = machine(&[0xC9, 0x10, 0xC9, 0x90]);
    cpu.a_reg = 0x90;
    step(&mut cpu, &mut bus);
    assert!(cpu.status_flags.contains_any(CARRY));
    assert!(!cpu.status_flags.contains_any(ZERO));
    assert!(cpu.status_flags.contains_any(NEGATIVE));
    step(&mut cpu, &mut bus);
    assert!(cpu.status_flags.contains_any(CARRY));
    assert!(cpu.status_flags.contains_any(ZERO));
    assert!(cpu.status_flags.contains_any(NEGATIVE));
}

#[test]
fn cpy_immediate() {
    let (mut cpu, mut bus) = machine(&[0xC0, 0x05]);
    cpu.y_reg = 0x03;
    step(&mut cpu, &mut bus);
    assert!(!cpu.status_flags.contains_any(CARRY));
    assert!(!cpu.status_flags.contains_any(ZERO));
    assert!(!cpu.status_flags.contains_any(NEGATIVE));
}

#[test]
fn branch_page_cross_extra_dummy_read() {
    // BNE taken with a negative offset (-5) that moves the counter from
    // 0x0202 back across a page boundary to 0x01FD: the 16-bit add of
    // the sign-extended offset wraps, so exactly one extra dummy read is
    // issued at the destination.
    let (mut cpu, mut bus) = machine(&[0xD0, 0xFB]);
    step(&mut cpu, &mut bus);
    assert_eq!(cpu.prog_counter, 0x01FD);
    assert_eq!(bus.trace.len(), 3);
    let extra = bus.trace[2];
    assert!(!extra.write);
    assert_eq!(extra.address, 0x01FD);
}

#[test]
fn branch_without_cross_no_extra_read() {
    // BNE taken with a small positive offset stays within the page and
    // issues no extra read.
    let (mut cpu, mut bus) = machine(&[0xD0, 0x05]);
    step(&mut cpu, &mut bus);
    assert_eq!(cpu.prog_counter, 0x0207);
    assert_eq!(bus.trace.len(), 2);
}

#[test]
fn branch_not_taken_stops() {
    let (mut cpu, mut bus) = machine(&[0xF0, 0xFB]);
    // BEQ with Zero clear: not taken, no access beyond the two fetches.
    step(&mut cpu, &mut bus);
    assert_eq!(cpu.prog_counter, 0x0202);
    assert_eq!(bus.trace.len(), 2);
}

#[test]
fn branch_variants_follow_flags() {
    // BMI taken when Negative set.
    let (mut cpu, mut bus) = machine(&[0x30, 0x04]);
    cpu.status_flags.set(NEGATIVE, true);
    step(&mut cpu, &mut bus);
    assert_eq!(cpu.prog_counter, 0x0206);
    assert_eq!(bus.trace.len(), 2);
    // BPL not taken when Negative set.
    let (mut cpu, mut bus) = machine(&[0x10, 0x04]);
    cpu.status_flags.set(NEGATIVE, true);
    step(&mut cpu, &mut bus);
    assert_eq!(cpu.prog_counter, 0x0202);
    // BCC taken when Carry is clear.
    let (mut cpu, mut bus) = machine(&[0x90, 0x04]);
    cpu.status_flags.set(CARRY, false);
    step(&mut cpu, &mut bus);
    assert_eq!(cpu.prog_counter, 0x0206);
    assert_eq!(bus.trace.len(), 2);
    // BCC not taken when Carry is set.
    let (mut cpu, mut bus) = machine(&[0x90, 0x04]);
    cpu.status_flags.set(CARRY, true);
    step(&mut cpu, &mut bus);
    assert_eq!(cpu.prog_counter, 0x0202);
    assert_eq!(bus.trace.len(), 2);
}

#[test]
fn stack_wraparound_sixteen_pushes() {
    let (mut cpu, mut bus) = machine(&[]);
    cpu.stack_pointer = 0x01;
    for v in 0u8..16 {
        cpu.push_stack(&mut bus, v);
    }
    assert_eq!(cpu.stack_pointer, 0xF1);
    for v in (0u8..16).rev() {
        assert_eq!(cpu.pull_stack(&mut bus), v);
    }
    assert_eq!(cpu.stack_pointer, 0x01);
}

#[test]
fn pha_pla_round_trip() {
    let (mut cpu, mut bus) = machine(&[0x48, 0xA9, 0x00, 0x68]);
    cpu.a_reg = 0xA5;
    step(&mut cpu, &mut bus); // PHA
    step(&mut cpu, &mut bus); // LDA #0
    assert_eq!(cpu.a_reg, 0x00);
    step(&mut cpu, &mut bus); // PLA
    assert_eq!(cpu.a_reg, 0xA5);
    assert!(cpu.status_flags.contains_any(NEGATIVE));
    assert!(!cpu.status_flags.contains_any(ZERO));
}

#[test]
fn php_plp_preserve_all_bits() {
    let (mut cpu, mut bus) = machine(&[0x08, 0x28]);
    cpu.status_flags = nes_cpu::flags::CpuStatusFlags::from_bits_retain(0b0101_1010);
    step(&mut cpu, &mut bus); // PHP
    cpu.status_flags = nes_cpu::flags::CpuStatusFlags::from_bits_retain(0xFF);
    step(&mut cpu, &mut bus); // PLP
    assert_eq!(cpu.status_flags.bits(), 0b0101_1010);
}

#[test]
fn transfers_copy_and_flag() {
    let (mut cpu, mut bus) = machine(&[0xAA, 0xA8, 0xBA, 0x98, 0x9A]);
    cpu.a_reg = 0x80;
    step(&mut cpu, &mut bus); // TAX
    assert_eq!(cpu.x_reg, 0x80);
    assert!(cpu.status_flags.contains_any(NEGATIVE));
    step(&mut cpu, &mut bus); // TAY
    assert_eq!(cpu.y_reg, 0x80);
    cpu.stack_pointer = 0x00;
    step(&mut cpu, &mut bus); // TSX
    assert_eq!(cpu.x_reg, 0x00);
    assert!(cpu.status_flags.contains_any(ZERO));
    cpu.y_reg = 0x07;
    step(&mut cpu, &mut bus); // TYA
    assert_eq!(cpu.a_reg, 0x07);
    assert!(!cpu.status_flags.contains_any(ZERO));
    let flags_before = cpu.status_flags.bits();
    cpu.x_reg = 0x00;
    step(&mut cpu, &mut bus); // TXS: no flag update
    assert_eq!(cpu.stack_pointer, 0x00);
    assert_eq!(cpu.status_flags.bits(), flags_before);
}

#[test]
fn inx_dex_wraparound() {
    let (mut cpu, mut bus) = machine(&[0xE8, 0xCA, 0xCA]);
    cpu.x_reg = 0xFF;
    step(&mut cpu, &mut bus); // INX: 0xFF -> 0x00
    assert_eq!(cpu.x_reg, 0x00);
    assert!(cpu.status_flags.contains_any(ZERO));
    step(&mut cpu, &mut bus); // DEX: 0x00 -> 0xFF
    assert_eq!(cpu.x_reg, 0xFF);
    assert!(cpu.status_flags.contains_any(NEGATIVE));
    step(&mut cpu, &mut bus); // DEX: 0xFF -> 0xFE
    assert_eq!(cpu.x_reg, 0xFE);
}

#[test]
fn iny_dey() {
    let (mut cpu, mut bus) = machine(&[0xC8, 0x88, 0x88]);
    cpu.y_reg = 0x00;
    step(&mut cpu, &mut bus); // INY
    assert_eq!(cpu.y_reg, 0x01);
    step(&mut cpu, &mut bus); // DEY
    step(&mut cpu, &mut bus); // DEY: wraps to 0xFF
    assert_eq!(cpu.y_reg, 0xFF);
    assert!(cpu.status_flags.contains_any(NEGATIVE));
}

#[test]
fn sei_cld() {
    let (mut cpu, mut bus) = machine(&[0x78, 0xD8]);
    cpu.status_flags.set(INTERRUPT_DISABLE, false);
    cpu.status_flags.set(DECIMAL, true);
    step(&mut cpu, &mut bus);
    assert!(cpu.status_flags.contains_any(INTERRUPT_DISABLE));
    step(&mut cpu, &mut bus);
    assert!(!cpu.status_flags.contains_any(DECIMAL));
}

#[test]
fn stores_reach_ram() {
    // STA zp, STX zp, STY zp, STA abs, STX abs, STY abs
    let program = [0x85, 0x10, 0x86, 0x11, 0x84, 0x12, 0x8D, 0x00, 0x01, 0x8E, 0x01, 0x01, 0x8C,
        0x02, 0x01];
    let (mut cpu, mut bus) = machine(&program);
    cpu.a_reg = 0xAB;
    cpu.x_reg = 0xCD;
    cpu.y_reg = 0xEF;
    for _ in 0..6 {
        step(&mut cpu, &mut bus);
    }
    assert_eq!(bus.read(0x0010), 0xAB);
    assert_eq!(bus.read(0x0011), 0xCD);
    assert_eq!(bus.read(0x0012), 0xEF);
    assert_eq!(bus.read(0x0100), 0xAB);
    assert_eq!(bus.read(0x0101), 0xCD);
    assert_eq!(bus.read(0x0102), 0xEF);
}

#[test]
fn sta_zero_page_x_wraps_in_zero_page() {
    let (mut cpu, mut bus) = machine(&[0x95, 0xF8]);
    cpu.a_reg = 0x5A;
    cpu.x_reg = 0x10;
    bus.trace.clear();
    step(&mut cpu, &mut bus);
    // 0xF8 + 0x10 wraps within the zero page to 0x08.
    assert_eq!(bus.read(0x0008), 0x5A);
    // Dummy read at the unindexed zero-page address before the write.
    assert!(!bus.trace[2].write);
    assert_eq!(bus.trace[2].address, 0x00F8);
    assert!(bus.trace[3].write);
    assert_eq!(bus.trace[3].address, 0x0008);
}

#[test]
fn sta_absolute_x() {
    let (mut cpu, mut bus) = machine(&[0x9D, 0x00, 0x01]);
    cpu.a_reg = 0x66;
    cpu.x_reg = 0x05;
    bus.trace.clear();
    step(&mut cpu, &mut bus);
    assert_eq!(bus.read(0x0105), 0x66);
    // Dummy read at the unindexed address before the write.
    assert!(!bus.trace[3].write);
    assert_eq!(bus.trace[3].address, 0x0100);
    assert!(bus.trace[4].write);
    assert_eq!(bus.trace[4].address, 0x0105);
}

#[test]
fn sta_indirect_y() {
    let (mut cpu, mut bus) = machine(&[0x91, 0x20]);
    // Zero-page pointer at 0x20/0x21 forms base 0x0180.
    bus.write(0x0020, 0x80);
    bus.write(0x0021, 0x01);
    cpu.a_reg = 0x99;
    cpu.y_reg = 0x04;
    bus.trace.clear();
    step(&mut cpu, &mut bus);
    // Two fetches, two pointer reads, dummy read at the target, the write.
    assert_eq!(bus.trace.len(), 6);
    assert!(!bus.trace[4].write);
    assert_eq!(bus.trace[4].address, 0x0184);
    assert!(bus.trace[5].write);
    assert_eq!(bus.read(0x0184), 0x99);
}

#[test]
fn sta_indirect_y_pointer_wraps_in_zero_page() {
    let (mut cpu, mut bus) = machine(&[0x91, 0xFF]);
    bus.write(0x00FF, 0x40);
    bus.write(0x0000, 0x01); // high byte comes from 0x00, not 0x100
    cpu.a_reg = 0x77;
    cpu.y_reg = 0x00;
    step(&mut cpu, &mut bus);
    assert_eq!(bus.read(0x0140), 0x77);
}

#[test]
fn lda_zero_page_and_absolute() {
    let (mut cpu, mut bus) = machine(&[0xA5, 0x10, 0xAD, 0x00, 0x05]);
    bus.write(0x0010, 0x3C);
    bus.write(0x0500, 0x81);
    step(&mut cpu, &mut bus);
    assert_eq!(cpu.a_reg, 0x3C);
    step(&mut cpu, &mut bus);
    assert_eq!(cpu.a_reg, 0x81);
    assert!(cpu.status_flags.contains_any(NEGATIVE));
}

#[test]
fn ldx_ldy_memory_modes() {
    let (mut cpu, mut bus) = machine(&[0xA6, 0x10, 0xA4, 0x11, 0xAC, 0x00, 0x05]);
    bus.write(0x0010, 0x0A);
    bus.write(0x0011, 0x0B);
    bus.write(0x0500, 0x0C);
    step(&mut cpu, &mut bus);
    assert_eq!(cpu.x_reg, 0x0A);
    step(&mut cpu, &mut bus);
    assert_eq!(cpu.y_reg, 0x0B);
    step(&mut cpu, &mut bus);
    assert_eq!(cpu.y_reg, 0x0C);
}

#[test]
fn jmp_absolute_sets_pc() {
    let (mut cpu, mut bus) = machine(&[0x4C, 0x34, 0x12]);
    step(&mut cpu, &mut bus);
    assert_eq!(cpu.prog_counter, 0x1234);
}

#[test]
fn jsr_rts_round_trip() {
    // JSR 0x0300; at 0x0300 an RTS returns to the instruction after the
    // JSR (the return address pushed is the JSR's last byte).
    let (mut cpu, mut bus) = machine(&[0x20, 0x00, 0x03]);
    bus.write(0x0300, 0x60);
    let sp0 = cpu.stack_pointer;
    step(&mut cpu, &mut bus); // JSR
    assert_eq!(cpu.prog_counter, 0x0300);
    assert_eq!(cpu.stack_pointer, sp0.wrapping_sub(2));
    step(&mut cpu, &mut bus); // RTS
    assert_eq!(cpu.prog_counter, 0x0203);
    assert_eq!(cpu.stack_pointer, sp0);
}

#[test]
fn inc_zero_page_sequence() {
    let (mut cpu, mut bus) = machine(&[0xE6, 0x40]);
    bus.write(0x0040, 0x7F);
    bus.trace.clear();
    step(&mut cpu, &mut bus);
    assert_eq!(bus.read(0x0040), 0x80);
    assert!(cpu.status_flags.contains_any(NEGATIVE));
    // fetch opcode, fetch address, read, dummy write-back, final write
    assert!(bus.trace[3].write && bus.trace[3].value == 0x7F);
    assert!(bus.trace[4].write && bus.trace[4].value == 0x80);
}

#[test]
fn ora_absolute_and_eor() {
    let (mut cpu, mut bus) = machine(&[0x0D, 0x00, 0x05, 0x49, 0xFF, 0x45, 0x10]);
    bus.write(0x0500, 0b0101_0000);
    bus.write(0x0010, 0b0000_1111);
    cpu.a_reg = 0b0000_0101;
    step(&mut cpu, &mut bus); // ORA abs
    assert_eq!(cpu.a_reg, 0b0101_0101);
    step(&mut cpu, &mut bus); // EOR #0xFF
    assert_eq!(cpu.a_reg, 0b1010_1010);
    assert!(cpu.status_flags.contains_any(NEGATIVE));
    step(&mut cpu, &mut bus); // EOR zp
    assert_eq!(cpu.a_reg, 0b1010_0101);
}

#[test]
fn bit_sets_flags_without_touching_a() {
    let (mut cpu, mut bus) = machine(&[0x24, 0x10, 0x2C, 0x00, 0x05]);
    bus.write(0x0010, 0b1100_0000);
    bus.write(0x0500, 0b0000_0001);
    cpu.a_reg = 0b0000_0001;
    step(&mut cpu, &mut bus); // BIT zp: A & mem == 0, N and V from mem
    assert_eq!(cpu.a_reg, 0b0000_0001);
    assert!(cpu.status_flags.contains_any(ZERO));
    assert!(cpu.status_flags.contains_any(NEGATIVE));
    assert!(cpu.status_flags.contains_any(OVERFLOW));
    step(&mut cpu, &mut bus); // BIT abs: A & mem != 0, mem bits 6/7 clear
    assert!(!cpu.status_flags.contains_any(ZERO));
    assert!(!cpu.status_flags.contains_any(NEGATIVE));
    assert!(!cpu.status_flags.contains_any(OVERFLOW));
}

#[test]
fn lsr_zero_page_carry_and_writeback() {
    let (mut cpu, mut bus) = machine(&[0x46, 0x30]);
    bus.write(0x0030, 0b0000_0011);
    bus.trace.clear();
    step(&mut cpu, &mut bus);
    assert_eq!(bus.read(0x0030), 0b0000_0001);
    assert!(cpu.status_flags.contains_any(CARRY));
    assert!(!cpu.status_flags.contains_any(ZERO));
    // read, dummy write-back of the unchanged value, then the new value
    assert!(bus.trace[3].write && bus.trace[3].value == 0b0000_0011);
    assert!(bus.trace[4].write && bus.trace[4].value == 0b0000_0001);
}

#[test]
fn ror_zero_page_rotates_through_carry() {
    let (mut cpu, mut bus) = machine(&[0x66, 0x30]);
    bus.write(0x0030, 0b0000_0010);
    cpu.status_flags.set(CARRY, true);
    step(&mut cpu, &mut bus);
    assert_eq!(bus.read(0x0030), 0b1000_0001);
    assert!(!cpu.status_flags.contains_any(CARRY));
    assert!(cpu.status_flags.contains_any(NEGATIVE));
}

#[test]
fn ror_accumulator() {
    let (mut cpu, mut bus) = machine(&[0x6A, 0x6A]);
    cpu.a_reg = 0b0000_0001;
    cpu.status_flags.set(CARRY, false);
    step(&mut cpu, &mut bus);
    assert_eq!(cpu.a_reg, 0x00);
    assert!(cpu.status_flags.contains_any(ZERO));
    assert!(cpu.status_flags.contains_any(CARRY));
    step(&mut cpu, &mut bus);
    assert_eq!(cpu.a_reg, 0b1000_0000);
    assert!(!cpu.status_flags.contains_any(CARRY));
    assert!(cpu.status_flags.contains_any(NEGATIVE));
}

#[test]
fn unimplemented_opcode_is_reported() {
    let (mut cpu, mut bus) = machine(&[0xEA]);
    assert_eq!(cpu.run_instr(&mut bus), Err(0xEA));
    // The opcode fetch happened: the counter advanced past it.
    assert_eq!(cpu.prog_counter, 0x0201);
}

#[test]
fn implied_ops_issue_dummy_read_at_pc() {
    let (mut cpu, mut bus) = machine(&[0xE8]);
    step(&mut cpu, &mut bus);
    assert_eq!(bus.trace.len(), 2);
    assert!(!bus.trace[1].write);
    assert_eq!(bus.trace[1].address, 0x0201);
}

#[test]
fn power_on_state() {
    let (cpu, _bus) = machine(&[]);
    assert_eq!(cpu.a_reg, 0);
    assert_eq!(cpu.x_reg, 0);
    assert_eq!(cpu.y_reg, 0);
    assert_eq!(cpu.stack_pointer, 0xFF);
    assert_eq!(cpu.status_flags.bits(), 0x34);
}
