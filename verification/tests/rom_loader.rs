//! The iNES loader on concrete images, and the end-to-end scenario of a
//! machine reset into a small program served from the ROM window.

use nes_cpu::bus::{Cart, CpuMemoryBus, Ram};
use nes_cpu::cpu::Cpu;
use nes_cpu::flags::{NEGATIVE, ZERO};
use nes_cpu::mapper::{MapperEnum, Mmc1, ROM_PAGE_SIZE};
use nes_cpu::rom::{Mirroring, RomError, parse_ines};

/// A one-bank image: header with the given flag bytes, then the bank.
fn image(h4: u8, h5: u8, h6: u8, h7: u8, prg: &[u8]) -> Vec<u8> {
    let mut bytes = vec![0x4E, 0x45, 0x53, 0x1A, h4, h5, h6, h7, 0, 0, 0, 0, 0, 0, 0, 0];
    bytes.extend_from_slice(prg);
    bytes
}

#[test]
fn parse_valid_image() {
    let mut prg = vec![0u8; ROM_PAGE_SIZE];
    prg[0] = 0xAB;
    // Mapper 1: header byte 6 upper nibble 1, byte 7 upper nibble 0.
    let bytes = image(1, 2, 0x13, 0x00, &prg);
    let img = parse_ines(&bytes).expect("image should parse");
    assert_eq!(img.prg_rom.len(), ROM_PAGE_SIZE);
    assert_eq!(img.prg_rom[0], 0xAB);
    assert_eq!(img.chr_rom_size, 2 * 8192);
    assert_eq!(img.mirroring, Mirroring::Vertical);
    assert!(img.has_persistent_memory);
    assert!(!img.has_trainer);
    assert!(!img.provides_four_screen_vram);
    assert_eq!(img.mapper_number, 1);
}

#[test]
fn parse_skips_trainer() {
    let mut body = vec![0x11u8; 512];
    let mut prg = vec![0u8; ROM_PAGE_SIZE];
    prg[0] = 0xCD;
    body.extend_from_slice(&prg);
    let bytes = image(1, 0, 0x14, 0x00, &body);
    let img = parse_ines(&bytes).expect("image should parse");
    assert!(img.has_trainer);
    assert_eq!(img.prg_rom[0], 0xCD);
}

#[test]
fn invalid_magic_fails_before_any_cpu_state() {
    let mut bytes = vec![b'A', b'B', b'C', b'X'];
    bytes.extend_from_slice(&[1, 0, 0x10, 0, 0, 0, 0, 0, 0, 0, 0, 0]);
    bytes.extend_from_slice(&vec![0u8; ROM_PAGE_SIZE]);
    assert_eq!(parse_ines(&bytes), Err(RomError::NotInes));
}

#[test]
fn short_header_is_truncated() {
    let bytes = vec![0x4E, 0x45, 0x53, 0x1A, 1];
    assert_eq!(parse_ines(&bytes), Err(RomError::Truncated));
}

#[test]
fn missing_prg_data_is_truncated() {
    // Header declares one bank but the image holds half of one.
    let bytes = image(1, 0, 0x10, 0x00, &vec![0u8; ROM_PAGE_SIZE / 2]);
    assert_eq!(parse_ines(&bytes), Err(RomError::Truncated));
}

#[test]
fn unsupported_mapper_is_named() {
    // Upper nibbles of bytes 6 and 7 combine: (0x15 >> 4) | 0x30 = 0x31.
    let bytes = image(1, 0, 0x15, 0x30, &vec![0u8; ROM_PAGE_SIZE]);
    assert_eq!(parse_ines(&bytes), Err(RomError::UnsupportedMapper(0x31)));
    // Mapper 0 is refused too.
    let bytes = image(1, 0, 0x00, 0x00, &vec![0u8; ROM_PAGE_SIZE]);
    assert_eq!(parse_ines(&bytes), Err(RomError::UnsupportedMapper(0)));
}

#[test]
fn reset_and_run_store_scenario() {
    // LDA #0x42; STA 0x0010; JMP <self> at 0xC000, reset vector 0xC000.
    let mut prg = vec![0u8; ROM_PAGE_SIZE];
    let program = [0xA9, 0x42, 0x85, 0x10, 0x4C, 0x04, 0xC0];
    prg[..program.len()].copy_from_slice(&program);
    prg[0x3FFC] = 0x00; // reset vector low at 0xFFFC
    prg[0x3FFD] = 0xC0; // reset vector high at 0xFFFD
    let bytes = image(1, 0, 0x10, 0x00, &prg);
    let img = parse_ines(&bytes).expect("image should parse");

    let mapper = MapperEnum::Mmc1(Mmc1::new(img.prg_rom));
    let mut bus = CpuMemoryBus::new(Cart::new(mapper), Ram::new());
    let mut cpu = Cpu::new(&mut bus);
    cpu.reset(&mut bus);
    assert_eq!(cpu.prog_counter, 0xC000);
    assert_eq!(cpu.stack_pointer, 0xFC);
    // The reset vector is read low byte first.
    assert_eq!(bus.trace[0].address, 0xFFFC);
    assert_eq!(bus.trace[1].address, 0xFFFD);

    for _ in 0..3 {
        cpu.run_instr(&mut bus).expect("opcode should be implemented");
    }
    assert_eq!(bus.read(0x0010), 0x42);
    assert_eq!(cpu.a_reg, 0x42);
    assert!(!cpu.status_flags.contains_any(ZERO));
    assert!(!cpu.status_flags.contains_any(NEGATIVE));
    // JMP <self>: the counter sits on the jump itself.
    assert_eq!(cpu.prog_counter, 0xC004);
}

#[test]
fn parse_image_without_banks() {
    // A header declaring zero PRG banks parses; the mapper then claims
    // nothing and the ROM window is open bus.
    let bytes = image(0, 0, 0x10, 0x00, &[]);
    let img = parse_ines(&bytes).expect("image should parse");
    assert!(img.prg_rom.is_empty());
    let mapper = MapperEnum::Mmc1(Mmc1::new(img.prg_rom));
    let mut bus = CpuMemoryBus::new(Cart::new(mapper), Ram::new());
    bus.write(0x0000, 0x5C);
    assert_eq!(bus.read(0xC000), 0x5C);
    assert!(!bus.trace.last().unwrap().claimed);
}
