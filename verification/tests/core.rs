use nes_core::cpu::Cpu;
use nes_core::driver::on_emulation_cycle;
use nes_core::fault::{EmuFault, RomFormatError};
use nes_core::memory::Memory;
use nes_core::ppu::Ppu;

/// A minimal NROM image: 16 KiB PRG, 8 KiB CHR, horizontal mirroring.
fn make_rom() -> Vec<u8> {
    let mut rom = vec![0u8; 16 + 16384 + 8192];
    rom[0] = 0x4e;
    rom[1] = 0x45;
    rom[2] = 0x53;
    rom[3] = 0x1a;
    rom[4] = 1;
    rom[5] = 1;
    rom
}

fn set_prg(rom: &mut Vec<u8>, offset: usize, bytes: &[u8]) {
    for (i, b) in bytes.iter().enumerate() {
        rom[16 + offset + i] = *b;
    }
}

fn boot(rom: Vec<u8>) -> (Cpu, Ppu, Memory) {
    let mut memory = Memory::from_rom(&rom).unwrap();
    let mut ppu = Ppu::default();
    let cpu = Cpu::from_memory(&mut ppu, &mut memory);
    (cpu, ppu, memory)
}

#[test]
fn reset_uses_the_reset_vector() {
    let mut rom = make_rom();
    set_prg(&mut rom, 0x3ffc, &[0x34, 0x12]);
    let (cpu, _ppu, _memory) = boot(rom);
    assert_eq!(cpu.pc, 0x1234);
    assert_eq!(cpu.sp, 0xfd);
    assert_eq!(cpu.flags, 0x34);
    assert_eq!(cpu.cycles, 7);
}

#[test]
fn lda_immediate_loads_and_costs_two_cycles() {
    let mut rom = make_rom();
    set_prg(&mut rom, 0, &[0xa9, 0x42, 0x00]);
    set_prg(&mut rom, 0x3ffc, &[0x00, 0x80]);
    let (mut cpu, mut ppu, mut memory) = boot(rom);
    let before = cpu.cycles;
    cpu.execute(&mut ppu, &mut memory).unwrap();
    assert_eq!(cpu.a, 0x42);
    assert_eq!(cpu.pc, 0x8002);
    assert_eq!(cpu.flags & 0x02, 0); // Zero clear
    assert_eq!(cpu.flags & 0x80, 0); // Negative clear
    assert_eq!(cpu.cycles, before + 2);
}

#[test]
fn indirect_jmp_wraps_within_the_page() {
    let mut rom = make_rom();
    set_prg(&mut rom, 0, &[0x6c, 0xff, 0x02]);
    set_prg(&mut rom, 0x3ffc, &[0x00, 0x80]);
    let (mut cpu, mut ppu, mut memory) = boot(rom);
    memory.write_byte(&mut ppu, 0x02ff, 0x34).unwrap();
    memory.write_byte(&mut ppu, 0x0200, 0x12).unwrap();
    memory.write_byte(&mut ppu, 0x0300, 0xaa).unwrap();
    cpu.execute(&mut ppu, &mut memory).unwrap();
    assert_eq!(cpu.pc, 0x1234);
}

#[test]
fn oam_dma_copies_a_whole_page() {
    let mut rom = make_rom();
    // An idle loop so the frame runs without faulting.
    set_prg(&mut rom, 0, &[0x4c, 0x00, 0x80]);
    set_prg(&mut rom, 0x3ffc, &[0x00, 0x80]);
    let (mut cpu, mut ppu, mut memory) = boot(rom);
    for i in 0..256u16 {
        memory.write_byte(&mut ppu, 0x0700 + i, (i as u8) ^ 0x5a).unwrap();
    }
    memory.write_byte(&mut ppu, 0x4014, 0x07).unwrap();
    assert!(memory.dma_happening);
    on_emulation_cycle(&mut cpu, &mut ppu, &mut memory).unwrap();
    for i in 0..256usize {
        assert_eq!(ppu.object_attribute_memory[i], (i as u8) ^ 0x5a);
    }
    assert!(!memory.dma_happening);
}

#[test]
fn odd_frame_skips_the_first_dot() {
    let rom = make_rom();
    let (_cpu, mut ppu, mut memory) = boot(rom);
    assert_eq!(ppu.scanline, 0);
    assert_eq!(ppu.cycles, 0);
    ppu.execute(&mut memory);
    // Dot 0 was bumped to 1 before the tick itself advanced the beam.
    assert_eq!(ppu.cycles, 2);
    assert_eq!(ppu.scanline, 0);
}

#[test]
fn vblank_raises_the_nmi_and_entry_pushes_state() {
    let mut rom = make_rom();
    set_prg(&mut rom, 0x3ffa, &[0xcd, 0xab]);
    let (mut cpu, mut ppu, mut memory) = boot(rom);
    // Enable NMI generation through PPUCTRL.
    memory.write_byte(&mut ppu, 0x2000, 0x80).unwrap();
    let mut guard = 0u32;
    while !(ppu.scanline == 241 && ppu.cycles == 2) {
        ppu.execute(&mut memory);
        guard += 1;
        assert!(guard < 200_000);
    }
    assert!(ppu.due_non_maskable_interrupt);
    assert_ne!(ppu.ppu_status & 0x80, 0);

    cpu.pc = 0x8321;
    cpu.flags = 0x34 | 0x10; // B happens to be set in the live flags
    let old_sp = cpu.sp;
    cpu.on_non_maskable_interrupt(&mut ppu, &mut memory);
    assert_eq!(cpu.pc, 0xabcd);
    assert_eq!(cpu.cycles, 8);
    assert_eq!(memory.ram[(0x100 + old_sp as usize) % 0x800], 0x83);
    assert_eq!(memory.ram[(0x100 + old_sp.wrapping_sub(1) as usize) % 0x800], 0x21);
    let pushed = memory.ram[(0x100 + old_sp.wrapping_sub(2) as usize) % 0x800];
    assert_eq!(pushed & 0x10, 0); // B pushed clear
    assert_ne!(pushed & 0x20, 0); // U pushed set
}

#[test]
fn status_read_clears_vblank_and_the_latch() {
    let rom = make_rom();
    let (_cpu, mut ppu, mut memory) = boot(rom);
    ppu.ppu_status = 0xe0;
    ppu.address_latch = true;
    let value = ppu.read_byte_from_cpu(&mut memory, 0x2002, false);
    assert_eq!(value, 0xe0);
    assert_eq!(ppu.ppu_status & 0x80, 0);
    assert!(!ppu.address_latch);
}

#[test]
fn ppuaddr_write_pair_targets_ppudata() {
    let rom = make_rom();
    let (_cpu, mut ppu, mut memory) = boot(rom);
    // 0x23F5 written high byte first, then low; then a data write lands
    // in the nametable cell behind it and v advances by one.
    ppu.write_byte_from_cpu(&mut memory, 0x2006, 0x23);
    ppu.write_byte_from_cpu(&mut memory, 0x2006, 0xf5);
    assert_eq!(ppu.ppu_address, 0x23f5);
    ppu.write_byte_from_cpu(&mut memory, 0x2007, 0x99);
    assert_eq!(ppu.ppu_address, 0x23f6);
    assert_eq!(ppu.read_byte_from_ppu(&memory, 0x23f5), 0x99);
}

#[test]
fn palette_writes_mirror_both_ways() {
    let rom = make_rom();
    let (_cpu, mut ppu, mut memory) = boot(rom);
    ppu.write_byte_from_ppu(&mut memory, 0x3f10, 0x15);
    assert_eq!(ppu.read_byte_from_ppu(&memory, 0x3f00), 0x15);
    ppu.write_byte_from_ppu(&mut memory, 0x3f04, 0x2a);
    assert_eq!(ppu.read_byte_from_ppu(&memory, 0x3f14), 0x2a);
}

#[test]
fn nametables_mirror_by_header_flag() {
    // Vertical mirroring: 0x2000+k and 0x2800+k share a bank.
    let mut rom = make_rom();
    rom[6] = 0x01;
    let (_cpu, mut ppu, mut memory) = boot(rom);
    ppu.write_byte_from_ppu(&mut memory, 0x2005, 0x77);
    assert_eq!(ppu.read_byte_from_ppu(&memory, 0x2805), 0x77);
    // Horizontal mirroring: 0x2000+k and 0x2400+k share a bank.
    let rom2 = make_rom();
    let (_cpu2, mut ppu2, mut memory2) = boot(rom2);
    ppu2.write_byte_from_ppu(&mut memory2, 0x2005, 0x66);
    assert_eq!(ppu2.read_byte_from_ppu(&memory2, 0x2405), 0x66);
}

#[test]
fn flip_byte_reverses_and_is_involutive() {
    let rom = make_rom();
    let (_cpu, ppu, _memory) = boot(rom);
    assert_eq!(ppu.flip_byte(0x01), 0x80);
    assert_eq!(ppu.flip_byte(0xd2), 0x4b);
    for v in 0..=255u8 {
        assert_eq!(ppu.flip_byte(ppu.flip_byte(v)), v);
    }
}

#[test]
fn push_then_pop_restores_the_byte() {
    let rom = make_rom();
    let (mut cpu, mut ppu, mut memory) = boot(rom);
    let sp = cpu.sp;
    cpu.push(&mut ppu, &mut memory, 0xc7);
    assert_eq!(cpu.sp, sp.wrapping_sub(1));
    let back = cpu.pop(&mut ppu, &mut memory);
    assert_eq!(back, 0xc7);
    assert_eq!(cpu.sp, sp);
}

#[test]
fn php_then_plp_keeps_the_live_flags() {
    let mut rom = make_rom();
    // PHP; PLP; then spin.
    set_prg(&mut rom, 0, &[0x08, 0x28, 0x4c, 0x02, 0x80]);
    set_prg(&mut rom, 0x3ffc, &[0x00, 0x80]);
    let (mut cpu, mut ppu, mut memory) = boot(rom);
    cpu.flags = 0xc3; // B and U clear in the live byte
    cpu.execute(&mut ppu, &mut memory).unwrap();
    cpu.execute(&mut ppu, &mut memory).unwrap();
    assert_eq!(cpu.flags & !0x30, 0xc3 & !0x30);
}

fn load_err(rom: &Vec<u8>) -> RomFormatError {
    match Memory::from_rom(rom) {
        Err(e) => e,
        Ok(_) => panic!("image was accepted"),
    }
}

#[test]
fn rom_loading_reports_each_failure() {
    let mut bad_magic = make_rom();
    bad_magic[0] = 0x4d;
    assert_eq!(load_err(&bad_magic), RomFormatError::BadMagic);

    let mut bad_mapper = make_rom();
    bad_mapper[7] = 0x10;
    assert_eq!(load_err(&bad_mapper), RomFormatError::UnsupportedMapper);

    let mut bad_layout = make_rom();
    bad_layout[4] = 3;
    assert_eq!(load_err(&bad_layout), RomFormatError::UnsupportedLayout);

    let mut short = make_rom();
    short.truncate(1000);
    assert_eq!(load_err(&short), RomFormatError::Truncated);

    assert_eq!(load_err(&vec![0u8; 4]), RomFormatError::Truncated);
}

#[test]
fn unmapped_addresses_fault_and_bad_opcodes_are_anomalies() {
    let mut rom = make_rom();
    set_prg(&mut rom, 0, &[0x02]);
    set_prg(&mut rom, 0x3ffc, &[0x00, 0x80]);
    let (mut cpu, mut ppu, mut memory) = boot(rom);
    assert_eq!(
        memory.read_byte(&mut ppu, 0x5000, false).unwrap_err(),
        EmuFault::BusMap { address: 0x5000 }
    );
    assert_eq!(
        cpu.execute(&mut ppu, &mut memory).unwrap_err(),
        EmuFault::DecodeAnomaly { opcode: 0x02 }
    );
    cpu.pc = 0x8000;
    memory.write_byte(&mut ppu, 0x8000, 0x00).unwrap();
    assert_eq!(cpu.execute(&mut ppu, &mut memory).unwrap_err(), EmuFault::Brk);
}

#[test]
fn controller_strobe_then_serial_read() {
    let rom = make_rom();
    let (_cpu, mut ppu, mut memory) = boot(rom);
    memory.controller[0] = 0b1010_0001;
    memory.write_byte(&mut ppu, 0x4016, 1).unwrap();
    let mut bits = Vec::new();
    for _ in 0..8 {
        bits.push(memory.read_byte(&mut ppu, 0x4016, false).unwrap());
    }
    assert_eq!(bits, vec![1, 0, 1, 0, 0, 0, 0, 1]);
}

#[test]
fn sbc_behaves_as_complemented_adc() {
    for b in 0..=255u8 {
        assert_eq!(b ^ 0xff ^ 0xff, b);
    }
    // SBC #1 with carry set: 5 - 1 = 4, carry still set.
    let mut rom = make_rom();
    set_prg(&mut rom, 0, &[0xe9, 0x01, 0x00]);
    set_prg(&mut rom, 0x3ffc, &[0x00, 0x80]);
    let (mut cpu, mut ppu, mut memory) = boot(rom);
    cpu.a = 5;
    cpu.flags |= 0x01;
    cpu.execute(&mut ppu, &mut memory).unwrap();
    assert_eq!(cpu.a, 4);
    assert_ne!(cpu.flags & 0x01, 0);
}

#[test]
fn asl_then_lsr_keeps_low_seven_bits() {
    // ASL $10 then LSR $10 on 0xC3: memory ends at 0x41, ASL's carry was bit 7.
    let mut rom = make_rom();
    set_prg(&mut rom, 0, &[0x06, 0x10, 0x46, 0x10, 0x00]);
    set_prg(&mut rom, 0x3ffc, &[0x00, 0x80]);
    let (mut cpu, mut ppu, mut memory) = boot(rom);
    memory.write_byte(&mut ppu, 0x0010, 0xc3).unwrap();
    cpu.execute(&mut ppu, &mut memory).unwrap();
    assert_ne!(cpu.flags & 0x01, 0); // carry = old bit 7
    cpu.execute(&mut ppu, &mut memory).unwrap();
    assert_eq!(memory.read_byte(&mut ppu, 0x0010, false).unwrap(), 0x43 & 0x7f);
}

#[test]
fn pattern_table_view_reflects_chr() {
    let mut rom = make_rom();
    // Tile 0 of table 0, row 0: lower plane 0xFF -> every pixel of that
    // row gets the lower-plane bit as the high bit of its 2-bit value.
    rom[16 + 16384] = 0xff;
    // Palette entry 2 of palette 0 set to colour index 0x01.
    let (_cpu, mut ppu, mut memory) = boot(rom);
    ppu.write_byte_from_ppu(&mut memory, 0x3f02, 0x01);
    let view = ppu.get_pattern_table(&memory, 0, 0);
    assert_eq!(view.len(), 128 * 128 * 3);
    // Pixel (0,0): lower bit 1, upper bit 0 -> pixel 2 -> colour 0x01,
    // which the fixed NTSC table maps to (0, 30, 116).
    assert_eq!(&view[0..3], &[0, 30, 116]);
}
