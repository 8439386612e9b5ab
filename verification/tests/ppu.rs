use nes_core::ppu::Ppu;
use nes_core::ppu::PpuMemory;
use nes_core::ppu::PpuRegister;

fn pattern() -> [u8; 0x2000] {
    let mut rom = [0u8; 0x2000];
    rom[0x0000] = 0xa1;
    rom[0x0fff] = 0xa2;
    rom[0x1000] = 0xa3;
    rom[0x1fff] = 0xa4;
    rom
}

#[test]
fn ppu_memory_reads_pattern_data() {
    let memory = PpuMemory::new(pattern());
    assert_eq!(memory.read(0x0000), 0xa1);
    assert_eq!(memory.read(0x0fff), 0xa2);
    assert_eq!(memory.read(0x1000), 0xa3);
    assert_eq!(memory.read(0x1fff), 0xa4);
    assert_eq!(memory.read(0x0001), 0x00);
}

#[test]
fn ppu_memory_ignores_writes_to_pattern_data() {
    let mut memory = PpuMemory::new(pattern());
    memory.write(0x0000, 0xff);
    memory.write(0x1fff, 0xff);
    assert_eq!(memory.read(0x0000), 0xa1);
    assert_eq!(memory.read(0x1fff), 0xa4);
}

#[test]
fn ppu_memory_palette_round_trip() {
    let mut memory = PpuMemory::new(pattern());
    assert_eq!(memory.read(0x3f00), 0x00);
    memory.write(0x3f00, 0x11);
    memory.write(0x3f1f, 0x22);
    assert_eq!(memory.read(0x3f00), 0x11);
    assert_eq!(memory.read(0x3f1f), 0x22);
    assert_eq!(memory.read(0x3f01), 0x00);
}

#[test]
fn ppu_memory_outside_both_regions() {
    let mut memory = PpuMemory::new(pattern());
    for addr in [0x2000u16, 0x3eff, 0x3f20, 0x3fff, 0xffff] {
        memory.write(addr, 0x55);
        assert_eq!(memory.read(addr), 0x00);
    }
    assert_eq!(memory.read(0x3f00), 0x00);
}

#[test]
fn ppu_starts_with_latch_clear() {
    let ppu = Ppu::new(pattern());
    assert!(!ppu.write_latch());
    assert_eq!(ppu.vram_addr(), 0x0000);
}

#[test]
fn oam_data_write_increments_the_address() {
    let mut ppu = Ppu::new(pattern());
    ppu.write_register(PpuRegister::OamAddr, 0xfe);
    ppu.write_register(PpuRegister::OamData, 0x01);
    ppu.write_register(PpuRegister::OamData, 0x02);
    // the address wrapped to zero
    ppu.write_register(PpuRegister::OamData, 0x03);
    // reading does not move the address
    ppu.write_register(PpuRegister::OamAddr, 0xfe);
    assert_eq!(ppu.read_register(PpuRegister::OamData), 0x01);
    assert_eq!(ppu.read_register(PpuRegister::OamData), 0x01);
    ppu.write_register(PpuRegister::OamAddr, 0xff);
    assert_eq!(ppu.read_register(PpuRegister::OamData), 0x02);
    ppu.write_register(PpuRegister::OamAddr, 0x00);
    assert_eq!(ppu.read_register(PpuRegister::OamData), 0x03);
}

#[test]
fn address_register_is_loaded_in_two_writes() {
    let mut ppu = Ppu::new(pattern());
    ppu.write_register(PpuRegister::PpuAddr, 0x12);
    assert_eq!(ppu.vram_addr(), 0x1200);
    assert!(ppu.write_latch());
    ppu.write_register(PpuRegister::PpuAddr, 0x34);
    assert_eq!(ppu.vram_addr(), 0x1234);
    assert!(!ppu.write_latch());
    // a new first write clears the low byte
    ppu.write_register(PpuRegister::PpuAddr, 0x0f);
    assert_eq!(ppu.vram_addr(), 0x0f00);
}

#[test]
fn address_register_is_clamped_after_the_second_write() {
    let mut ppu = Ppu::new(pattern());
    ppu.write_register(PpuRegister::PpuAddr, 0xff);
    assert_eq!(ppu.vram_addr(), 0xff00);
    ppu.write_register(PpuRegister::PpuAddr, 0xff);
    assert_eq!(ppu.vram_addr(), 0x3fff);
    ppu.write_register(PpuRegister::PpuAddr, 0x40);
    ppu.write_register(PpuRegister::PpuAddr, 0x00);
    assert_eq!(ppu.vram_addr(), 0x3fff);
    ppu.write_register(PpuRegister::PpuAddr, 0x3f);
    ppu.write_register(PpuRegister::PpuAddr, 0xff);
    assert_eq!(ppu.vram_addr(), 0x3fff);
    ppu.write_register(PpuRegister::PpuAddr, 0x3f);
    ppu.write_register(PpuRegister::PpuAddr, 0xfe);
    assert_eq!(ppu.vram_addr(), 0x3ffe);
}

#[test]
fn data_register_reads_and_writes_at_the_address() {
    let mut ppu = Ppu::new(pattern());
    ppu.write_register(PpuRegister::PpuAddr, 0x3f);
    ppu.write_register(PpuRegister::PpuAddr, 0x1f);
    ppu.write_register(PpuRegister::PpuData, 0x3c);
    assert_eq!(ppu.read_register(PpuRegister::PpuData), 0x3c);
    assert_eq!(ppu.memory().read(0x3f1f), 0x3c);
    assert_eq!(ppu.vram_addr(), 0x3f1f);
    ppu.write_register(PpuRegister::PpuAddr, 0x0f);
    ppu.write_register(PpuRegister::PpuAddr, 0xff);
    assert_eq!(ppu.read_register(PpuRegister::PpuData), 0xa2);
    ppu.write_register(PpuRegister::PpuData, 0x00);
    assert_eq!(ppu.read_register(PpuRegister::PpuData), 0xa2);
}

#[test]
fn status_read_returns_status_and_clears_the_latch() {
    let mut ppu = Ppu::new(pattern());
    ppu.write_register(PpuRegister::PpuAddr, 0x20);
    assert!(ppu.write_latch());
    assert_eq!(ppu.read_register(PpuRegister::PpuStatus), 0x00);
    assert!(!ppu.write_latch());
    assert_eq!(ppu.vram_addr(), 0x2000);
}

#[test]
fn unreadable_registers_read_zero_without_change() {
    let mut ppu = Ppu::new(pattern());
    ppu.write_register(PpuRegister::PpuCtrl, 0xff);
    ppu.write_register(PpuRegister::PpuMask, 0xff);
    ppu.write_register(PpuRegister::OamAddr, 0x07);
    ppu.write_register(PpuRegister::PpuAddr, 0x3f);
    for reg in [
        PpuRegister::PpuCtrl,
        PpuRegister::PpuMask,
        PpuRegister::OamAddr,
        PpuRegister::PpuScroll,
        PpuRegister::PpuAddr,
        PpuRegister::OamDma,
    ] {
        assert_eq!(ppu.read_register(reg), 0x00);
    }
    assert!(ppu.write_latch());
    assert_eq!(ppu.vram_addr(), 0x3f00);
}

#[test]
fn writes_to_registers_without_effect() {
    let mut ppu = Ppu::new(pattern());
    ppu.write_register(PpuRegister::PpuStatus, 0xff);
    ppu.write_register(PpuRegister::PpuScroll, 0xff);
    ppu.write_register(PpuRegister::OamDma, 0xff);
    assert_eq!(ppu.read_register(PpuRegister::PpuStatus), 0x00);
    assert!(!ppu.write_latch());
    assert_eq!(ppu.vram_addr(), 0x0000);
    assert_eq!(ppu.read_register(PpuRegister::OamData), 0x00);
}
