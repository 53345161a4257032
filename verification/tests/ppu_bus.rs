use nes_core::mapper::Mirroring;
use nes_core::ppu_bus::{PpuAddr, PpuBus};

#[test]
fn ciram_mirror_horizontal() {
    let mut ppu_bus = PpuBus::new();
    ppu_bus.mirror_shift = Mirroring::Horizontal as u32;

    assert_eq!(ppu_bus.ciram_mirror(0x2000), 0x0000);
    assert_eq!(ppu_bus.ciram_mirror(0x2005), 0x0005);
    assert_eq!(ppu_bus.ciram_mirror(0x23FF), 0x03FF);
    assert_eq!(ppu_bus.ciram_mirror(0x2400), 0x0000);
    assert_eq!(ppu_bus.ciram_mirror(0x2405), 0x0005);
    assert_eq!(ppu_bus.ciram_mirror(0x27FF), 0x03FF);

    assert_eq!(ppu_bus.ciram_mirror(0x2800), 0x0400);
    assert_eq!(ppu_bus.ciram_mirror(0x2805), 0x0405);
    assert_eq!(ppu_bus.ciram_mirror(0x2BFF), 0x07FF);
    assert_eq!(ppu_bus.ciram_mirror(0x2C00), 0x0400);
    assert_eq!(ppu_bus.ciram_mirror(0x2C05), 0x0405);
    assert_eq!(ppu_bus.ciram_mirror(0x2FFF), 0x07FF);
}

#[test]
fn ciram_mirror_vertical() {
    let mut ppu_bus = PpuBus::new();
    ppu_bus.mirror_shift = Mirroring::Vertical as u32;

    assert_eq!(ppu_bus.ciram_mirror(0x2000), 0x0000);
    assert_eq!(ppu_bus.ciram_mirror(0x2005), 0x0005);
    assert_eq!(ppu_bus.ciram_mirror(0x23FF), 0x03FF);
    assert_eq!(ppu_bus.ciram_mirror(0x2800), 0x0000);
    assert_eq!(ppu_bus.ciram_mirror(0x2805), 0x0005);
    assert_eq!(ppu_bus.ciram_mirror(0x2BFF), 0x03FF);

    assert_eq!(ppu_bus.ciram_mirror(0x2400), 0x0400);
    assert_eq!(ppu_bus.ciram_mirror(0x2405), 0x0405);
    assert_eq!(ppu_bus.ciram_mirror(0x27FF), 0x07FF);
    assert_eq!(ppu_bus.ciram_mirror(0x2C00), 0x0400);
    assert_eq!(ppu_bus.ciram_mirror(0x2C05), 0x0405);
    assert_eq!(ppu_bus.ciram_mirror(0x2FFF), 0x07FF);
}

#[test]
fn ciram_mirror_single_screen_a() {
    let mut ppu_bus = PpuBus::new();
    ppu_bus.mirror_shift = Mirroring::SingleScreenA as u32;

    assert_eq!(ppu_bus.ciram_mirror(0x2000), 0x0000);
    assert_eq!(ppu_bus.ciram_mirror(0x2005), 0x0005);
    assert_eq!(ppu_bus.ciram_mirror(0x23FF), 0x03FF);
    assert_eq!(ppu_bus.ciram_mirror(0x2800), 0x0000);
    assert_eq!(ppu_bus.ciram_mirror(0x2805), 0x0005);
    assert_eq!(ppu_bus.ciram_mirror(0x2BFF), 0x03FF);
    assert_eq!(ppu_bus.ciram_mirror(0x2400), 0x0000);
    assert_eq!(ppu_bus.ciram_mirror(0x2405), 0x0005);
    assert_eq!(ppu_bus.ciram_mirror(0x27FF), 0x03FF);
    assert_eq!(ppu_bus.ciram_mirror(0x2C00), 0x0000);
    assert_eq!(ppu_bus.ciram_mirror(0x2C05), 0x0005);
    assert_eq!(ppu_bus.ciram_mirror(0x2FFF), 0x03FF);
}

#[test]
fn ciram_mirror_single_screen_b() {
    let mut ppu_bus = PpuBus::new();
    ppu_bus.mirror_shift = Mirroring::SingleScreenB as u32;

    assert_eq!(ppu_bus.ciram_mirror(0x2000), 0x0400);
    assert_eq!(ppu_bus.ciram_mirror(0x2005), 0x0405);
    assert_eq!(ppu_bus.ciram_mirror(0x23FF), 0x07FF);
    assert_eq!(ppu_bus.ciram_mirror(0x2800), 0x0400);
    assert_eq!(ppu_bus.ciram_mirror(0x2805), 0x0405);
    assert_eq!(ppu_bus.ciram_mirror(0x2BFF), 0x07FF);
    assert_eq!(ppu_bus.ciram_mirror(0x2400), 0x0400);
    assert_eq!(ppu_bus.ciram_mirror(0x2405), 0x0405);
    assert_eq!(ppu_bus.ciram_mirror(0x27FF), 0x07FF);
    assert_eq!(ppu_bus.ciram_mirror(0x2C00), 0x0400);
    assert_eq!(ppu_bus.ciram_mirror(0x2C05), 0x0405);
    assert_eq!(ppu_bus.ciram_mirror(0x2FFF), 0x07FF);
}

#[test]
fn horizontal_write_one_nametable_read_its_alias() {
    // 0x2000 and 0x2400 share a physical half under horizontal mirroring;
    // 0x2000 and 0x2800 do not.
    let mut bus = PpuBus::new();
    bus.mirror_shift = Mirroring::Horizontal as u32;
    bus.write(0x2000, 0x5A);
    assert_eq!(bus.peek(0x2400), 0x5A);
    assert_ne!(bus.peek(0x2800), 0x5A);
    bus.write(0x2805, 0x33);
    assert_eq!(bus.peek(0x2C05), 0x33);
    assert_ne!(bus.peek(0x2405), 0x33);
}

#[test]
fn vertical_write_one_nametable_read_its_alias() {
    let mut bus = PpuBus::new();
    bus.mirror_shift = Mirroring::Vertical as u32;
    bus.write(0x2013, 0x77);
    assert_eq!(bus.peek(0x2813), 0x77);
    assert_ne!(bus.peek(0x2413), 0x77);
}

#[test]
fn palette_mirrors_resolve_to_background_cells() {
    let bus = PpuBus::new();
    assert_eq!(bus.palette_mirror(0x3F10), 0x00);
    assert_eq!(bus.palette_mirror(0x3F14), 0x04);
    assert_eq!(bus.palette_mirror(0x3F18), 0x08);
    assert_eq!(bus.palette_mirror(0x3F1C), 0x0C);
    assert_eq!(bus.palette_mirror(0x3F00), 0x00);
    assert_eq!(bus.palette_mirror(0x3F11), 0x11);
    assert_eq!(bus.palette_mirror(0x3F20), 0x00);
    assert_eq!(bus.palette_mirror(0x3FFF), 0x1F);
}

#[test]
fn palette_alias_pairs_read_back_both_ways() {
    let mut bus = PpuBus::new();
    bus.write(0x3F10, 0xAB);
    assert_eq!(bus.peek(0x3F00), 0xAB);
    bus.write(0x3F04, 0xCD);
    assert_eq!(bus.peek(0x3F14), 0xCD);
    bus.write(0x3F18, 0x12);
    assert_eq!(bus.peek(0x3F08), 0x12);
    bus.write(0x3F0C, 0x34);
    assert_eq!(bus.peek(0x3F1C), 0x34);
}

#[test]
fn palette_space_wraps_modulo_32() {
    let mut bus = PpuBus::new();
    for offset in 0x3F00u16..0x4000u16 {
        bus.write(offset, (offset % 32) as u8);
    }
    for offset in 0x3F00u16..0x4000u16 {
        let alias = 0x3F00 + (offset % 32);
        assert_eq!(bus.peek(offset), bus.peek(alias));
    }
}

#[test]
fn reads_of_floating_space_return_the_open_bus_latch() {
    let mut bus = PpuBus::new();
    // pattern space is empty without a cartridge: the latch is returned
    bus.write(0x3F00, 0x99);
    assert_eq!(bus.read(0x0000), 0x99);
    // every successful read latches its value
    bus.write(0x2000, 0x42);
    assert_eq!(bus.read(0x2000), 0x42);
    assert_eq!(bus.read(0x1234), 0x42);
}

#[test]
fn ppu_addr_classification() {
    assert!(0x23C0u16.is_attr());
    assert!(!0x2000u16.is_attr());
    assert!(0x3F00u16.is_palette());
    assert!(!0x2000u16.is_palette());
}
