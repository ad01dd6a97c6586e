use nes_core::cart::ScreenMode;
use nes_core::mappers::mapper000::{new, Mapper000};
use nes_core::mappers::MapperParams;
use nes_core::ppu::ppu_memory::{get_tile_addr, PaletteIndex};
use nes_core::ppu::{Color, PPU};
use nes_core::screen::DummyScreen;

type TestPpu = PPU<Mapper000, DummyScreen>;

fn create_test_ppu() -> TestPpu {
    let mapper = new(MapperParams::simple(vec![0u8; 0x1000], vec![0u8; 0x1000]));
    PPU::new(mapper, DummyScreen::new())
}

fn create_test_ppu_with_mirroring(mode: ScreenMode) -> TestPpu {
    let mut params = MapperParams::simple(vec![0u8; 0x1000], vec![0u8; 0x1000]);
    params.mirroring_mode = mode;
    PPU::new(new(params), DummyScreen::new())
}

#[test]
fn ppu_memory_ppu_can_read_write_palette() {
    let mut ppu = create_test_ppu();

    ppu.reg.ppuaddr = 0x3F00;
    ppu.write(0x2007, 12);
    ppu.reg.ppuaddr = 0x3F00;
    assert_eq!(ppu.ppu_mem.palette[0], Color::from_bits_truncate(12));

    ppu.reg.ppuaddr = 0x3F01;
    ppu.write(0x2007, 212);
    ppu.reg.ppuaddr = 0x3F01;
    assert_eq!(ppu.read(0x2007), 212 & 0x3F);
}

#[test]
fn ppu_memory_test_palette_mirroring() {
    let mut ppu = create_test_ppu();

    let mirrors = [0x3F10, 0x3F14, 0x3F18, 0x3F1C];
    let targets = [0x3F00, 0x3F04, 0x3F08, 0x3F0C];
    for x in 0..4 {
        ppu.reg.ppuaddr = targets[x];
        ppu.write(0x2007, 12);
        ppu.reg.ppuaddr = mirrors[x];
        assert_eq!(ppu.read(0x2007), 12);

        ppu.reg.ppuaddr = mirrors[x];
        ppu.write(0x2007, 12);
        ppu.reg.ppuaddr = targets[x];
        assert_eq!(ppu.read(0x2007), 12);
    }
}

fn to_nametable_idx(idx: u16, tbl: u16) -> u16 {
    0x2000 + (0x0400 * tbl) + idx
}

fn assert_mirrored(ppu: &mut TestPpu, tbl1: u16, tbl2: u16) {
    for idx in 0x0000..0x0400 {
        let tbl1_idx = to_nametable_idx(idx, tbl1);
        let tbl2_idx = to_nametable_idx(idx, tbl2);

        println!(
            "Translated: tbl1: {:04X}, tbl2: {:04X}",
            ppu.ppu_mem.translate_vram_address(tbl1_idx),
            ppu.ppu_mem.translate_vram_address(tbl2_idx),
        );

        ppu.ppu_mem.write(tbl1_idx, 0xFF);
        assert_eq!(0xFF, ppu.ppu_mem.read(tbl2_idx));

        ppu.ppu_mem.write(tbl2_idx, 0x61);
        assert_eq!(0x61, ppu.ppu_mem.read(tbl1_idx));
    }
}

fn assert_not_mirrored(ppu: &mut TestPpu, tbl1: u16, tbl2: u16) {
    for idx in 0x0000..0x0400 {
        let tbl1_idx = to_nametable_idx(idx, tbl1);
        let tbl2_idx = to_nametable_idx(idx, tbl2);

        println!(
            "Translated: tbl1: {:04X}, tbl2: {:04X}",
            ppu.ppu_mem.translate_vram_address(tbl1_idx),
            ppu.ppu_mem.translate_vram_address(tbl2_idx),
        );

        ppu.ppu_mem.write(tbl1_idx, 0x00);
        ppu.ppu_mem.write(tbl2_idx, 0x00);

        ppu.ppu_mem.write(tbl1_idx, 0xFF);
        assert_eq!(0x00, ppu.ppu_mem.read(tbl2_idx));

        ppu.ppu_mem.write(tbl2_idx, 0x61);
        assert_eq!(0xFF, ppu.ppu_mem.read(tbl1_idx));
    }
}

#[test]
fn single_screen_mirroring_mirrors_both_ways() {
    let mut ppu = create_test_ppu_with_mirroring(ScreenMode::OneScreenLow);

    assert_mirrored(&mut ppu, 0, 1);
    assert_mirrored(&mut ppu, 1, 2);
    assert_mirrored(&mut ppu, 2, 3);
}

#[test]
fn four_screen_mirroring_mirrors_both_ways() {
    let mut ppu = create_test_ppu_with_mirroring(ScreenMode::FourScreen);

    assert_not_mirrored(&mut ppu, 0, 1);
    assert_not_mirrored(&mut ppu, 1, 2);
    assert_not_mirrored(&mut ppu, 2, 3);
}

#[test]
fn horizontal_mirroring_mirrors_horizontally() {
    let mut ppu = create_test_ppu_with_mirroring(ScreenMode::Horizontal);

    assert_mirrored(&mut ppu, 0, 1);
    assert_mirrored(&mut ppu, 2, 3);
    assert_not_mirrored(&mut ppu, 0, 2);
    assert_not_mirrored(&mut ppu, 1, 3);
}

#[test]
fn vertical_mirroring_mirrors_vertically() {
    let mut ppu = create_test_ppu_with_mirroring(ScreenMode::Vertical);

    assert_not_mirrored(&mut ppu, 0, 1);
    assert_not_mirrored(&mut ppu, 2, 3);
    assert_mirrored(&mut ppu, 0, 2);
    assert_mirrored(&mut ppu, 1, 3);
}

#[test]
fn one_screen_high_mirrors_every_pair() {
    let mut ppu = create_test_ppu_with_mirroring(ScreenMode::OneScreenHigh);
    for t1 in 0..4 {
        for t2 in 0..4 {
            ppu.ppu_mem.write(to_nametable_idx(0x123, t1), 0x40 + (t1 * 4 + t2) as u8);
            assert_eq!(ppu.ppu_mem.read(to_nametable_idx(0x123, t2)), 0x40 + (t1 * 4 + t2) as u8);
        }
    }
    assert_eq!(ppu.ppu_mem.translate_vram_address(0x2000), 0x400);
}

#[test]
fn four_screens_keep_every_pair_apart() {
    let mut ppu = create_test_ppu_with_mirroring(ScreenMode::FourScreen);
    for t1 in 0..4u16 {
        for t2 in 0..4u16 {
            if t1 != t2 {
                ppu.ppu_mem.write(to_nametable_idx(0x3FF, t2), 0x00);
                ppu.ppu_mem.write(to_nametable_idx(0x3FF, t1), 0x99);
                assert_eq!(ppu.ppu_mem.read(to_nametable_idx(0x3FF, t2)), 0x00);
            }
        }
    }
    assert_eq!(ppu.ppu_mem.translate_vram_address(0x2FFF), 0xFFF);
    assert_eq!(ppu.ppu_mem.translate_vram_address(0x3C00), 0xC00);
}

#[test]
fn palette_write_goes_to_both_entries_of_a_pair() {
    let mut ppu = create_test_ppu();
    ppu.ppu_mem.write(0x3F14, 0xEA);
    assert_eq!(ppu.ppu_mem.palette[0x14].bits(), 0x2A);
    assert_eq!(ppu.ppu_mem.palette[0x04].bits(), 0x2A);
    ppu.ppu_mem.write(0x3F05, 0x11);
    assert_eq!(ppu.ppu_mem.palette[0x05].bits(), 0x11);
    assert_eq!(ppu.ppu_mem.palette[0x15].bits(), 0x00);
    // The palette repeats every 32 bytes.
    assert_eq!(ppu.ppu_mem.read(0x3FE5), 0x11);
}

#[test]
fn palette_mirror_on_write() {
    let mut ppu = create_test_ppu();
    ppu.write(0x2006, 0x3F);
    ppu.write(0x2006, 0x10);
    ppu.write(0x2007, 0x2A);
    ppu.write(0x2006, 0x3F);
    ppu.write(0x2006, 0x00);
    assert_eq!(ppu.read(0x2007) & 0x3F, 0x2A);
}

#[test]
fn tile_address_is_made_of_table_tile_plane_and_row() {
    assert_eq!(get_tile_addr(0xAB, 0, 5, 0x1000), 0x1AB5);
    assert_eq!(get_tile_addr(0xAB, 8, 5, 0x0000), 0x0ABD);
}

#[test]
fn tile_pattern_and_palette_reads() {
    let mut chr_rom = vec![0u8; 0x2000];
    chr_rom[0x1AB5] = 0x81;
    chr_rom[0x1ABD] = 0x7E;
    let mut ppu = PPU::new(
        new(MapperParams::simple(vec![0u8; 0x1000], chr_rom)),
        DummyScreen::new(),
    );
    let pattern = ppu.ppu_mem.read_tile_pattern(0xAB, 5, 0x1000);
    assert_eq!(pattern.lo, 0x81);
    assert_eq!(pattern.hi, 0x7E);
    ppu.ppu_mem.write(0x3F0B, 0x27);
    let index = PaletteIndex { palette_id: 2, color_id: 3 };
    assert_eq!(index.to_index(), 0x0B);
    assert_eq!(ppu.ppu_mem.read_palette(index).bits(), 0x27);
    ppu.ppu_mem.write(0x2C05, 0x5A);
    assert_eq!(ppu.ppu_mem.read_bypass_palette(0x2C05), 0x5A);
}
