use nes_core::mappers::mapper000::{new, Mapper000};
use nes_core::mappers::MapperParams;
use nes_core::ppu::registers::{OAMEntry, PPUMask, PPUStat, BEHIND, FLIP_VERT, S_BCK, VBLANK};
use nes_core::ppu::render::{
    get_attribute_addr, get_color_in_pattern, get_nametable_addr, get_palette_from_attribute,
};
use nes_core::ppu::ppu_memory::TilePattern;
use nes_core::ppu::registers::PPUCtrl;
use nes_core::ppu::{StepResult, PPU, SCREEN_BUFFER_SIZE, SCREEN_WIDTH};
use nes_core::screen::{DummyScreen, FrameCapture};

fn create_test_ppu() -> PPU<Mapper000, DummyScreen> {
    PPU::new(new(MapperParams::simple(vec![0u8; 0x1000], vec![])), DummyScreen::new())
}

fn capturing_ppu() -> PPU<Mapper000, FrameCapture> {
    PPU::new(new(MapperParams::simple(vec![0u8; 0x1000], vec![])), FrameCapture::new())
}

#[test]
fn power_on_state() {
    let ppu = create_test_ppu();
    assert_eq!(ppu.cycle(), 0);
    assert_eq!(ppu.scanline(), 241);
    assert_eq!(ppu.frame(), 0);
    assert_eq!(ppu.screen_buffer().len(), SCREEN_BUFFER_SIZE);
    assert!(ppu.screen_buffer().iter().all(|c| c.bits() == 0));
}

#[test]
fn clock_walks_dots_scanlines_and_frames() {
    let mut ppu = create_test_ppu();
    ppu.run_to(1);
    assert_eq!((ppu.cycle(), ppu.scanline()), (3, 241));
    ppu.run_to(113);
    assert_eq!((ppu.cycle(), ppu.scanline()), (339, 241));
    ppu.run_to(114);
    assert_eq!((ppu.cycle(), ppu.scanline()), (1, 242));
    // Twenty scanlines of 341 dots lead to the line before the first
    // visible one, and to the next frame.
    ppu.run_to(2273);
    assert_eq!((ppu.cycle(), ppu.scanline(), ppu.frame()), (340, 260, 0));
    ppu.run_to(2274);
    assert_eq!((ppu.cycle(), ppu.scanline(), ppu.frame()), (2, -1, 1));
    ppu.run_to(2274 + 114);
    assert_eq!((ppu.cycle(), ppu.scanline(), ppu.frame()), (3, 0, 1));
}

#[test]
fn vblank_nmi() {
    let mut ppu = create_test_ppu();
    ppu.write(0x2000, 0x80);
    // The first vertical blank, at power-on, does not count.
    assert_eq!(ppu.run_to(1), StepResult::Continue);
    assert_eq!(ppu.read(0x2002) & 0x80, 0);
    assert_eq!(ppu.run_to(27394), StepResult::Continue);
    assert_eq!(ppu.run_to(29780), StepResult::Continue);
    assert_eq!(ppu.read(0x2002) & 0x80, 0);
    assert_eq!(ppu.run_to(29781), StepResult::NMI);
    assert_eq!((ppu.cycle(), ppu.scanline(), ppu.frame()), (1, 241, 1));
    assert_eq!(ppu.read(0x2002) & 0x80, 0x80);
    assert_eq!(ppu.read(0x2002) & 0x80, 0);
    assert_eq!(ppu.run_to(29782), StepResult::Continue);
}

#[test]
fn vblank_without_nmi() {
    let mut ppu = create_test_ppu();
    assert_eq!(ppu.run_to(30000), StepResult::Continue);
    assert!(ppu.reg.ppustat.contains(VBLANK));
    assert_eq!(ppu.read(0x2002), 0x80);
}

#[test]
fn nmi_is_reported_wherever_in_the_interval_it_was_raised() {
    let mut ppu = create_test_ppu();
    ppu.write(0x2000, 0x80);
    assert_eq!(ppu.run_to(60000), StepResult::NMI);
    assert_eq!(ppu.run_to(60001), StepResult::Continue);
}

#[test]
fn ppu_run_to_an_earlier_cycle_does_nothing() {
    let mut ppu = create_test_ppu();
    ppu.write(0x2000, 0x80);
    ppu.run_to(29781);
    let place = (ppu.cycle(), ppu.scanline(), ppu.frame());
    assert_eq!(ppu.run_to(29781), StepResult::Continue);
    assert_eq!(ppu.run_to(100), StepResult::Continue);
    assert_eq!(ppu.run_to(0), StepResult::Continue);
    assert_eq!((ppu.cycle(), ppu.scanline(), ppu.frame()), place);
    assert!(ppu.reg.ppustat.contains(VBLANK));
}

fn paint(ppu: &mut PPU<Mapper000, FrameCapture>) {
    // Tile 1, row 5: column 3 has colour 1; row 6: column 0 has colour 3.
    ppu.ppu_mem.write(0x0015, 0b0001_0000);
    ppu.ppu_mem.write(0x0016, 0b1000_0000);
    ppu.ppu_mem.write(0x001E, 0b1000_0000);
    // Tile 1 stands at the top left of the first nametable, and at column
    // 2 of tile row 2, which lies in the bottom right quadrant of its block.
    ppu.ppu_mem.write(0x2000, 1);
    ppu.ppu_mem.write(0x2000 + 2 * 32 + 2, 1);
    // The first block of 32 by 32 pixels: palette 2 top left, 1 bottom
    // right.
    ppu.ppu_mem.write(0x23C0, 0b0100_0010);
    ppu.ppu_mem.write(0x3F00, 0x0F);
    ppu.ppu_mem.write(0x3F04, 0x01);
    ppu.ppu_mem.write(0x3F08, 0x02);
    ppu.ppu_mem.write(0x3F09, 0x2C);
    ppu.ppu_mem.write(0x3F0B, 0x30);
    ppu.ppu_mem.write(0x3F05, 0x16);
}

#[test]
fn background_is_drawn_and_handed_to_the_screen() {
    let mut ppu = capturing_ppu();
    paint(&mut ppu);
    ppu.run_to(29780);
    assert_eq!(ppu.screen().count(), 0);
    ppu.run_to(29781);
    assert_eq!(ppu.screen().count(), 1);
    let frame = ppu.screen().latest();
    assert_eq!(frame[5 * SCREEN_WIDTH + 3].bits(), 0x2C);
    assert_eq!(frame[5 * SCREEN_WIDTH + 2].bits(), 0x02);
    assert_eq!(frame[6 * SCREEN_WIDTH].bits(), 0x30);
    assert_eq!(frame[(16 + 5) * SCREEN_WIDTH + 16 + 3].bits(), 0x16);
    assert_eq!(frame[(16 + 5) * SCREEN_WIDTH + 16 + 2].bits(), 0x01);
    assert_eq!(frame[100 * SCREEN_WIDTH + 100].bits(), 0x0F);
    assert_eq!(frame[239 * SCREEN_WIDTH + 255].bits(), 0x0F);
    assert_eq!(ppu.screen_buffer()[5 * SCREEN_WIDTH + 3].bits(), 0x2C);
    ppu.run_to(2 * 29781);
    assert_eq!(ppu.screen().count(), 2);
}

#[test]
fn scroll_moves_the_background() {
    let mut ppu = capturing_ppu();
    paint(&mut ppu);
    // Scroll right by 2 and down by 1.
    ppu.write(0x2005, 2);
    ppu.write(0x2005, 1);
    assert_eq!(ppu.reg.scroll_x(), 2);
    assert_eq!(ppu.reg.scroll_y(), 1);
    ppu.run_to(29781);
    let frame = ppu.screen().latest();
    assert_eq!(frame[4 * SCREEN_WIDTH + 1].bits(), 0x2C);
    assert_eq!(frame[5 * SCREEN_WIDTH + 3].bits(), 0x02);
}

#[test]
fn second_nametable_and_pattern_table() {
    let mut params = MapperParams::simple(vec![0u8; 0x1000], vec![]);
    params.mirroring_mode = nes_core::cart::ScreenMode::Vertical;
    let mut ppu = PPU::new(new(params), FrameCapture::new());
    ppu.write(0x2000, 0b0001_0001);
    ppu.ppu_mem.write(0x1020, 0xFF);
    ppu.ppu_mem.write(0x2400, 2);
    ppu.ppu_mem.write(0x3F01, 0x21);
    ppu.run_to(29781);
    let frame = ppu.screen().latest();
    assert_eq!(frame[0].bits(), 0x21);
    assert_eq!(frame[7].bits(), 0x21);
    assert_eq!(frame[8].bits(), 0x00);
    assert_eq!(frame[SCREEN_WIDTH].bits(), 0x00);
}

#[test]
fn pixel_arithmetic() {
    let ctrl = PPUCtrl::new(0b0000_0010);
    assert_eq!(get_nametable_addr(&ctrl, 0, 0), 0x2800);
    assert_eq!(get_nametable_addr(&ctrl, 255, 239), 0x2800 + 29 * 32 + 31);
    assert_eq!(get_attribute_addr(&ctrl, 0, 0), 0x2BC0);
    assert_eq!(get_attribute_addr(&ctrl, 255, 239), 0x2BC0 + 7 * 8 + 7);
    let pattern = TilePattern { lo: 0b1000_0001, hi: 0b1000_0010 };
    assert_eq!(get_color_in_pattern(pattern, 0), 3);
    assert_eq!(get_color_in_pattern(pattern, 6), 2);
    assert_eq!(get_color_in_pattern(pattern, 7), 1);
    assert_eq!(get_color_in_pattern(pattern, 3), 0);
    assert_eq!(get_color_in_pattern(pattern, 8), 3);
    assert_eq!(get_palette_from_attribute(0b1110_0100, 0, 0), 0);
    assert_eq!(get_palette_from_attribute(0b1110_0100, 16, 0), 1);
    assert_eq!(get_palette_from_attribute(0b1110_0100, 0, 16), 2);
    assert_eq!(get_palette_from_attribute(0b1110_0100, 16, 16), 3);
    assert_eq!(get_palette_from_attribute(0b1110_0100, 32 + 15, 32 + 15), 0);
}

#[test]
fn register_types() {
    let mut stat = PPUStat::from_bits_truncate(0xFF);
    assert_eq!(stat.bits(), 0xE0);
    stat.remove(VBLANK);
    assert_eq!(stat.bits(), 0x60);
    stat.insert(VBLANK);
    assert!(stat.contains(VBLANK));
    assert_eq!(PPUStat::empty().bits(), 0);
    let mask = PPUMask::from_bits_truncate(0x1F);
    assert!(mask.contains(S_BCK));
    assert_eq!(mask.bits(), 0x1F);
    assert_eq!(PPUMask::empty().bits(), 0);
    let entry = OAMEntry::new(1, 2, 0xFF, 4);
    assert_eq!(entry.attr.bits(), 0xE3);
    assert!(entry.attr.contains(FLIP_VERT | BEHIND));
    assert_eq!((entry.read(0), entry.read(1), entry.read(2), entry.read(7)), (1, 2, 0xE3, 4));
    assert_eq!(OAMEntry::zero(), OAMEntry::new(0, 0, 0, 0));
    let ctrl = PPUCtrl::new(0x68);
    assert_eq!(ctrl.sprite_table(), 0x1000);
    assert_eq!(ctrl.sprite_size(), nes_core::ppu::registers::SpriteSize::Tall);
    assert_eq!(ctrl.master_slave(), nes_core::ppu::registers::MasterSlave::Master);
}
