//! How the colour of a background pixel follows from the registers and the
//! memory of the PPU.

use vstd::prelude::*;
use crate::cart::Cart;
use crate::ppu::ppu_memory::{spec_tile_addr, PPUMemory, TilePattern};
use crate::ppu::registers::{PPUCtrl, PPUReg};
use crate::ppu::Color;

verus! {

/// Tiles in one row of a nametable.
pub const NAMETABLE_WIDTH: u16 = 32;

/// The offset of the attribute table in its nametable.
pub const ATTRIBUTE_OFFSET: u16 = 0x03C0;

pub proof fn lemma_fine_bits(fine_x: u32, y: u16)
    by (bit_vector)
    ensures
        fine_x & 0x07 <= 7,
        y & 0x07 <= 7,
{
}

proof fn lemma_color_bits(lo: u8, hi: u8, shift: u32)
    by (bit_vector)
    requires
        shift <= 7,
    ensures
        ((lo >> shift) & 0x01) | (((hi >> shift) & 0x01) << 1u8) <= 3,
{
}

proof fn lemma_palette_bits(at: u8)
    by (bit_vector)
    ensures
        at & 0x03 <= 3,
{
}

pub proof fn lemma_palette_offset(palette_id: u8, color_id: u8)
    by (bit_vector)
    ensures
        0x3F00u16 + (((palette_id << 2u8) | color_id) as u16) < 0x4000,
        0x3F00u16 + (((palette_id << 2u8) | color_id) as u16) >= 0x3F00,
{
}

/// The address of the nametable byte for the pixel at `(px_x, px_y)`.
pub open spec fn spec_nametable_addr(ctrl: PPUCtrl, px_x: u16, px_y: u16) -> u16 {
    (ctrl.spec_nametable_addr() + (px_y / 8) * NAMETABLE_WIDTH + px_x / 8) as u16
}

/// The address of the attribute byte for the pixel at `(x, y)`.
pub open spec fn spec_attribute_addr(ctrl: PPUCtrl, x: u16, y: u16) -> u16 {
    (ctrl.spec_nametable_addr() + ATTRIBUTE_OFFSET + (y / 32) * 8 + x / 32) as u16
}

/// The two-bit colour of column `fine_x & 7` of a row of a tile: bit
/// `7 - column` of the low plane, and above it that of the high plane.
pub open spec fn spec_color_in_pattern(pattern: TilePattern, fine_x: u32) -> u8 {
    let shift = (7 - (fine_x & 0x07)) as u32;
    ((pattern.lo >> shift) & 0x01) | (((pattern.hi >> shift) & 0x01) << 1u8)
}

/// The two palette bits in an attribute byte for the pixel at `(x, y)`:
/// each quadrant of 16 by 16 pixels has its own pair.
pub open spec fn spec_palette_from_attribute(attr: u8, x: u16, y: u16) -> u8 {
    let rows: u8 = if y & 0x10 != 0 {
        attr >> 4u8
    } else {
        attr
    };
    let columns: u8 = if x & 0x10 != 0 {
        rows >> 2u8
    } else {
        rows
    };
    columns & 0x03
}

/// The row of the tile under the pixel at `(x, y)`.
pub open spec fn spec_tile_pattern<C: Cart>(mem: &PPUMemory<C>, ctrl: PPUCtrl, x: u16, y: u16)
    -> TilePattern {
    let tile_id = mem.spec_read(spec_nametable_addr(ctrl, x, y));
    let table = ctrl.spec_background_table();
    TilePattern {
        lo: mem.cart.chr(spec_tile_addr(tile_id, 0, y & 0x07, table)),
        hi: mem.cart.chr(spec_tile_addr(tile_id, 8, y & 0x07, table)),
    }
}

/// The two-bit colour of the background at `(x, y)`.
pub open spec fn spec_color_id<C: Cart>(mem: &PPUMemory<C>, ctrl: PPUCtrl, x: u16, y: u16)
    -> u8 {
    spec_color_in_pattern(spec_tile_pattern(mem, ctrl, x, y), (x as u32) & 0x07)
}

/// The palette of the background at `(x, y)`.
pub open spec fn spec_palette_id<C: Cart>(mem: &PPUMemory<C>, ctrl: PPUCtrl, x: u16, y: u16)
    -> u8 {
    spec_palette_from_attribute(mem.spec_read(spec_attribute_addr(ctrl, x, y)), x, y)
}

/// The address of colour `color_id` of palette `palette_id`.
pub open spec fn spec_palette_addr(palette_id: u8, color_id: u8) -> u16 {
    (0x3F00u16 + (((palette_id << 2u8) | color_id) as u16)) as u16
}

/// Colour `color_id` of palette `palette_id`.
pub open spec fn spec_read_palette<C: Cart>(mem: &PPUMemory<C>, palette_id: u8, color_id: u8)
    -> Color {
    Color::spec_from_bits_truncate(mem.spec_read(spec_palette_addr(palette_id, color_id)))
}

/// The colour of the background at the screen position `(screen_x,
/// screen_y)`: the scroll moves the position, the nametable names the tile,
/// the pattern gives the colour in the palette, the attribute table the
/// palette.
pub open spec fn spec_background_pixel<C: Cart>(
    mem: &PPUMemory<C>,
    reg: PPUReg,
    screen_x: u16,
    screen_y: u16,
) -> Color {
    let x = (screen_x + reg.spec_scroll_x()) as u16;
    let y = (screen_y + reg.spec_scroll_y()) as u16;
    spec_read_palette(
        mem,
        spec_palette_id(mem, reg.ppuctrl, x, y),
        spec_color_id(mem, reg.ppuctrl, x, y),
    )
}

/// See `spec_nametable_addr`.
pub fn get_nametable_addr(ctrl: &PPUCtrl, px_x: u16, px_y: u16) -> (addr: u16)
    requires
        px_x < 512,
        px_y < 512,
    ensures
        addr == spec_nametable_addr(*ctrl, px_x, px_y),
        0x2000 <= addr < 0x3F00,
{
    let x = px_x / 8;
    let y = px_y / 8;
    ctrl.nametable_addr() + y * NAMETABLE_WIDTH + x
}

/// See `spec_attribute_addr`.
pub fn get_attribute_addr(ctrl: &PPUCtrl, x: u16, y: u16) -> (addr: u16)
    requires
        x < 512,
        y < 512,
    ensures
        addr == spec_attribute_addr(*ctrl, x, y),
        0x2000 <= addr < 0x3F00,
{
    let x = x / 32;
    let y = y / 32;
    let attr_table = ctrl.nametable_addr() + ATTRIBUTE_OFFSET;
    attr_table + (y * 8) + x
}

/// See `spec_color_in_pattern`.
pub fn get_color_in_pattern(pattern: TilePattern, fine_x: u32) -> (color_id: u8)
    ensures
        color_id == spec_color_in_pattern(pattern, fine_x),
        color_id <= 3,
{
    proof {
        lemma_fine_bits(fine_x, 0);
    }
    let shift: u32 = 7 - (fine_x & 0x07);
    proof {
        lemma_color_bits(pattern.lo, pattern.hi, shift);
    }
    let color_id_lo = (pattern.lo >> shift) & 0x01;
    let color_id_hi = ((pattern.hi >> shift) & 0x01) << 1u8;
    color_id_lo | color_id_hi
}

/// See `spec_palette_from_attribute`.
pub fn get_palette_from_attribute(attr: u8, x: u16, y: u16) -> (palette_id: u8)
    ensures
        palette_id == spec_palette_from_attribute(attr, x, y),
        palette_id <= 3,
{
    let mut at = attr;
    if y & 0x10 != 0 {
        at = at >> 4u8;
    }
    if x & 0x10 != 0 {
        at = at >> 2u8;
    }
    proof {
        lemma_palette_bits(at);
    }
    at & 0x03
}

} // verus!
