//! The memory map of the PPU: pattern memory on the cartridge, nametables in
//! video memory behind the cartridge's mirroring, and the palette.

use vstd::prelude::*;
use crate::cart::Cart;
use crate::ppu::Color;

verus! {

/// The size of the video memory: room for four nametables.
pub const VRAM_SIZE: usize = 0x1000;

/// The number of palette entries.
pub const PALETTE_SIZE: usize = 0x20;

proof fn lemma_vram_fields(idx: u16)
    by (bit_vector)
    ensures
        idx & 0x0FFF <= 0x0FFF,
        idx & 0x001F < 0x20,
{
}

proof fn lemma_tile_addr(tile_id: u8, plane: u8, fine_y_scroll: u16, tile_table: u16)
    by (bit_vector)
    requires
        plane == 0 || plane == 8,
        fine_y_scroll <= 7,
        tile_table == 0x0000 || tile_table == 0x1000,
    ensures
        fine_y_scroll | (plane as u16) | ((tile_id as u16) << 4u16) | tile_table < 0x2000,
{
}

proof fn lemma_palette_index(palette_id: u8, color_id: u8)
    by (bit_vector)
    ensures
        ((palette_id & 0x03) << 2u8) | (color_id & 0x03) < 16,
{
}

/// The two bit planes of one row of a tile.
#[derive(Clone, Copy, Debug, PartialEq, Eq, Structural)]
pub struct TilePattern {
    pub lo: u8,
    pub hi: u8,
}

/// A colour of one of the four background palettes.
#[derive(Clone, Copy, Debug, PartialEq, Eq, Structural)]
pub struct PaletteIndex {
    pub palette_id: u8,
    pub color_id: u8,
}

impl PaletteIndex {
    pub open spec fn spec_to_index(&self) -> usize {
        (((self.palette_id & 0x03) << 2u8) | (self.color_id & 0x03)) as usize
    }

    /// The place of the colour in the palette table: four colours per
    /// palette.
    #[verifier::when_used_as_spec(spec_to_index)]
    pub fn to_index(&self) -> (index: usize)
        ensures
            index == self.spec_to_index(),
            index < 16,
    {
        proof {
            lemma_palette_index(self.palette_id, self.color_id);
        }
        (((self.palette_id & 0x03) << 2u8) | (self.color_id & 0x03)) as usize
    }
}

/// The address of one plane of one row of a tile in pattern memory.
pub open spec fn spec_tile_addr(tile_id: u8, plane: u8, fine_y_scroll: u16, tile_table: u16)
    -> u16 {
    fine_y_scroll | (plane as u16) | ((tile_id as u16) << 4u16) | tile_table
}

/// The address of row `fine_y_scroll` of tile `tile_id` in the pattern
/// table at `tile_table`; `plane` is 0 for the low plane and 8 for the high.
pub fn get_tile_addr(tile_id: u8, plane: u8, fine_y_scroll: u16, tile_table: u16) -> (addr: u16)
    ensures
        addr == spec_tile_addr(tile_id, plane, fine_y_scroll, tile_table),
{
    let mut tile_addr = 0u16;
    tile_addr |= fine_y_scroll;
    tile_addr |= plane as u16;
    tile_addr |= (tile_id as u16) << 4u16;
    tile_addr |= tile_table;
    assert(tile_addr == spec_tile_addr(tile_id, plane, fine_y_scroll, tile_table)) by {
        assert(0u16 | fine_y_scroll == fine_y_scroll) by (bit_vector);
    }
    tile_addr
}

/// The place in video memory of the nametable byte at `idx`, for a
/// cartridge with the nametable bases `table`: the base of the logical
/// nametable plus the offset in it, within the video memory.
pub open spec fn spec_translate(table: Seq<u16>, idx: u16) -> int {
    let low = idx & 0x0FFF;
    (table[(low / 0x0400) as int] + low % 0x0400) % (VRAM_SIZE as int)
}

/// The palette entry that shares its colour with entry `idx`: entries
/// `0x00`, `0x04`, `0x08`, `0x0C` and `0x10`, `0x14`, `0x18`, `0x1C` come in
/// pairs. Every other entry stands for itself.
pub open spec fn palette_partner(idx: int) -> int {
    if idx % 4 != 0 {
        idx
    } else if idx < 0x10 {
        idx + 0x10
    } else {
        idx - 0x10
    }
}

/// The palette after a write of `color` to entry `idx`.
pub open spec fn spec_palette_written(palette: Seq<Color>, idx: int, color: Color) -> Seq<
    Color,
> {
    palette.update(palette_partner(idx), color).update(idx, color)
}

/// The memory map of the PPU.
pub struct PPUMemory<C: Cart> {
    pub cart: C,
    pub vram: [u8; 0x1000],
    pub palette: [Color; 0x20],
}

impl<C: Cart> PPUMemory<C> {
    pub open spec fn spec_translate_vram_address(&self, idx: u16) -> int {
        spec_translate(self.cart.mirroring(), idx)
    }

    /// The byte of video memory behind the address `idx`.
    pub open spec fn spec_read_bypass_palette(&self, idx: u16) -> u8 {
        self.vram@[self.spec_translate_vram_address(idx)]
    }

    /// The byte at `addr`: pattern memory below `0x2000`, nametables below
    /// `0x3F00`, and the palette from there.
    pub open spec fn spec_read(&self, addr: u16) -> u8 {
        if addr < 0x2000 {
            self.cart.chr(addr)
        } else if addr < 0x3F00 {
            self.spec_read_bypass_palette(addr)
        } else {
            self.palette@[(addr & 0x001F) as int]@
        }
    }

    /// True if `after` is this memory after a write of `val` to `addr`.
    pub open spec fn spec_written(&self, addr: u16, val: u8, after: &Self) -> bool {
        if addr < 0x2000 {
            &&& self.cart.chr_written(addr, val, &after.cart)
            &&& after.vram@ == self.vram@
            &&& after.palette@ == self.palette@
        } else if addr < 0x3F00 {
            &&& after.cart == self.cart
            &&& after.vram@ == self.vram@.update(self.spec_translate_vram_address(addr), val)
            &&& after.palette@ == self.palette@
        } else {
            &&& after.cart == self.cart
            &&& after.vram@ == self.vram@
            &&& after.palette@ == spec_palette_written(
                self.palette@,
                (addr & 0x001F) as int,
                Color::spec_from_bits_truncate(val),
            )
        }
    }

    /// A memory map over `cart`, with video memory and palette zeroed.
    pub fn new(cart: C) -> (mem: PPUMemory<C>)
        ensures
            mem.cart == cart,
            forall|i: int| 0 <= i < VRAM_SIZE ==> mem.vram@[i] == 0,
            forall|i: int|
                0 <= i < PALETTE_SIZE ==> mem.palette@[i] == Color::spec_from_bits_truncate(0),
    {
        PPUMemory {
            cart,
            vram: [0u8; 0x1000],
            palette: [Color::from_bits_truncate(0); 0x20],
        }
    }

    /// Reads a nametable byte.
    #[verifier::when_used_as_spec(spec_read_bypass_palette)]
    pub fn read_bypass_palette(&self, idx: u16) -> (val: u8)
        ensures
            val == self.spec_read_bypass_palette(idx),
    {
        let idx = self.translate_vram_address(idx);
        self.vram[idx]
    }

    /// Where in video memory the nametable byte at `idx` lies.
    pub fn translate_vram_address(&self, idx: u16) -> (place: usize)
        ensures
            place == self.spec_translate_vram_address(idx),
            place < VRAM_SIZE,
            self.cart.mirroring().len() == 4,
    {
        proof {
            lemma_vram_fields(idx);
        }
        let idx = idx & 0x0FFF;
        let nametable_num = (idx / 0x0400) as usize;
        let idx_in_nametable = idx % 0x0400;
        let table: &[u16; 4] = self.cart.get_mirroring_table();
        let translated = table[nametable_num] as usize + idx_in_nametable as usize;
        translated % VRAM_SIZE
    }

    /// The colour of a background palette.
    pub fn read_palette(&self, idx: PaletteIndex) -> (color: Color)
        ensures
            color == self.palette@[idx.spec_to_index() as int],
    {
        self.palette[idx.to_index()]
    }

    /// Both planes of row `fine_y_scroll` of tile `tile_id` in the pattern
    /// table at `tile_table`.
    pub fn read_tile_pattern(&self, tile_id: u8, fine_y_scroll: u16, tile_table: u16) -> (pattern:
        TilePattern)
        requires
            fine_y_scroll <= 7,
            tile_table == 0x0000 || tile_table == 0x1000,
        ensures
            pattern.lo == self.cart.chr(spec_tile_addr(tile_id, 0, fine_y_scroll, tile_table)),
            pattern.hi == self.cart.chr(spec_tile_addr(tile_id, 8, fine_y_scroll, tile_table)),
    {
        proof {
            lemma_tile_addr(tile_id, 0, fine_y_scroll, tile_table);
            lemma_tile_addr(tile_id, 8, fine_y_scroll, tile_table);
        }
        let lo_addr = get_tile_addr(tile_id, 0, fine_y_scroll, tile_table);
        let hi_addr = get_tile_addr(tile_id, 8, fine_y_scroll, tile_table);
        TilePattern { lo: self.read(lo_addr), hi: self.read(hi_addr) }
    }

    /// Reads the byte at `addr`.
    #[verifier::when_used_as_spec(spec_read)]
    pub fn read(&self, addr: u16) -> (val: u8)
        requires
            addr < 0x4000,
        ensures
            val == self.spec_read(addr),
            addr >= 0x3F00 ==> val <= 0x3F,
    {
        if addr < 0x2000 {
            self.cart.chr_read(addr)
        } else if addr < 0x3F00 {
            self.read_bypass_palette(addr)
        } else {
            proof {
                lemma_vram_fields(addr);
            }
            self.palette[(addr & 0x001F) as usize].bits()
        }
    }

    /// Writes `val` to `addr`. A write to the palette keeps the low six
    /// bits, and goes to the partner of the entry as well.
    pub fn write(&mut self, addr: u16, val: u8)
        requires
            addr < 0x4000,
        ensures
            old(self).spec_written(addr, val, final(self)),
    {
        if addr < 0x2000 {
            self.cart.chr_write(addr, val);
        } else if addr < 0x3F00 {
            let idx = self.translate_vram_address(addr);
            self.vram[idx] = val;
        } else {
            proof {
                lemma_vram_fields(addr);
            }
            let val = Color::from_bits_truncate(val);
            let idx = (addr & 0x001F) as usize;
            if idx % 4 == 0 {
                if idx < 0x10 {
                    self.palette[idx + 0x10] = val;
                } else {
                    self.palette[idx - 0x10] = val;
                }
            }
            self.palette[idx] = val;
            assert(self.palette@ =~= spec_palette_written(
                old(self).palette@,
                (addr & 0x001F) as int,
                val,
            ));
        }
    }
}

} // verus!
