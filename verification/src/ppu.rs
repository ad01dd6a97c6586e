//! The picture processing unit: its register file, its memory bus and the
//! renderer that draws one pixel per dot.

pub mod laws;
pub mod ppu_memory;
pub mod registers;
pub mod render;
pub mod state;

use vstd::prelude::*;
use crate::cart::Cart;
use crate::cpu::MAX_CYCLE;
use crate::ppu::ppu_memory::{spec_tile_addr, PPUMemory, TilePattern};
use crate::ppu::registers::{
    write_addr_byte, AddrByte, OAMEntry, PPUCtrl, PPUMask, PPUReg, PPUStat, VBLANK,
};
use crate::ppu::render::{
    get_attribute_addr, get_color_in_pattern, get_nametable_addr, get_palette_from_attribute,
    lemma_fine_bits, lemma_palette_offset, spec_background_pixel, spec_color_id, spec_palette_id,
    spec_read_palette,
};
use crate::ppu::state::PpuView;
use crate::screen::Screen;

verus! {

pub const SCREEN_WIDTH: usize = 256;

pub const SCREEN_HEIGHT: usize = 240;

pub const SCREEN_BUFFER_SIZE: usize = SCREEN_WIDTH * SCREEN_HEIGHT;

/// A colour of the NES: six bits.
#[derive(Clone, Copy, Debug, PartialEq, Eq, Structural)]
pub struct Color(u8);

impl Color {
    #[verifier::type_invariant]
    spec fn six_bits(self) -> bool {
        self.0 <= 0x3F
    }

    /// The bits of the colour.
    pub closed spec fn view(&self) -> u8 {
        self.0
    }

    pub closed spec fn spec_from_bits_truncate(val: u8) -> Color {
        Color(val & 0x3F)
    }

    /// The colour made from a byte has its low six bits.
    pub proof fn lemma_from_bits(val: u8)
        ensures
            Color::spec_from_bits_truncate(val)@ == val & 0x3F,
            Color::spec_from_bits_truncate(val)@ <= 0x3F,
    {
        assert(val & 0x3F <= 0x3F) by (bit_vector);
    }

    /// Two colours with the same bits are the same colour.
    pub proof fn lemma_same_bits(a: Color, b: Color)
        requires
            a@ == b@,
        ensures
            a == b,
    {
    }

    /// The colour with the low six bits of `val`.
    #[verifier::when_used_as_spec(spec_from_bits_truncate)]
    pub fn from_bits_truncate(val: u8) -> (c: Color)
        ensures
            c == Color::spec_from_bits_truncate(val),
            c@ == val & 0x3F,
    {
        assert(val & 0x3F <= 0x3F) by (bit_vector);
        Color(val & 0x3F)
    }

    pub fn bits(&self) -> (b: u8)
        ensures
            b == self@,
            b <= 0x3F,
    {
        proof {
            use_type_invariant(self);
        }
        self.0
    }
}

/// What `run_to` reports to the CPU.
#[derive(Clone, Copy, Debug, PartialEq, Eq, Structural)]
pub enum StepResult {
    NMI,
    Continue,
}

proof fn lemma_bus_addr(addr: u16)
    by (bit_vector)
    ensures
        addr & 0x3FFF < 0x4000,
{
}

/// The PPU. It does three dots per CPU cycle and is driven by `run_to`.
pub struct PPU<C: Cart, S: Screen> {
    pub reg: PPUReg,
    pub oam: [OAMEntry; 64],
    pub ppu_mem: PPUMemory<C>,
    screen: S,
    screen_buffer: [Color; SCREEN_BUFFER_SIZE],
    global_cyc: u64,
    cyc: u16,
    sl: i16,
    frame: u64,
}

impl<C: Cart, S: Screen> PPU<C, S> {
    pub closed spec fn view(&self) -> PpuView<C> {
        PpuView {
            reg: self.reg,
            oam: self.oam@,
            mem: self.ppu_mem,
            screen_buffer: self.screen_buffer@,
            frames: self.screen.frames(),
            global_cyc: self.global_cyc as int,
            cyc: self.cyc as int,
            sl: self.sl as int,
            frame: self.frame as int,
        }
    }

    pub open spec fn wf(&self) -> bool {
        self@.wf()
    }

    /// A PPU at power-on: registers, sprite memory, video memory and frame
    /// all zero, the clock at the first dot of scanline 241.
    pub fn new(cart: C, screen: S) -> (ppu: PPU<C, S>)
        ensures
            ppu.wf(),
            ppu@.reg == PPUReg::initial(),
            ppu@.oam == Seq::new(64, |i: int| OAMEntry::spec_new(0, 0, 0, 0)),
            ppu@.mem.cart == cart,
            forall|i: int| 0 <= i < 0x1000 ==> ppu@.mem.vram@[i] == 0,
            forall|i: int|
                0 <= i < 0x20 ==> ppu@.mem.palette@[i] == Color::spec_from_bits_truncate(0),
            ppu@.screen_buffer == Seq::new(
                SCREEN_BUFFER_SIZE as nat,
                |i: int| Color::spec_from_bits_truncate(0),
            ),
            ppu@.frames == screen.frames(),
            ppu@.global_cyc == 0,
            ppu@.cyc == 0,
            ppu@.sl == 241,
            ppu@.frame == 0,
    {
        let ppu = PPU {
            reg: PPUReg {
                ppuctrl: PPUCtrl::empty(),
                ppumask: PPUMask::empty(),
                ppustat: PPUStat::empty(),
                oamaddr: 0,
                ppuscroll: 0,
                ppuaddr: 0,
                dyn_latch: 0,
                address_latch: AddrByte::High,
            },
            oam: [OAMEntry::zero(); 64],
            ppu_mem: PPUMemory::new(cart),
            screen_buffer: [Color::from_bits_truncate(0x00); 61440],
            screen,
            global_cyc: 0,
            cyc: 0,
            sl: 241,
            frame: 0,
        };
        assert(ppu@.oam =~= Seq::new(64, |i: int| OAMEntry::spec_new(0, 0, 0, 0)));
        assert(ppu@.screen_buffer =~= Seq::new(
            SCREEN_BUFFER_SIZE as nat,
            |i: int| Color::spec_from_bits_truncate(0),
        ));
        ppu
    }

    /// Moves the address register on after an access to the data register.
    fn incr_ppuaddr(&mut self)
        ensures
            final(self)@ == (PpuView { reg: old(self)@.reg.spec_incr_ppuaddr(), ..old(self)@ }),
    {
        let incr_size = self.reg.ppuctrl.vram_addr_step();
        self.reg.ppuaddr = self.reg.ppuaddr.wrapping_add(incr_size);
    }

    /// Runs the PPU up to the CPU cycle `cpu_cycle`, three dots per cycle,
    /// and returns `NMI` if a vertical blank that began on the way raised
    /// one. A PPU that is already there stays as it is.
    pub fn run_to(&mut self, cpu_cycle: u64) -> (result: StepResult)
        requires
            old(self).wf(),
            cpu_cycle <= MAX_CYCLE,
        ensures
            final(self).wf(),
            final(self)@ == old(self)@.spec_run_to(cpu_cycle as int),
            result == old(self)@.run_result(cpu_cycle as int),
            final(self)@.global_cyc == if old(self)@.global_cyc >= 3 * cpu_cycle {
                old(self)@.global_cyc
            } else {
                3 * cpu_cycle
            },
            old(self)@.global_cyc >= 3 * cpu_cycle ==> final(self)@ == old(self)@ && result
                == StepResult::Continue,
    {
        let mut hit_nmi = false;
        let target: u64 = cpu_cycle * 3;
        while self.global_cyc < target
            invariant
                self.wf(),
                target == 3 * cpu_cycle,
                cpu_cycle <= MAX_CYCLE,
                old(self)@.spec_run_dots(target as int) == self@.spec_run_dots(target as int),
                old(self)@.dots_nmi(target as int) == (hit_nmi || self@.dots_nmi(target as int)),
                old(self)@.global_cyc >= target ==> self@ == old(self)@ && !hit_nmi,
                old(self)@.global_cyc < target ==> self@.global_cyc <= target,
            decreases target - self.global_cyc,
        {
            self.tick_cycle();
            let nmi = self.run_cycle();
            hit_nmi = hit_nmi || nmi;
        }
        if hit_nmi {
            StepResult::NMI
        } else {
            StepResult::Continue
        }
    }

    /// Moves the clock on by one dot.
    fn tick_cycle(&mut self)
        requires
            old(self).wf(),
            old(self)@.global_cyc < 3 * MAX_CYCLE,
        ensures
            final(self).wf(),
            final(self)@ == old(self)@.spec_tick_cycle(),
    {
        self.global_cyc += 1;
        self.cyc += 1;
        if self.cyc == 341 {
            self.cyc = 0;
            self.sl += 1;
            if self.sl == 261 {
                self.sl = -1;
                self.frame += 1;
            }
        }
    }

    /// Does the work of the current dot and tells whether it raised an NMI.
    fn run_cycle(&mut self) -> (nmi: bool)
        requires
            old(self).wf(),
        ensures
            final(self).wf(),
            final(self)@ == old(self)@.spec_run_cycle(),
            nmi == old(self)@.raises_nmi(),
    {
        if self.sl == -1 {
            self.prerender_scanline(self.cyc);
        } else if self.sl <= 239 {
            self.visible_scanline(self.cyc, self.sl);
        } else if self.sl == 241 && self.cyc == 1 {
            return self.start_vblank();
        }
        false
    }

    /// The scanline before the first visible one draws nothing.
    fn prerender_scanline(&mut self, _pixel: u16)
        ensures
            *final(self) == *old(self),
    {
    }

    /// Draws the pixel of dot `pixel` of the visible scanline `scanline`.
    /// Dots 1 to 256 draw columns 0 to 255; the other dots draw nothing.
    fn visible_scanline(&mut self, pixel: u16, scanline: i16)
        requires
            old(self).wf(),
            pixel == old(self)@.cyc,
            scanline == old(self)@.sl,
            0 <= scanline <= 239,
        ensures
            final(self).wf(),
            final(self)@ == old(self)@.spec_run_cycle(),
    {
        if pixel < 1 || pixel > 256 {
            return ;
        }
        let x = (pixel - 1) as usize;
        let y = scanline as usize;
        let color = self.get_pixel(x as u16, y as u16);
        self.screen_buffer[y * SCREEN_WIDTH + x] = color;
    }

    /// The colour of the pixel at `(x, y)` of the screen.
    fn get_pixel(&self, x: u16, y: u16) -> (color: Color)
        requires
            x < 256,
            y < 256,
        ensures
            color == spec_background_pixel(&self.ppu_mem, self.reg, x, y),
    {
        self.get_background_pixel(x, y)
    }

    /// The colour of the background at `(screen_x, screen_y)` of the screen.
    fn get_background_pixel(&self, screen_x: u16, screen_y: u16) -> (color: Color)
        requires
            screen_x < 256,
            screen_y < 256,
        ensures
            color == spec_background_pixel(&self.ppu_mem, self.reg, screen_x, screen_y),
    {
        let x = screen_x + self.reg.scroll_x() as u16;
        let y = screen_y + self.reg.scroll_y() as u16;
        let color_id = self.get_color_id(x, y);
        let palette_id = self.get_palette_id(x, y);
        self.read_palette(palette_id, color_id)
    }

    /// The two-bit colour of the background at `(x, y)` of the nametable.
    fn get_color_id(&self, x: u16, y: u16) -> (color_id: u8)
        requires
            x < 512,
            y < 512,
        ensures
            color_id == spec_color_id(&self.ppu_mem, self.reg.ppuctrl, x, y),
    {
        let nametable_addr = get_nametable_addr(&self.reg.ppuctrl, x, y);
        let tile_idx = self.ppu_mem.read(nametable_addr);
        let tile_table = self.reg.ppuctrl.background_table();
        proof {
            lemma_fine_bits(0, y);
        }
        let pattern = self.read_tile_pattern(tile_idx, y & 0x07, tile_table);
        get_color_in_pattern(pattern, x as u32 & 0x07)
    }

    /// Both planes of row `fine_y_scroll` of tile `tile_id`.
    fn read_tile_pattern(&self, tile_id: u8, fine_y_scroll: u16, tile_table: u16) -> (pattern:
        TilePattern)
        requires
            fine_y_scroll <= 7,
            tile_table == 0x0000 || tile_table == 0x1000,
        ensures
            pattern.lo == self.ppu_mem.cart.chr(
                spec_tile_addr(tile_id, 0, fine_y_scroll, tile_table),
            ),
            pattern.hi == self.ppu_mem.cart.chr(
                spec_tile_addr(tile_id, 8, fine_y_scroll, tile_table),
            ),
    {
        self.ppu_mem.read_tile_pattern(tile_id, fine_y_scroll, tile_table)
    }

    /// The palette of the background at `(x, y)` of the nametable.
    fn get_palette_id(&self, x: u16, y: u16) -> (palette_id: u8)
        requires
            x < 512,
            y < 512,
        ensures
            palette_id == spec_palette_id(&self.ppu_mem, self.reg.ppuctrl, x, y),
    {
        let attribute_addr = get_attribute_addr(&self.reg.ppuctrl, x, y);
        let attribute_byte = self.ppu_mem.read(attribute_addr);
        get_palette_from_attribute(attribute_byte, x, y)
    }

    /// Colour `color_id` of palette `palette_id`.
    fn read_palette(&self, palette_id: u8, color_id: u8) -> (color: Color)
        ensures
            color == spec_read_palette(&self.ppu_mem, palette_id, color_id),
    {
        proof {
            lemma_palette_offset(palette_id, color_id);
        }
        let offset = (palette_id << 2u8) | color_id;
        let bits = self.ppu_mem.read(0x3F00 + offset as u16);
        Color::from_bits_truncate(bits)
    }

    /// The start of the vertical blank. After the first frame, the flag
    /// goes up, the frame goes to the screen, and the result tells whether
    /// the control register asks for an NMI.
    fn start_vblank(&mut self) -> (nmi: bool)
        requires
            old(self).wf(),
            old(self)@.cyc == 1,
            old(self)@.sl == 241,
        ensures
            final(self).wf(),
            final(self)@ == old(self)@.spec_run_cycle(),
            nmi == old(self)@.raises_nmi(),
    {
        if self.frame > 0 {
            self.reg.ppustat.insert(VBLANK);
            self.screen.draw(&self.screen_buffer);
            self.reg.ppuctrl.generate_vblank_nmi()
        } else {
            false
        }
    }

    /// The dot in the scanline.
    pub fn cycle(&self) -> (cyc: u16)
        ensures
            cyc == self@.cyc,
    {
        self.cyc
    }

    /// The scanline.
    pub fn scanline(&self) -> (sl: i16)
        ensures
            sl == self@.sl,
    {
        self.sl
    }

    /// The frames begun since power-on.
    pub fn frame(&self) -> (frame: u64)
        ensures
            frame == self@.frame,
    {
        self.frame
    }

    /// The screen of this PPU.
    pub fn screen(&self) -> (screen: &S)
        ensures
            screen.frames() == self@.frames,
    {
        &self.screen
    }

    /// The frame that is being drawn.
    pub fn screen_buffer(&self) -> (buf: &[Color; SCREEN_BUFFER_SIZE])
        ensures
            buf@ == self@.screen_buffer,
    {
        &self.screen_buffer
    }

    /// A read of register `idx % 8`. The write-only registers return the
    /// last byte written to any register. The status register returns its
    /// upper three bits over the lower five of that byte; the read takes
    /// the vertical blank flag down and points the address latch to the
    /// high byte. The sprite data register returns the byte that the
    /// sprite address names and moves the address on by one. The data
    /// register returns the byte of PPU memory at the address register and
    /// moves it on by 1, or by 32 if bit 2 of the control register is set.
    pub fn read(&mut self, idx: u16) -> (val: u8)
        requires
            old(self).wf(),
        ensures
            final(self).wf(),
            val == old(self)@.spec_read_value(idx),
            final(self)@ == old(self)@.spec_after_read(idx),
            idx % 8 == 2 ==> !final(self)@.reg.ppustat.spec_contains(VBLANK)
                && final(self)@.reg.address_latch == AddrByte::High,
            idx % 8 == 7 ==> final(self)@.reg.ppuaddr as int == (old(self)@.reg.ppuaddr + (
            if old(self)@.reg.ppuctrl.bits & 0x04 != 0 {
                32int
            } else {
                1int
            })) % 0x1_0000,
    {
        match idx % 8 {
            0 | 1 | 3 | 5 | 6 => self.reg.dyn_latch,
            2 => {
                self.reg.address_latch = AddrByte::High;
                let res = (self.reg.ppustat.bits() & 0xE0) | (self.reg.dyn_latch & 0x1F);
                self.reg.ppustat.remove(VBLANK);
                proof {
                    let stat = old(self).reg.ppustat.bits;
                    assert((stat & !0x80u8) & 0x80u8 != 0x80u8) by (bit_vector);
                }
                res
            },
            4 => {
                let entry = self.oam[self.reg.oamaddr as usize / 4];
                let res = entry.read(self.reg.oamaddr as u16);
                self.reg.oamaddr = self.reg.oamaddr.wrapping_add(1);
                res
            },
            _ => {
                proof {
                    lemma_bus_addr(self.reg.ppuaddr);
                }
                let res = self.ppu_mem.read(self.reg.ppuaddr & 0x3FFF);
                self.incr_ppuaddr();
                res
            },
        }
    }

    /// A write of `val` to register `idx % 8`. Every write leaves `val` in
    /// the latch that the write-only registers are read from. The control,
    /// mask and sprite address registers take the byte; the status register
    /// takes nothing. The sprite data register writes the byte that the
    /// sprite address names and moves the address on by one. The scroll and
    /// address registers take the byte into the half that the address latch
    /// points to and turn the latch. The data register writes to PPU memory
    /// at the address register and moves it on by 1, or by 32 if bit 2 of
    /// the control register is set.
    pub fn write(&mut self, idx: u16, val: u8)
        requires
            old(self).wf(),
        ensures
            final(self).wf(),
            old(self)@.spec_written(idx, val, final(self)@),
            final(self)@.reg.dyn_latch == val,
            idx % 8 == 7 ==> final(self)@.reg.ppuaddr as int == (old(self)@.reg.ppuaddr + (
            if old(self)@.reg.ppuctrl.bits & 0x04 != 0 {
                32int
            } else {
                1int
            })) % 0x1_0000,
    {
        self.reg.dyn_latch = val;
        match idx % 8 {
            0 => self.reg.ppuctrl = PPUCtrl::new(val),
            1 => self.reg.ppumask = PPUMask::from_bits_truncate(val),
            2 => (),
            3 => self.reg.oamaddr = val,
            4 => {
                let place = self.reg.oamaddr as usize / 4;
                let mut entry = self.oam[place];
                entry.write(self.reg.oamaddr as u16, val);
                self.oam[place] = entry;
                self.reg.oamaddr = self.reg.oamaddr.wrapping_add(1);
            },
            5 => write_addr_byte(&mut self.reg.address_latch, &mut self.reg.ppuscroll, val),
            6 => write_addr_byte(&mut self.reg.address_latch, &mut self.reg.ppuaddr, val),
            _ => {
                proof {
                    lemma_bus_addr(self.reg.ppuaddr);
                }
                self.ppu_mem.write(self.reg.ppuaddr & 0x3FFF, val);
                self.incr_ppuaddr();
            },
        }
    }
}

} // verus!
