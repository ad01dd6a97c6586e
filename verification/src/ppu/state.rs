//! The state of the PPU as a mathematical value, and the transitions that
//! the PPU makes on it.

use vstd::prelude::*;
use crate::cart::Cart;
use crate::cpu::MAX_CYCLE;
use crate::ppu::ppu_memory::PPUMemory;
use crate::ppu::registers::{OAMEntry, PPUReg, VBLANK};
use crate::ppu::render::spec_background_pixel;
use crate::ppu::{Color, StepResult, SCREEN_BUFFER_SIZE, SCREEN_WIDTH};

verus! {

/// Dots in a scanline.
pub const DOTS_PER_LINE: u16 = 341;

/// The scanline after the last one of a frame.
pub const LINES_END: i16 = 261;

/// What a PPU holds, together with what its screen has been given.
pub struct PpuView<C: Cart> {
    pub reg: PPUReg,
    pub oam: Seq<OAMEntry>,
    pub mem: PPUMemory<C>,
    /// The frame that is being drawn, row by row.
    pub screen_buffer: Seq<Color>,
    /// Every frame handed to the screen, oldest first.
    pub frames: Seq<Seq<Color>>,
    /// The dots done since power-on.
    pub global_cyc: int,
    /// The dot in the scanline.
    pub cyc: int,
    /// The scanline; `-1` is the line before the first visible one.
    pub sl: int,
    /// The frames begun since power-on.
    pub frame: int,
}

impl<C: Cart> PpuView<C> {
    pub open spec fn wf(self) -> bool {
        &&& self.oam.len() == 64
        &&& self.screen_buffer.len() == SCREEN_BUFFER_SIZE
        &&& 0 <= self.cyc < DOTS_PER_LINE
        &&& -1 <= self.sl < LINES_END
        &&& 0 <= self.frame <= self.global_cyc <= 3 * MAX_CYCLE
    }

    /// The clock after one more dot.
    pub open spec fn spec_tick_cycle(self) -> PpuView<C> {
        let line_ends = self.cyc + 1 == DOTS_PER_LINE;
        let frame_ends = line_ends && self.sl + 1 == LINES_END;
        PpuView {
            global_cyc: self.global_cyc + 1,
            cyc: if line_ends {
                0
            } else {
                self.cyc + 1
            },
            sl: if frame_ends {
                -1
            } else if line_ends {
                self.sl + 1
            } else {
                self.sl
            },
            frame: if frame_ends {
                self.frame + 1
            } else {
                self.frame
            },
            ..self
        }
    }

    /// True if the current dot draws a pixel.
    pub open spec fn draws_pixel(self) -> bool {
        0 <= self.sl <= 239 && 1 <= self.cyc <= 256
    }

    /// True if the current dot begins a vertical blank that counts: the
    /// first one after power-on does not.
    pub open spec fn starts_vblank(self) -> bool {
        self.cyc == 1 && self.sl == 241 && self.frame > 0
    }

    /// True if the current dot raises an NMI.
    pub open spec fn raises_nmi(self) -> bool {
        self.starts_vblank() && self.reg.ppuctrl.spec_generate_vblank_nmi()
    }

    /// The colour of the pixel that the current dot draws.
    pub open spec fn pixel(self) -> Color {
        spec_background_pixel(&self.mem, self.reg, (self.cyc - 1) as u16, self.sl as u16)
    }

    /// The work of the current dot: a pixel on a visible scanline; at the
    /// start of the vertical blank the flag goes up and the frame goes to
    /// the screen.
    pub open spec fn spec_run_cycle(self) -> PpuView<C> {
        if self.draws_pixel() {
            PpuView {
                screen_buffer: self.screen_buffer.update(
                    self.sl * SCREEN_WIDTH + self.cyc - 1,
                    self.pixel(),
                ),
                ..self
            }
        } else if self.starts_vblank() {
            PpuView {
                reg: PPUReg { ppustat: self.reg.ppustat.spec_insert(VBLANK), ..self.reg },
                frames: self.frames.push(self.screen_buffer),
                ..self
            }
        } else {
            self
        }
    }

    /// The PPU one dot later.
    pub open spec fn spec_dot(self) -> PpuView<C> {
        self.spec_tick_cycle().spec_run_cycle()
    }

    /// True if the next dot raises an NMI.
    pub open spec fn dot_nmi(self) -> bool {
        self.spec_tick_cycle().raises_nmi()
    }

    /// The PPU when its dot counter has reached `target`.
    pub open spec fn spec_run_dots(self, target: int) -> PpuView<C>
        decreases target - self.global_cyc,
    {
        if self.global_cyc >= target {
            self
        } else {
            self.spec_dot().spec_run_dots(target)
        }
    }

    /// True if a dot on the way to `target` raises an NMI.
    pub open spec fn dots_nmi(self, target: int) -> bool
        decreases target - self.global_cyc,
    {
        if self.global_cyc >= target {
            false
        } else {
            self.dot_nmi() || self.spec_dot().dots_nmi(target)
        }
    }

    /// The PPU after running to the CPU cycle `cpu_cycle`: three dots per
    /// cycle.
    pub open spec fn spec_run_to(self, cpu_cycle: int) -> PpuView<C> {
        self.spec_run_dots(3 * cpu_cycle)
    }

    /// What running to `cpu_cycle` reports.
    pub open spec fn run_result(self, cpu_cycle: int) -> StepResult {
        if self.dots_nmi(3 * cpu_cycle) {
            StepResult::NMI
        } else {
            StepResult::Continue
        }
    }

    /// The byte of the sprite memory that the sprite address names.
    pub open spec fn oam_byte(self) -> u8 {
        self.oam[self.reg.oamaddr as int / 4].spec_read(self.reg.oamaddr as u16)
    }

    /// The byte that a read of register `idx % 8` returns.
    pub open spec fn spec_read_value(self, idx: u16) -> u8 {
        if idx % 8 == 2 {
            self.reg.spec_status_byte()
        } else if idx % 8 == 4 {
            self.oam_byte()
        } else if idx % 8 == 7 {
            self.mem.spec_read(self.reg.spec_bus_addr())
        } else {
            self.reg.dyn_latch
        }
    }

    /// The PPU after a read of register `idx % 8`.
    pub open spec fn spec_after_read(self, idx: u16) -> PpuView<C> {
        PpuView { reg: self.reg.spec_after_read(idx), ..self }
    }

    /// True if `after` is this PPU after a write of `val` to register
    /// `idx % 8`.
    pub open spec fn spec_written(self, idx: u16, val: u8, after: PpuView<C>) -> bool {
        &&& after.reg == self.reg.spec_after_write(idx, val)
        &&& after.oam == if idx % 8 == 4 {
            self.oam.update(
                self.reg.oamaddr as int / 4,
                self.oam[self.reg.oamaddr as int / 4].spec_write(self.reg.oamaddr as u16, val),
            )
        } else {
            self.oam
        }
        &&& if idx % 8 == 7 {
            self.mem.spec_written(self.reg.spec_bus_addr(), val, &after.mem)
        } else {
            after.mem == self.mem
        }
        &&& after.screen_buffer == self.screen_buffer
        &&& after.frames == self.frames
        &&& after.global_cyc == self.global_cyc
        &&& after.cyc == self.cyc
        &&& after.sl == self.sl
        &&& after.frame == self.frame
    }
}

} // verus!
