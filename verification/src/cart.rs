//! What the PPU asks of a cartridge.

use vstd::prelude::*;

verus! {

/// How a cartridge wires the four logical nametables to the video memory.
#[derive(Clone, Copy, Debug, PartialEq, Eq, Structural)]
pub enum ScreenMode {
    Horizontal,
    Vertical,
    OneScreenLow,
    OneScreenHigh,
    FourScreen,
}

/// The nametable bases of a screen mode, as a value.
pub open spec fn spec_mapping_table(mode: ScreenMode) -> Seq<u16> {
    match mode {
        ScreenMode::Horizontal => seq![0x000u16, 0x000u16, 0x400u16, 0x400u16],
        ScreenMode::Vertical => seq![0x000u16, 0x400u16, 0x000u16, 0x400u16],
        ScreenMode::OneScreenLow => seq![0x000u16, 0x000u16, 0x000u16, 0x000u16],
        ScreenMode::OneScreenHigh => seq![0x400u16, 0x400u16, 0x400u16, 0x400u16],
        ScreenMode::FourScreen => seq![0x000u16, 0x400u16, 0x800u16, 0xC00u16],
    }
}

/// For each logical nametable, the offset in video memory at which the
/// screen mode puts it.
pub fn standard_mapping_tables(mode: ScreenMode) -> (table: [u16; 4])
    ensures
        table@ == spec_mapping_table(mode),
{
    let table: [u16; 4] = match mode {
        ScreenMode::Horizontal => [0x000, 0x000, 0x400, 0x400],
        ScreenMode::Vertical => [0x000, 0x400, 0x000, 0x400],
        ScreenMode::OneScreenLow => [0x000, 0x000, 0x000, 0x000],
        ScreenMode::OneScreenHigh => [0x400, 0x400, 0x400, 0x400],
        ScreenMode::FourScreen => [0x000, 0x400, 0x800, 0xC00],
    };
    assert(table@ =~= spec_mapping_table(mode));
    table
}

/// The side of a cartridge that faces the PPU: pattern memory and the
/// wiring of the nametables.
pub trait Cart {
    /// The byte of pattern memory that a read at `addr` returns.
    spec fn chr(&self, addr: u16) -> u8;

    /// For each logical nametable, its offset in video memory.
    spec fn mirroring(&self) -> Seq<u16>;

    /// True if `after` is this cartridge after a write of `val` to its
    /// pattern memory at `addr`.
    spec fn chr_written(&self, addr: u16, val: u8, after: &Self) -> bool;

    fn chr_read(&self, addr: u16) -> (val: u8)
        ensures
            val == self.chr(addr),
    ;

    fn chr_write(&mut self, addr: u16, val: u8)
        ensures
            old(self).chr_written(addr, val, final(self)),
    ;

    fn get_mirroring_table(&self) -> (table: &[u16; 4])
        ensures
            table@ == self.mirroring(),
    ;
}

} // verus!
