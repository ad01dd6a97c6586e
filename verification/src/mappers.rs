//! Cartridge mappers.

pub mod bank;
pub mod mapper000;

use vstd::prelude::*;
use crate::cart::ScreenMode;

verus! {

/// What a mapper is built from.
pub struct MapperParams {
    pub prg_rom: Vec<u8>,
    pub chr_rom: Vec<u8>,
    pub prg_ram_size: usize,
    pub mirroring_mode: ScreenMode,
}

impl MapperParams {
    /// Parameters with the given ROMs, 8 KiB of program RAM and both
    /// screens on the first nametable.
    pub fn simple(prg_rom: Vec<u8>, chr_rom: Vec<u8>) -> (params: MapperParams)
        ensures
            params.prg_rom == prg_rom,
            params.chr_rom == chr_rom,
            params.prg_ram_size == 0x2000,
            params.mirroring_mode == ScreenMode::OneScreenLow,
    {
        MapperParams {
            prg_rom,
            chr_rom,
            prg_ram_size: 0x2000,
            mirroring_mode: ScreenMode::OneScreenLow,
        }
    }
}

} // verus!
