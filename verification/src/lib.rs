//! The audio and video co-processors of an NES, advanced in lockstep with the
//! CPU clock: the APU frame sequencer with its sound channels and sample
//! buffer, and the PPU register file, memory bus and background renderer.

pub mod apu;
pub mod audio;
pub mod cart;
pub mod cpu;
pub mod ppu;
pub mod screen;
pub mod mappers;
