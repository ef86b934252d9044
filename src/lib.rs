//! Core of a Nintendo Entertainment System emulator: a 6502 interpreter,
//! a dot-stepped PPU with its scroll registers, OAM and background
//! pipeline, the CPU and PPU memory maps, and the NROM and MMC3 mappers.
//! The PPU is driven by catch-up: every CPU access that can observe it
//! first runs it to three times the CPU's clock.

pub mod vram_addr;
pub mod ppu_bus;
pub mod mmc3;
pub mod cartridge;
pub mod bg;
pub mod oam;
pub mod colors;
pub mod ppu;
pub mod alu;
pub mod cpu;
pub mod bus;
pub mod rom;
