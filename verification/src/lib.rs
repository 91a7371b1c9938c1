//! A Game Boy (Color) emulator core: audio unit, cartridge banking,
//! colour palettes, DMA engines and the picture unit's register logic,
//! each stated against a mathematical model and verified with Verus.

pub mod apu;
pub mod bits;
pub mod cgb;
pub mod ppu;
pub mod save_state;
pub mod cartridge;
pub mod controller;
pub mod lcd;
pub mod memory_mapper;
pub mod dma_controller;
pub mod oam_dma;
pub mod cpu;
pub mod io_registers;
pub mod state;
pub mod debugger;
pub use state::{Gameboy, Mode};
