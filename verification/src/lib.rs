//! An emulator core for a cartridge-based 8-bit game console: the processor,
//! the memory bus that decodes its addresses, and the picture unit that draws
//! tiled backgrounds in step with the processor's clock.

pub mod binary;
pub mod memory;
pub mod result;
pub mod vec2;
pub mod array2;
pub mod rect;
pub mod sprite;
pub mod ppu;
pub mod ines;
pub mod display;
pub mod cpu;
pub mod program;
pub mod x;
