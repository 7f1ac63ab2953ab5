//! The picture unit: its registers, its video memory and its cycle engine.

pub mod attribute_table;
pub mod background_table;
pub mod buf_byte;
pub mod color;
pub mod cycle;
pub mod memory;
pub mod name_table;
pub mod palette;
pub mod ppu;
pub mod ppu_bus;
pub mod register;

pub use color::Color;
pub use memory::MemoryMap;
pub use palette::Palette;
pub use ppu::PPU;
pub use register::Register;
