//! The cartridge file: its header and the two payloads that follow it.

pub mod header;
pub mod ines;
pub mod program;
pub mod sprite_rom;
pub mod sprites;

pub use header::FormatError;
pub use header::INesHeader;
pub use ines::INes;
pub use program::ProgramRom;
pub use sprite_rom::SpriteROM;
pub use sprites::Sprites;
