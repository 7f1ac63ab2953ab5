//! Tiles: eight rows of eight pixels, each pixel a colour index of two bits.

pub mod picture;
pub mod sprite;
pub mod sprite_byte;

pub use picture::debug_sprite;
pub use sprite::Sprite;
pub use sprite_byte::SpriteByte;
