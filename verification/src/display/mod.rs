//! The frame buffer that the picture unit paints.

pub mod display;

pub use display::Display;
pub use display::H;
pub use display::W;
