//! The picture unit's register file.

use super::buf_byte::Bufu8;
use crate::binary::with_bit;
use crate::binary::Byte;
use vstd::prelude::*;

verus! {

/// The bit of the status byte that reports the vertical blank.
pub const VBLANK_BIT: usize = 7;

/// What the processor sees of the picture unit. The two control bytes are
/// kept as written; no bit of them changes what is drawn.
#[derive(Clone, Copy, PartialEq, Eq, Debug)]
pub struct Register {
    pub control1: u8,
    pub control2: u8,
    pub status: u8,
    pub sprite_addr: u8,
    pub sprite_data: u8,
    /// The video address: high byte first.
    pub ppu_addr: Bufu8,
    /// The scroll offset: horizontal first, then vertical.
    pub scroll_offset: Bufu8,
}

impl Register {
    /// The register file at power-on.
    pub open spec fn initial() -> Register {
        Register {
            control1: 0,
            control2: 0,
            status: 0,
            sprite_addr: 0,
            sprite_data: 9,
            ppu_addr: Bufu8 { older: 0, later: 0, half: false },
            scroll_offset: Bufu8 { older: 0, later: 0, half: false },
        }
    }

    /// The register file after the video address has moved on by one.
    pub open spec fn advanced(self) -> Register {
        Register {
            ppu_addr: Bufu8::of_be_word(
                if self.ppu_addr.be_word() == 0xFFFF {
                    0
                } else {
                    (self.ppu_addr.be_word() + 1) as u16
                },
            ),
            ..self
        }
    }

    /// The latched video address.
    pub fn ppu_addr(&self) -> (r: u16)
        ensures
            r == self.ppu_addr.be_word(),
    {
        self.ppu_addr.u16_be_bytes()
    }

    /// Takes one byte of the video address.
    pub fn put_addr(&mut self, v: u8)
        ensures
            *final(self) == (Register { ppu_addr: old(self).ppu_addr.added(v), ..*old(self) }),
    {
        self.ppu_addr.add(v);
    }

    /// Moves the video address on by one, from the last address round to
    /// zero. The latch then holds a complete pair.
    pub fn increment_ppu_addr(&mut self)
        ensures
            *final(self) == old(self).advanced(),
    {
        let addr = self.ppu_addr().wrapping_add(1);
        self.ppu_addr = Bufu8::from_16_be_bytes(addr);
    }

    /// Takes one byte of the scroll offset.
    pub fn put_scroll_offset(&mut self, v: u8)
        ensures
            *final(self) == (Register {
                scroll_offset: old(self).scroll_offset.added(v),
                ..*old(self)
            }),
    {
        self.scroll_offset.add(v);
    }

    /// Sets or clears the vertical-blank flag of the status byte.
    pub fn toggle_vblank(&mut self, v: bool)
        ensures
            *final(self) == (Register {
                status: with_bit(old(self).status, VBLANK_BIT, v),
                ..*old(self)
            }),
    {
        self.status = self.status.set(VBLANK_BIT, v);
    }
}

impl Default for Register {
    fn default() -> (r: Self)
        ensures
            r == Register::initial(),
    {
        Self {
            control1: 0,
            control2: 0,
            status: 0,
            sprite_addr: 0,
            sprite_data: 9,
            ppu_addr: Bufu8::default(),
            scroll_offset: Bufu8::default(),
        }
    }
}

} // verus!
