//! The palette table: thirty-two colour indices, sixteen for the background
//! and sixteen for sprites.

use super::color::color;
use super::color::color_of;
use super::color::Color;
use crate::memory::RAM;
use crate::memory::ROM;
use crate::memory::WOM;
use crate::result::e;
use crate::result::Error;
use vstd::prelude::*;

verus! {

/// The four colours that the colour indices 0 to 3 of a tile stand for.
#[derive(Clone, Copy, PartialEq, Eq, Debug)]
pub struct Palette(pub Color, pub Color, pub Color, pub Color);

/// The number of entries of the table.
pub const PALETTE_TABLE_LENGTH: usize = 0x20;

/// Where the entry of index `i` is kept: index 0x10 is a mirror of index 0,
/// the backdrop, and every other index is its own place.
pub open spec fn slot(i: usize) -> int {
    if i == 0x10 {
        0
    } else {
        i as int
    }
}

#[derive(Debug)]
pub struct PaletteTable {
    pub raw: [u8; 0x20],
}

impl Default for PaletteTable {
    fn default() -> (r: Self)
        ensures
            r@ == Seq::new(32, |i: int| 0u8),
    {
        let r = Self { raw: [0;0x20] };
        assert(r@ =~= Seq::new(32, |i: int| 0u8));
        r
    }
}

impl View for PaletteTable {
    type V = Seq<u8>;

    /// The thirty-two bytes as stored.
    open spec fn view(&self) -> Seq<u8> {
        self.raw@
    }
}

impl RAM<usize> for PaletteTable {

}

impl WOM<usize> for PaletteTable {
    type Input = u8;

    open spec fn writable(&self) -> bool {
        true
    }

    open spec fn poke(&self, i: usize, v: u8) -> Result<Seq<u8>, Error> {
        if i < 0x20 {
            Ok(self@.update(slot(i), v))
        } else {
            Err(Error::OutOfRange(i))
        }
    }

    fn put(&mut self, i: usize, v: u8) -> (r: Result<(), Error>) {
        if PALETTE_TABLE_LENGTH <= i {
            Err(e::index_out_of_range(i))
        } else {
            if i == 0x10 {
                self.raw[0] = v;
            } else {
                self.raw[i] = v;
            }
            Ok(())
        }
    }
}

impl ROM<usize> for PaletteTable {
    type Output = u8;

    open spec fn readable(&self) -> bool {
        true
    }

    open spec fn peek(&self, i: usize) -> Result<u8, Error> {
        if i < 0x20 {
            Ok(self@[slot(i)])
        } else {
            Err(Error::OutOfRange(i))
        }
    }

    fn get(&self, i: usize) -> (r: Result<u8, Error>) {
        if PALETTE_TABLE_LENGTH <= i {
            Err(e::index_out_of_range(i))
        } else if i == 0x10 {
            Ok(self.raw[0])
        } else {
            Ok(self.raw[i])
        }
    }
}

/// The background palette `i` of a table with the bytes `raw`: the backdrop
/// and the three entries that follow entry `4 * i`.
pub open spec fn background_palette_of(raw: Seq<u8>, i: int) -> Palette {
    Palette(
        color_of(raw[0]),
        color_of(raw[4 * i + 1]),
        color_of(raw[4 * i + 2]),
        color_of(raw[4 * i + 3]),
    )
}

/// The sprite palette `i` of a table with the bytes `raw`: the three entries
/// that follow entry `0x10 + 4 * i`, then the background entry four places
/// on, which for the last palette is the backdrop.
pub open spec fn sprite_palette_of(raw: Seq<u8>, i: int) -> Palette {
    Palette(
        color_of(raw[0x10 + 4 * i + 1]),
        color_of(raw[0x10 + 4 * i + 2]),
        color_of(raw[0x10 + 4 * i + 3]),
        color_of(raw[(4 * i + 4) % 16]),
    )
}

impl PaletteTable {
    /// The backdrop: the colour that entry 0 of every background palette shares.
    pub fn background_color(&self) -> (r: Color)
        ensures
            r == color_of(self@[0]),
    {
        color(self.raw[0x00])
    }

    pub fn background_palette(&self, i: usize) -> (r: Palette)
        requires
            i < 4,
        ensures
            r == background_palette_of(self@, i as int),
    {
        if i == 0 {
            self.background_palette0()
        } else if i == 1 {
            self.background_palette1()
        } else if i == 2 {
            self.background_palette2()
        } else {
            self.background_palette3()
        }
    }

    fn background_palette0(&self) -> (r: Palette)
        ensures
            r == background_palette_of(self@, 0),
    {
        Palette(
            self.background_color(),
            color(self.raw[0x01]),
            color(self.raw[0x02]),
            color(self.raw[0x03]),
        )
    }

    fn background_palette1(&self) -> (r: Palette)
        ensures
            r == background_palette_of(self@, 1),
    {
        Palette(
            self.background_color(),
            color(self.raw[0x05]),
            color(self.raw[0x06]),
            color(self.raw[0x07]),
        )
    }

    fn background_palette2(&self) -> (r: Palette)
        ensures
            r == background_palette_of(self@, 2),
    {
        Palette(
            self.background_color(),
            color(self.raw[0x09]),
            color(self.raw[0x0A]),
            color(self.raw[0x0B]),
        )
    }

    fn background_palette3(&self) -> (r: Palette)
        ensures
            r == background_palette_of(self@, 3),
    {
        Palette(
            self.background_color(),
            color(self.raw[0x0D]),
            color(self.raw[0x0E]),
            color(self.raw[0x0F]),
        )
    }

    pub fn sprite_palette0(&self) -> (r: Palette)
        ensures
            r == sprite_palette_of(self@, 0),
    {
        Palette(
            color(self.raw[0x11]),
            color(self.raw[0x12]),
            color(self.raw[0x13]),
            color(self.raw[0x04]),
        )
    }

    pub fn sprite_palette1(&self) -> (r: Palette)
        ensures
            r == sprite_palette_of(self@, 1),
    {
        Palette(
            color(self.raw[0x15]),
            color(self.raw[0x16]),
            color(self.raw[0x17]),
            color(self.raw[0x08]),
        )
    }

    pub fn sprite_palette2(&self) -> (r: Palette)
        ensures
            r == sprite_palette_of(self@, 2),
    {
        Palette(
            color(self.raw[0x19]),
            color(self.raw[0x1A]),
            color(self.raw[0x1B]),
            color(self.raw[0x0C]),
        )
    }

    pub fn sprite_palette3(&self) -> (r: Palette)
        ensures
            r == sprite_palette_of(self@, 3),
    {
        Palette(
            color(self.raw[0x1D]),
            color(self.raw[0x1E]),
            color(self.raw[0x1F]),
            self.background_color(),
        )
    }
}

} // verus!
