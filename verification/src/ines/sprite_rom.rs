//! The pattern store: the tiles of a cartridge, decoded once.

use super::sprites::Sprites;
use crate::sprite::sprite::decoded;
use crate::sprite::Sprite;
use vstd::prelude::*;

verus! {

/// The bytes in a cartridge's pattern payload that encode one tile.
pub const SPRITE_BYTES: usize = 16;

/// The tiles of a cartridge in the order of its pattern payload. Nothing
/// changes them once they are decoded.
#[derive(Debug)]
pub struct SpriteROM {
    rom: Vec<Sprite>,
}

impl View for SpriteROM {
    type V = Seq<Sprite>;

    closed spec fn view(&self) -> Seq<Sprite> {
        self.rom@
    }
}

impl SpriteROM {
    /// Whether every tile holds two-bit colour indices only.
    pub open spec fn wf(&self) -> bool {
        forall|i: int| 0 <= i < self@.len() ==> (#[trigger] self@[i]).wf()
    }

    /// The tiles.
    pub fn raw(&self) -> (r: &Vec<Sprite>)
        ensures
            r@ == self@,
    {
        &self.rom
    }

    /// The number of tiles.
    pub fn len(&self) -> (r: usize)
        ensures
            r == self@.len(),
    {
        self.rom.len()
    }

    /// Decodes every complete group of sixteen bytes of `raw` into a tile;
    /// bytes left over at the end are ignored.
    pub fn new<'a>(raw: &'a [u8]) -> (r: Self)
        ensures
            r.wf(),
            r@.len() == raw@.len() / 16,
            forall|i: int, row: int, column: int|
                0 <= i < r@.len() && 0 <= row < 8 && 0 <= column < 8 ==> #[trigger] r@[i].at(
                    row,
                    column,
                ) == decoded(raw@.subrange(16 * i, 16 * i + 16), row, column),
    {
        let rom = Sprites::parse(raw);
        Self { rom }
    }
}

impl std::ops::Index<usize> for SpriteROM {
    type Output = Sprite;

    fn index(&self, index: usize) -> (r: &Sprite)
        ensures
            *r == self@[index as int],
    {
        &self.rom[index]
    }
}

impl vstd::std_specs::core::IndexSpecImpl<usize> for SpriteROM {
    open spec fn index_req(&self, index: &usize) -> bool {
        *index < self@.len()
    }
}

} // verus!
