//! Decoding a pattern payload into tiles.

use crate::sprite::sprite::decoded;
use crate::sprite::Sprite;
use vstd::prelude::*;

verus! {

/// The bytes that encode one tile.
pub const SPRITE_LENGTH_B: usize = 16;

pub struct Sprites;

impl Sprites {
    /// Decodes every complete group of sixteen bytes of `rom` into a tile;
    /// bytes left over at the end are ignored.
    pub fn parse(rom: &[u8]) -> (r: Vec<Sprite>)
        ensures
            r@.len() == rom@.len() / 16,
            forall|i: int| 0 <= i < r@.len() ==> (#[trigger] r@[i]).wf(),
            forall|i: int, row: int, column: int|
                0 <= i < r@.len() && 0 <= row < 8 && 0 <= column < 8 ==> #[trigger] r@[i].at(
                    row,
                    column,
                ) == decoded(rom@.subrange(16 * i, 16 * i + 16), row, column),
    {
        let count = rom.len() / SPRITE_LENGTH_B;
        let mut result: Vec<Sprite> = Vec::with_capacity(count);
        let mut i: usize = 0;
        while i < count
            invariant
                i <= count,
                count == rom@.len() / 16,
                rom@.len() <= usize::MAX,
                result@.len() == i,
                forall|k: int| 0 <= k < i ==> (#[trigger] result@[k]).wf(),
                forall|k: int, row: int, column: int|
                    0 <= k < i && 0 <= row < 8 && 0 <= column < 8 ==> #[trigger] result@[k].at(
                        row,
                        column,
                    ) == decoded(rom@.subrange(16 * k, 16 * k + 16), row, column),
            decreases count - i,
        {
            assert(i * 16 + 16 <= rom@.len());
            let from = i * SPRITE_LENGTH_B;
            let data: [u8; 16] = [
                rom[from],
                rom[from + 1],
                rom[from + 2],
                rom[from + 3],
                rom[from + 4],
                rom[from + 5],
                rom[from + 6],
                rom[from + 7],
                rom[from + 8],
                rom[from + 9],
                rom[from + 10],
                rom[from + 11],
                rom[from + 12],
                rom[from + 13],
                rom[from + 14],
                rom[from + 15],
            ];
            assert(data@ =~= rom@.subrange(16 * i, 16 * i + 16));
            let sprite = Sprite::parse(&data);
            result.push(sprite);
            i += 1;
        }
        result
    }
}

impl Sprite {
    /// Decodes a tile from its sixteen bytes.
    pub fn parse(data: &[u8; 16]) -> (r: Sprite)
        ensures
            r.wf(),
            forall|row: int, column: int|
                0 <= row < 8 && 0 <= column < 8 ==> #[trigger] r.at(row, column) == decoded(
                    data@,
                    row,
                    column,
                ),
    {
        Sprite::new(data)
    }
}

} // verus!
