//! A decoded tile.

use super::sprite_byte::plane_bit;
use super::sprite_byte::SpriteByte;
use vstd::prelude::*;

verus! {

pub const SPRITE_LENGTH: usize = 8;

/// The colour index of the pixel on `row` and `column` of the tile that the
/// sixteen bytes `raw` encode. Byte `row` is the row's low plane, byte
/// `row + 8` its high plane; the high plane counts twice.
pub open spec fn decoded(raw: Seq<u8>, row: int, column: int) -> int {
    plane_bit(raw[row], column) + 2 * plane_bit(raw[row + 8], column)
}

/// An 8×8 matrix of colour indices.
#[derive(Debug, Clone, Copy, PartialEq, Eq)]
pub struct Sprite {
    raw: [[u8; SPRITE_LENGTH]; SPRITE_LENGTH],
}

impl Sprite {
    /// The colour index on `row` and `column`.
    pub closed spec fn at(&self, row: int, column: int) -> u8 {
        self.raw[row][column]
    }

    /// Whether every colour index fits in two bits.
    pub open spec fn wf(&self) -> bool {
        forall|row: int, column: int|
            0 <= row < 8 && 0 <= column < 8 ==> #[trigger] self.at(row, column) <= 3
    }

    /// Whether every pixel has colour index zero.
    pub open spec fn blank(&self) -> bool {
        forall|row: int, column: int|
            0 <= row < 8 && 0 <= column < 8 ==> #[trigger] self.at(row, column) == 0
    }

    /// One row of pixels from its two plane bytes.
    fn row(low: u8, high: u8) -> (r: [u8; SPRITE_LENGTH])
        ensures
            forall|column: int|
                0 <= column < 8 ==> #[trigger] r[column] == plane_bit(low, column) + 2 * plane_bit(
                    high,
                    column,
                ),
    {
        let high = SpriteByte::from(high);
        let low = SpriteByte::from(low);
        let sum = low + high + high;
        let r = <[u8; 8]>::from(sum);
        assert(r[0] == sum.b0 && r[1] == sum.b1 && r[2] == sum.b2 && r[3] == sum.b3);
        assert(r[4] == sum.b4 && r[5] == sum.b5 && r[6] == sum.b6 && r[7] == sum.b7);
        r
    }

    /// Decodes a tile from its sixteen bytes.
    pub fn new(value: &[u8; 16]) -> (r: Self)
        ensures
            r.wf(),
            forall|row: int, column: int|
                0 <= row < 8 && 0 <= column < 8 ==> #[trigger] r.at(row, column) == decoded(
                    value@,
                    row,
                    column,
                ),
    {
        Sprite {
            raw: [
                Self::row(value[0], value[8]),
                Self::row(value[1], value[9]),
                Self::row(value[2], value[10]),
                Self::row(value[3], value[11]),
                Self::row(value[4], value[12]),
                Self::row(value[5], value[13]),
                Self::row(value[6], value[14]),
                Self::row(value[7], value[15]),
            ],
        }
    }

    /// Whether the tile is blank, which the picture unit reads as transparent.
    pub fn zero(&self) -> (r: bool)
        ensures
            r == self.blank(),
    {
        let mut row: usize = 0;
        while row < SPRITE_LENGTH
            invariant
                row <= 8,
                forall|i: int, j: int| 0 <= i < row && 0 <= j < 8 ==> #[trigger] self.at(i, j) == 0,
            decreases 8 - row,
        {
            let mut column: usize = 0;
            while column < SPRITE_LENGTH
                invariant
                    row < 8,
                    column <= 8,
                    forall|i: int, j: int|
                        0 <= i < row && 0 <= j < 8 ==> #[trigger] self.at(i, j) == 0,
                    forall|j: int| 0 <= j < column ==> #[trigger] self.at(row as int, j) == 0,
                decreases 8 - column,
            {
                if self.raw[row][column] != 0 {
                    assert(self.at(row as int, column as int) != 0);
                    return false;
                }
                column += 1;
            }
            row += 1;
        }
        true
    }

    /// The matrix, rows first.
    pub fn bits(&self) -> (r: [[u8; SPRITE_LENGTH]; SPRITE_LENGTH])
        ensures
            forall|row: int, column: int|
                0 <= row < 8 && 0 <= column < 8 ==> #[trigger] r[row][column] == self.at(
                    row,
                    column,
                ),
    {
        self.raw
    }

    /// A tile with the given matrix of two-bit colour indices.
    pub fn debug_new(raw: [[u8; SPRITE_LENGTH]; SPRITE_LENGTH]) -> (r: Self)
        requires
            forall|row: int, column: int|
                0 <= row < 8 && 0 <= column < 8 ==> #[trigger] raw[row][column] <= 3,
        ensures
            r.wf(),
            forall|row: int, column: int|
                0 <= row < 8 && 0 <= column < 8 ==> #[trigger] r.at(row, column)
                    == raw[row][column],
    {
        Self { raw }
    }
}

/// A tile is its 64 colour indices: two tiles that agree on every pixel are
/// the same tile.
pub proof fn lemma_same_pixels(a: Sprite, b: Sprite)
    requires
        forall|row: int, column: int|
            0 <= row < 8 && 0 <= column < 8 ==> #[trigger] a.at(row, column) == b.at(row, column),
    ensures
        a == b,
{
    assert forall|row: int| 0 <= row < 8 implies #[trigger] a.raw[row] == b.raw[row] by {
        assert forall|column: int| 0 <= column < 8 implies #[trigger] a.raw[row][column]
            == b.raw[row][column] by {
            assert(a.at(row, column) == b.at(row, column));
        }
        assert(a.raw[row] =~= b.raw[row]);
    }
    assert(a.raw =~= b.raw);
}

} // verus!
