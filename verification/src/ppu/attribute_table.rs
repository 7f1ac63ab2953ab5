//! The attribute table: which background palette colours each cell.

use crate::array2::fits;
use crate::array2::overlay;
use crate::array2::Array2;
use crate::memory::RAM;
use crate::memory::ROM;
use crate::memory::WOM;
use crate::rect::Rect;
use crate::result::e;
use crate::result::Error;
use crate::vec2::Vec2;
use vstd::prelude::*;

verus! {

/// The width of the table, in cells.
pub const WIDTH: usize = 16;

/// The height of the table, in cells.
pub const HEIGHT: usize = 15;

/// The number of bytes through which the picture unit's bus reaches the table.
pub const ATTIRBUTE_TABLE_LENGTH: usize = 64;

/// The four palette numbers that a byte packs, as a block of two rows of two:
/// bits 0 and 1 the top-left cell, bits 2 and 3 the top-right, bits 4 and 5
/// the bottom-left, bits 6 and 7 the bottom-right.
pub open spec fn unpacked(v: u8) -> Seq<Seq<u8>> {
    seq![seq![v % 4, (v / 4) % 4], seq![(v / 16) % 4, v / 64]]
}

/// The column of the block that byte `i` packs, in a grid `width` cells wide.
pub open spec fn block_x(width: int, i: usize) -> int {
    ((i as int) % (width / 2)) * 2
}

/// The row of the block that byte `i` packs, in a grid `width` cells wide.
pub open spec fn block_y(width: int, i: usize) -> int {
    ((i as int) / (width / 2)) * 2
}

/// Whether a grid has a block for byte `i`. The block's lower row may lie
/// below the grid: it is then cut off.
pub open spec fn reaches(grid: Seq<Seq<u8>>, i: usize) -> bool {
    i < ATTIRBUTE_TABLE_LENGTH && block_y(grid[0].len() as int, i) < grid.len()
}

/// The part of `v`'s block that lies inside the grid: both rows, or the
/// upper row alone at the grid's last row.
pub open spec fn clipped(grid: Seq<Seq<u8>>, i: usize, v: u8) -> Seq<Seq<u8>> {
    if block_y(grid[0].len() as int, i) + 1 < grid.len() {
        unpacked(v)
    } else {
        unpacked(v).subrange(0, 1)
    }
}

/// The grid after a write of `v` to byte `i`: the part of `v`'s block that
/// lies inside the grid is laid over it.
pub open spec fn overlaid(grid: Seq<Seq<u8>>, i: usize, v: u8) -> Seq<Seq<u8>> {
    overlay(
        grid,
        block_x(grid[0].len() as int, i),
        block_y(grid[0].len() as int, i),
        clipped(grid, i, v),
    )
}

/// The byte that packs the block for byte `i`; cells below the grid count as
/// zero.
pub open spec fn packed(grid: Seq<Seq<u8>>, i: usize) -> int {
    let x = block_x(grid[0].len() as int, i);
    let y = block_y(grid[0].len() as int, i);
    if y + 1 < grid.len() {
        grid[y][x] + 4 * grid[y][x + 1] + 16 * grid[y + 1][x] + 64 * grid[y + 1][x + 1]
    } else {
        grid[y][x] + 4 * grid[y][x + 1]
    }
}

/// A grid of palette numbers, each from 0 to 3. It is 16 cells wide and 15
/// high unless it was made from a grid of another size.
#[derive(Debug)]
pub struct AttributeTable {
    palettes: Array2<u8>,
}

impl View for AttributeTable {
    type V = Seq<Seq<u8>>;

    /// The rows of palette numbers, top to bottom.
    closed spec fn view(&self) -> Seq<Seq<u8>> {
        self.palettes@
    }
}

/// Whether a grid can serve as an attribute table: it has a first row, all
/// rows have its length, which is at least two, and every cell is a palette
/// number.
pub open spec fn valid_grid(grid: Seq<Seq<u8>>) -> bool {
    &&& grid.len() > 0
    &&& grid[0].len() >= 2
    &&& forall|y: int| 0 <= y < grid.len() ==> (#[trigger] grid[y]).len() == grid[0].len()
    &&& forall|y: int, x: int|
        0 <= y < grid.len() && 0 <= x < grid[0].len() ==> #[trigger] grid[y][x] <= 3
}

impl Default for AttributeTable {
    fn default() -> (r: Self)
        ensures
            r.wf(),
            r@ == Seq::new(15, |y: int| Seq::new(16, |x: int| 0u8)),
    {
        let r = Self { palettes: Array2::from_with_size(WIDTH, HEIGHT) };
        assert(r@ =~~= Seq::new(15, |y: int| Seq::new(16, |x: int| 0u8)));
        r
    }
}

impl AttributeTable {
    pub open spec fn wf(&self) -> bool {
        valid_grid(self@)
    }

    /// A table that holds the palette numbers of `palettes`.
    pub fn new(palettes: Array2<u8>) -> (r: Self)
        requires
            valid_grid(palettes@),
        ensures
            r.wf(),
            r@ == palettes@,
    {
        Self { palettes }
    }

    /// The grid of palette numbers.
    pub fn palettes(&self) -> (r: &Array2<u8>)
        ensures
            r@ == self@,
    {
        &self.palettes
    }

    /// Unpacks a byte into its block.
    fn analyze(v: u8) -> (r: Array2<u8>)
        ensures
            r@ == unpacked(v),
    {
        let bottom_right = v / 64;
        let borrom_left = (v / 16) % 4;
        let top_right = (v / 4) % 4;
        let top_left = v % 4;
        let r = Array2::new(vec![vec![top_left, top_right], vec![borrom_left, bottom_right]]);
        assert(r@ =~~= unpacked(v));
        r
    }

    /// The `length` palette numbers of row `pos.y` that start at column `pos.x`.
    pub fn fetch_line(&self, pos: Vec2<usize>, length: usize) -> (r: &[u8])
        requires
            pos.y < self@.len(),
            pos.x + length <= self@[pos.y as int].len(),
        ensures
            r@ == self@[pos.y as int].subrange(pos.x as int, pos.x + length),
    {
        self.palettes.line(pos, length)
    }
}

impl RAM<usize> for AttributeTable {

}

impl WOM<usize> for AttributeTable {
    type Input = u8;

    open spec fn writable(&self) -> bool {
        self.wf()
    }

    open spec fn poke(&self, i: usize, v: u8) -> Result<Seq<Seq<u8>>, Error> {
        if reaches(self@, i) {
            Ok(overlaid(self@, i, v))
        } else {
            Err(Error::OutOfRange(i))
        }
    }

    fn put(&mut self, i: usize, v: u8) -> (r: Result<(), Error>) {
        let (width, height) = self.palettes.dimention().xy();
        let blocks = width / 2;
        if i >= ATTIRBUTE_TABLE_LENGTH || i / blocks >= height / 2 + height % 2 {
            Err(e::index_out_of_range(i))
        } else {
            let palettes = AttributeTable::analyze(v);
            let x = (i % blocks) * 2;
            let y = (i / blocks) * 2;
            let ghost grid = self@;
            assert(x + 2 <= width) by (nonlinear_arith)
                requires
                    x == (i % blocks) * 2,
                    blocks == width / 2,
                    width >= 2,
            ;
            assert forall|row: int| 0 <= row < grid.len() implies x + 2 <= (
            #[trigger] grid[row]).len() by {}
            if y + 1 >= height {
                let block = palettes.part_of(Rect::from_pos_size(Vec2::zero(), Vec2::new(2, 1)));
                assert(block@ =~~= clipped(grid, i, v));
                assert(fits(grid, x as int, y as int, block@));
                self.palettes.put_array2(Vec2::new(x, y), block);
            } else {
                assert(palettes@ == clipped(grid, i, v));
                assert(fits(grid, x as int, y as int, palettes@));
                self.palettes.put_array2(Vec2::new(x, y), palettes);
            }
            Ok(())
        }
    }
}

impl ROM<usize> for AttributeTable {
    type Output = u8;

    open spec fn readable(&self) -> bool {
        self.wf()
    }

    open spec fn peek(&self, i: usize) -> Result<u8, Error> {
        if reaches(self@, i) {
            Ok(packed(self@, i) as u8)
        } else {
            Err(Error::OutOfRange(i))
        }
    }

    fn get(&self, i: usize) -> (r: Result<u8, Error>) {
        let (width, height) = self.palettes.dimention().xy();
        let blocks = width / 2;
        if i >= ATTIRBUTE_TABLE_LENGTH || i / blocks >= height / 2 + height % 2 {
            Err(e::index_out_of_range(i))
        } else {
            let x = (i % blocks) * 2;
            let y = (i / blocks) * 2;
            let ghost grid = self@;
            assert(x + 2 <= width) by (nonlinear_arith)
                requires
                    x == (i % blocks) * 2,
                    blocks == width / 2,
                    width >= 2,
            ;
            assert forall|row: int| 0 <= row < grid.len() implies x + 2 <= (
            #[trigger] grid[row]).len() by {}
            assert(grid[y as int][x as int] <= 3 && grid[y as int][x + 1] <= 3);
            let top = self.palettes[[x, y]] + 4 * self.palettes[[x + 1, y]];
            if y + 1 >= height {
                Ok(top)
            } else {
                assert(grid[y + 1][x as int] <= 3 && grid[y + 1][x + 1] <= 3);
                Ok(top + 16 * self.palettes[[x, y + 1]] + 64 * self.palettes[[x + 1, y + 1]])
            }
        }
    }
}

/// A byte is the sum of the four palette numbers that it packs, each at its
/// place.
pub proof fn lemma_unpacked_packs(v: u8)
    ensures
        v == v % 4 + 4 * ((v / 4) % 4) + 16 * ((v / 16) % 4) + 64 * (v / 64),
        unpacked(v)[0][0] <= 3 && unpacked(v)[0][1] <= 3,
        unpacked(v)[1][0] <= 3 && unpacked(v)[1][1] <= 3,
{
}

/// What was written is read back: after a write of `v` to byte `i` a read of
/// byte `i` gives `v`, or, where the block's lower row is cut off, the low
/// four bits of `v`. The write keeps the grid valid and its size.
pub proof fn lemma_grid_put_then_get(grid: Seq<Seq<u8>>, i: usize, v: u8)
    requires
        valid_grid(grid),
        reaches(grid, i),
    ensures
        valid_grid(overlaid(grid, i, v)),
        overlaid(grid, i, v).len() == grid.len(),
        overlaid(grid, i, v)[0].len() == grid[0].len(),
        reaches(overlaid(grid, i, v), i),
        packed(overlaid(grid, i, v), i) == (if block_y(grid[0].len() as int, i) + 1 < grid.len() {
            v as int
        } else {
            (v % 16) as int
        }),
{
    let width = grid[0].len() as int;
    let x = block_x(width, i);
    let y = block_y(width, i);
    let block = clipped(grid, i, v);
    let after = overlay(grid, x, y, block);
    lemma_unpacked_packs(v);
    assert(0 <= x && x + 2 <= width) by (nonlinear_arith)
        requires
            x == ((i as int) % (width / 2)) * 2,
            width >= 2,
    ;
    assert(0 <= y) by (nonlinear_arith)
        requires
            y == ((i as int) / (width / 2)) * 2,
            width >= 2,
    ;
    assert(after[0].len() == width);
    assert forall|r: int| 0 <= r < after.len() implies (#[trigger] after[r]).len()
        == after[0].len() by {
        assert(grid[r].len() == width);
    }
    assert forall|r: int, c: int| 0 <= r < after.len() && 0 <= c < after[0].len() implies (
    #[trigger] after[r][c]) <= 3 by {
        assert(grid[r].len() == width);
        assert(grid[r][c] <= 3);
    }
    assert(grid[y].len() == width);
    assert(after[y][x] == v % 4);
    assert(after[y][x + 1] == (v / 4) % 4);
    if y + 1 < grid.len() {
        assert(grid[y + 1].len() == width);
        assert(after[y + 1][x] == (v / 16) % 4);
        assert(after[y + 1][x + 1] == v / 64);
    }
}

/// The same of a table: a write that the table accepts is read back, whole
/// or, at the table's last row, by its low four bits.
pub proof fn lemma_put_then_get(table: AttributeTable, i: usize, v: u8)
    requires
        table.wf(),
        reaches(table@, i),
    ensures
        table.poke(i, v) is Ok,
        valid_grid(table.poke(i, v)->Ok_0),
        reaches(table.poke(i, v)->Ok_0, i),
        packed(table.poke(i, v)->Ok_0, i) == (if block_y(table@[0].len() as int, i) + 1
            < table@.len() {
            v as int
        } else {
            (v % 16) as int
        }),
{
    lemma_grid_put_then_get(table@, i, v);
}

/// In a table of 16 by 15 cells every byte below `ATTIRBUTE_TABLE_LENGTH` has
/// a block, and the blocks of the last eight bytes are cut off.
pub proof fn lemma_standard_reaches(grid: Seq<Seq<u8>>, i: usize)
    requires
        grid.len() == 15,
        grid[0].len() == 16,
    ensures
        reaches(grid, i) <==> i < ATTIRBUTE_TABLE_LENGTH,
        i < ATTIRBUTE_TABLE_LENGTH ==> (block_y(16, i) + 1 < 15 <==> i < 56),
{
    assert(16int / 2 == 8);
    assert(block_y(16, i) == ((i as int) / 8) * 2);
}

} // verus!
