//! The name table: which tile stands on each cell of the background.

use crate::array2::Array2;
use crate::memory::RAM;
use crate::memory::ROM;
use crate::memory::WOM;
use crate::result::e;
use crate::result::Error;
use crate::vec2::Vec2;
use vstd::prelude::*;

verus! {

/// The number of cells that the table offers to the picture unit's bus.
pub const NAME_TABLE_LENGTH: usize = 0x03C0;

pub const WIDTH: usize = 32;

pub const HEIGHT: usize = 30;

/// Whether a grid has a cell for the index `i`, counted row by row.
pub open spec fn holds(grid: Seq<Seq<u8>>, i: usize) -> bool {
    &&& i < NAME_TABLE_LENGTH
    &&& grid[0].len() > 0
    &&& (i as int) / (grid[0].len() as int) < grid.len()
}

/// A grid of tile indices. It is 32 cells wide and 30 high unless it was made
/// from a grid of another size.
#[derive(Debug)]
pub struct NameTable {
    tiles: Array2<u8>,
}

impl View for NameTable {
    type V = Seq<Seq<u8>>;

    /// The rows of tile indices, top to bottom.
    closed spec fn view(&self) -> Seq<Seq<u8>> {
        self.tiles@
    }
}

impl Default for NameTable {
    fn default() -> (r: Self)
        ensures
            r.wf(),
            r@ == Seq::new(30, |y: int| Seq::new(32, |x: int| 0u8)),
    {
        let r = Self { tiles: Array2::from_with_size(WIDTH, HEIGHT) };
        assert(r@ =~~= Seq::new(30, |y: int| Seq::new(32, |x: int| 0u8)));
        r
    }
}

impl NameTable {
    /// Whether the table has a first row and all rows have its length.
    pub open spec fn wf(&self) -> bool {
        &&& self@.len() > 0
        &&& forall|y: int| 0 <= y < self@.len() ==> (#[trigger] self@[y]).len() == self@[0].len()
    }

    /// A table that holds the tile indices of `tiles`.
    pub fn new(tiles: Array2<u8>) -> (r: Self)
        requires
            tiles.rectangular(),
        ensures
            r.wf(),
            r@ == tiles@,
    {
        Self { tiles }
    }

    /// The grid of tile indices.
    pub fn tiles(&self) -> (r: &Array2<u8>)
        ensures
            r@ == self@,
    {
        &self.tiles
    }

    /// The `length` tile indices of row `pos.y` that start at column `pos.x`.
    pub fn fetch_line(&self, pos: Vec2<usize>, length: usize) -> (r: &[u8])
        requires
            pos.y < self@.len(),
            pos.x + length <= self@[pos.y as int].len(),
        ensures
            r@ == self@[pos.y as int].subrange(pos.x as int, pos.x + length),
    {
        self.tiles.line(pos, length)
    }
}

impl RAM<usize> for NameTable {

}

impl WOM<usize> for NameTable {
    type Input = u8;

    open spec fn writable(&self) -> bool {
        self.wf()
    }

    open spec fn poke(&self, i: usize, v: u8) -> Result<Seq<Seq<u8>>, Error> {
        if holds(self@, i) {
            let width = self@[0].len() as int;
            let row = (i as int) / width;
            Ok(self@.update(row, self@[row].update((i as int) % width, v)))
        } else {
            Err(Error::OutOfRange(i))
        }
    }

    fn put(&mut self, i: usize, v: u8) -> (r: Result<(), Error>) {
        let (width, height) = self.tiles.dimention().xy();
        if i >= NAME_TABLE_LENGTH || width == 0 || i / width >= height {
            Err(e::index_out_of_range(i))
        } else {
            self.tiles.set(Vec2::new(i % width, i / width), v);
            Ok(())
        }
    }
}

impl ROM<usize> for NameTable {
    type Output = u8;

    open spec fn readable(&self) -> bool {
        self.wf()
    }

    open spec fn peek(&self, i: usize) -> Result<u8, Error> {
        if holds(self@, i) {
            let width = self@[0].len() as int;
            Ok(self@[(i as int) / width][(i as int) % width])
        } else {
            Err(Error::OutOfRange(i))
        }
    }

    fn get(&self, i: usize) -> (r: Result<u8, Error>) {
        let (width, height) = self.tiles.dimention().xy();
        if i >= NAME_TABLE_LENGTH || width == 0 || i / width >= height {
            Err(e::index_out_of_range(i))
        } else {
            Ok(self.tiles[[i % width, i / width]])
        }
    }
}

/// A table of 32 by 30 cells has a cell for each index below
/// `NAME_TABLE_LENGTH` and for no other.
pub proof fn lemma_standard_holds(grid: Seq<Seq<u8>>, i: usize)
    requires
        grid.len() == 30,
        grid[0].len() == 32,
    ensures
        holds(grid, i) <==> i < NAME_TABLE_LENGTH,
{
}

} // verus!
