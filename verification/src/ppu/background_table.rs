//! One quadrant of the background: a name table and its attribute table.

use super::attribute_table::packed;
use super::attribute_table::valid_grid;
use super::attribute_table::AttributeTable;
use super::attribute_table::ATTIRBUTE_TABLE_LENGTH;
use super::name_table::NameTable;
use super::name_table::NAME_TABLE_LENGTH;
use crate::memory::RAM;
use crate::memory::ROM;
use crate::memory::WOM;
use crate::result::e;
use crate::result::Error;
use crate::vec2::Vec2;
use vstd::prelude::*;

verus! {

/// What a quadrant holds: 30 rows of 32 tile indices, and 15 rows of 16
/// palette numbers.
pub struct BackgroundView {
    pub name: Seq<Seq<u8>>,
    pub attribute: Seq<Seq<u8>>,
}

impl BackgroundView {
    /// Whether the two grids have the sizes of a quadrant and the attribute
    /// grid holds palette numbers.
    pub open spec fn wf(self) -> bool {
        &&& self.name.len() == 30
        &&& forall|y: int| 0 <= y < 30 ==> (#[trigger] self.name[y]).len() == 32
        &&& self.attribute.len() == 15
        &&& self.attribute[0].len() == 16
        &&& valid_grid(self.attribute)
    }

    /// The tile index on column `x` of row `y`.
    pub open spec fn tile(self, x: int, y: int) -> u8 {
        self.name[y][x]
    }

    /// The palette number of the tile on column `x` of row `y`: that of the
    /// attribute cell at half its coordinates.
    pub open spec fn palette_number(self, x: int, y: int) -> u8 {
        self.attribute[y / 2][x / 2]
    }

    /// What a read at offset `i` of the quadrant gives: the name table fills
    /// the offsets below 0x3C0, the packed attribute table the 64 that follow.
    pub open spec fn read(self, i: usize) -> Result<u8, Error> {
        if i < NAME_TABLE_LENGTH {
            Ok(self.name[i as int / 32][i as int % 32])
        } else if i < NAME_TABLE_LENGTH + ATTIRBUTE_TABLE_LENGTH {
            Ok(packed(self.attribute, (i - NAME_TABLE_LENGTH) as usize) as u8)
        } else {
            Err(Error::OutOfRange(i))
        }
    }

    /// What a write of `v` at offset `i` of the quadrant leads to: below
    /// 0x3C0 a tile index is replaced, in the 64 offsets that follow a block
    /// of palette numbers is.
    pub open spec fn write(self, i: usize, v: u8) -> Result<BackgroundView, Error> {
        if i < NAME_TABLE_LENGTH {
            Ok(
                BackgroundView {
                    name: self.name.update(
                        i as int / 32,
                        self.name[i as int / 32].update(i as int % 32, v),
                    ),
                    attribute: self.attribute,
                },
            )
        } else if i < NAME_TABLE_LENGTH + ATTIRBUTE_TABLE_LENGTH {
            Ok(
                BackgroundView {
                    name: self.name,
                    attribute: crate::ppu::attribute_table::overlaid(
                        self.attribute,
                        (i - NAME_TABLE_LENGTH) as usize,
                        v,
                    ),
                },
            )
        } else {
            Err(Error::OutOfRange(i))
        }
    }
}

/// A write that succeeds keeps a quadrant well formed.
pub proof fn lemma_write_keeps_wf(quadrant: BackgroundView, i: usize, v: u8)
    requires
        quadrant.wf(),
        quadrant.write(i, v) is Ok,
    ensures
        quadrant.write(i, v)->Ok_0.wf(),
{
    if i < NAME_TABLE_LENGTH {
        let after = quadrant.write(i, v)->Ok_0;
        assert forall|y: int| 0 <= y < 30 implies (#[trigger] after.name[y]).len() == 32 by {
            assert(quadrant.name[y].len() == 32);
        }
    } else {
        let j = (i - NAME_TABLE_LENGTH) as usize;
        let grid = quadrant.attribute;
        crate::ppu::attribute_table::lemma_standard_reaches(grid, j);
        crate::ppu::attribute_table::lemma_grid_put_then_get(grid, j, v);
    }
}

/// An empty quadrant: every tile index and every palette number zero.
pub open spec fn blank() -> BackgroundView {
    BackgroundView {
        name: Seq::new(30, |y: int| Seq::new(32, |x: int| 0u8)),
        attribute: Seq::new(15, |y: int| Seq::new(16, |x: int| 0u8)),
    }
}

#[derive(Debug)]
pub struct BackgroundTable {
    name: NameTable,
    attribute: AttributeTable,
}

impl View for BackgroundTable {
    type V = BackgroundView;

    closed spec fn view(&self) -> BackgroundView {
        BackgroundView { name: self.name@, attribute: self.attribute@ }
    }
}

impl Default for BackgroundTable {
    fn default() -> (r: Self)
        ensures
            r.wf(),
            r@ == blank(),
    {
        Self { name: NameTable::default(), attribute: AttributeTable::default() }
    }
}

impl BackgroundTable {
    pub open spec fn wf(&self) -> bool {
        self@.wf()
    }

    /// The `length` tile indices of row `pos.y` from column `pos.x` on, and
    /// the palette numbers of the attribute cells at half those coordinates.
    pub fn fetch_line(&self, pos: Vec2<usize>, length: usize) -> (r: (&[u8], &[u8]))
        requires
            self.wf(),
            pos.y < 30,
            pos.x + length <= 32,
        ensures
            r.0@ == self@.name[pos.y as int].subrange(pos.x as int, pos.x + length),
            r.1@ == self@.attribute[pos.y as int / 2].subrange(
                pos.x as int / 2,
                pos.x as int / 2 + length as int / 2,
            ),
    {
        assert(self.name@[pos.y as int].len() == 32);
        assert(self.attribute@[pos.y as int / 2].len() == 16);
        (self.name.fetch_line(pos, length), self.attribute.fetch_line(pos / 2, length / 2))
    }

    /// The tile index on column `x` of row `y`.
    pub fn tile(&self, x: usize, y: usize) -> (r: u8)
        requires
            self.wf(),
            x < 32,
            y < 30,
        ensures
            r == self@.tile(x as int, y as int),
    {
        assert(self.name@[y as int].len() == 32);
        self.name.tiles()[[x, y]]
    }

    /// The palette number of the tile on column `x` of row `y`.
    pub fn palette_number(&self, x: usize, y: usize) -> (r: u8)
        requires
            self.wf(),
            x < 32,
            y < 30,
        ensures
            r == self@.palette_number(x as int, y as int),
            r <= 3,
    {
        assert(self.attribute@[y as int / 2].len() == 16);
        assert(self.attribute@[y as int / 2][x as int / 2] <= 3);
        self.attribute.palettes()[[x / 2, y / 2]]
    }
}

impl RAM<usize> for BackgroundTable {

}

impl WOM<usize> for BackgroundTable {
    type Input = u8;

    open spec fn writable(&self) -> bool {
        self.wf()
    }

    open spec fn poke(&self, i: usize, v: u8) -> Result<BackgroundView, Error> {
        self@.write(i, v)
    }

    fn put(&mut self, i: usize, v: u8) -> (r: Result<(), Error>) {
        if i < NAME_TABLE_LENGTH {
            proof {
                crate::ppu::name_table::lemma_standard_holds(self.name@, i);
            }
            self.name.put(i, v)
        } else if i < NAME_TABLE_LENGTH + ATTIRBUTE_TABLE_LENGTH {
            proof {
                crate::ppu::attribute_table::lemma_standard_reaches(
                    self.attribute@,
                    (i - NAME_TABLE_LENGTH) as usize,
                );
                crate::ppu::attribute_table::lemma_put_then_get(
                    self.attribute,
                    (i - NAME_TABLE_LENGTH) as usize,
                    v,
                );
            }
            self.attribute.put(i - NAME_TABLE_LENGTH, v)
        } else {
            Err(e::index_out_of_range(i))
        }
    }
}

impl ROM<usize> for BackgroundTable {
    type Output = u8;

    open spec fn readable(&self) -> bool {
        self.wf()
    }

    open spec fn peek(&self, i: usize) -> Result<u8, Error> {
        self@.read(i)
    }

    fn get(&self, i: usize) -> (r: Result<u8, Error>) {
        if i < NAME_TABLE_LENGTH {
            proof {
                crate::ppu::name_table::lemma_standard_holds(self.name@, i);
            }
            self.name.get(i)
        } else if i < NAME_TABLE_LENGTH + ATTIRBUTE_TABLE_LENGTH {
            proof {
                crate::ppu::attribute_table::lemma_standard_reaches(
                    self.attribute@,
                    (i - NAME_TABLE_LENGTH) as usize,
                );
            }
            self.attribute.get(i - NAME_TABLE_LENGTH)
        } else {
            Err(e::index_out_of_range(i))
        }
    }
}

} // verus!
