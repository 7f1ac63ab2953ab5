//! A grid of values stored row by row.

use crate::rect::Rect;
use crate::vec2::Vec2;
use vstd::prelude::*;

verus! {

/// Rows of cells. A cell is named by its column `x` and its row `y`. The rows
/// need not have one length; a grid in which they do is [`rectangular`].
///
/// [`rectangular`]: Array2::rectangular
#[derive(PartialEq, Eq, Debug)]
pub struct Array2<T> where T: Copy + Default {
    data: Vec<Vec<T>>,
}

impl<T> View for Array2<T> where T: Copy + Default {
    type V = Seq<Seq<T>>;

    /// The rows, top to bottom, each from left to right.
    closed spec fn view(&self) -> Seq<Seq<T>> {
        Seq::new(self.data@.len(), |y: int| self.data@[y]@)
    }
}

/// `under` with the rows of `block` laid over it, the block's first cell on
/// column `x` of row `y`.
pub open spec fn overlay<T>(under: Seq<Seq<T>>, x: int, y: int, block: Seq<Seq<T>>) -> Seq<Seq<T>> {
    Seq::new(
        under.len(),
        |r: int|
            Seq::new(
                under[r].len(),
                |c: int|
                    if y <= r < y + block.len() && x <= c < x + block[r - y].len() {
                        block[r - y][c - x]
                    } else {
                        under[r][c]
                    },
            ),
    )
}

/// Whether `block`, laid on `under` at column `x` of row `y`, stays inside it.
pub open spec fn fits<T>(under: Seq<Seq<T>>, x: int, y: int, block: Seq<Seq<T>>) -> bool {
    forall|j: int|
        0 <= j < block.len() ==> y + j < under.len() && x + (#[trigger] block[j]).len() <= under[y
            + j].len()
}

impl<T> Array2<T> where T: Copy + Default {
    /// Whether the grid has a first row and every row is as long as it.
    pub open spec fn rectangular(&self) -> bool {
        &&& self@.len() > 0
        &&& forall|y: int| 0 <= y < self@.len() ==> (#[trigger] self@[y]).len() == self@[0].len()
    }

    /// Whether `rect` lies inside the grid.
    pub open spec fn covers(&self, rect: Rect) -> bool {
        forall|y: int|
            rect.pos.y <= y < rect.pos.y + rect.size.y ==> y < self@.len() && rect.pos.x
                + rect.size.x <= (#[trigger] self@[y]).len()
    }

    /// A row of the view is the view of the row as stored, and fits in memory.
    proof fn lemma_row(&self, y: int)
        requires
            0 <= y < self@.len(),
        ensures
            self@[y] == self.data@[y]@,
            self@[y].len() == self.data@[y].len(),
            self@[y].len() <= usize::MAX,
            self@.len() == self.data@.len(),
            self@.len() <= usize::MAX,
    {
        assert(self.data.len() == self.data@.len());
        assert(self.data@[y].len() == self.data@[y]@.len());
    }

    /// A grid of `h` rows of `w` cells, each holding a default value.
    pub fn from_with_size(w: usize, h: usize) -> (r: Self)
        ensures
            r@.len() == h,
            forall|y: int| 0 <= y < h ==> (#[trigger] r@[y]).len() == w,
            forall|y: int, x: int|
                0 <= y < h && 0 <= x < w ==> call_ensures(T::default, (), #[trigger] r@[y][x]),
    {
        let fill = T::default();
        let mut data: Vec<Vec<T>> = Vec::new();
        let mut y: usize = 0;
        while y < h
            invariant
                y <= h,
                data@.len() == y,
                call_ensures(T::default, (), fill),
                forall|j: int| 0 <= j < y ==> (#[trigger] data@[j])@.len() == w,
                forall|j: int, i: int| 0 <= j < y && 0 <= i < w ==> #[trigger] data@[j]@[i] == fill,
            decreases h - y,
        {
            let mut row: Vec<T> = Vec::new();
            let mut x: usize = 0;
            while x < w
                invariant
                    x <= w,
                    row@.len() == x,
                    forall|i: int| 0 <= i < x ==> #[trigger] row@[i] == fill,
                decreases w - x,
            {
                row.push(fill);
                x += 1;
            }
            data.push(row);
            y += 1;
        }
        Self { data }
    }

    /// The grid's width, read off its first row, and its height.
    pub fn dimention(&self) -> (r: Vec2<usize>)
        requires
            self@.len() > 0,
        ensures
            r.x == self@[0].len(),
            r.y == self@.len(),
    {
        Vec2::new(self.data[0].len(), self.data.len())
    }

    pub fn new(data: Vec<Vec<T>>) -> (r: Self)
        ensures
            r@.len() == data@.len(),
            forall|y: int| 0 <= y < data@.len() ==> #[trigger] r@[y] == data@[y]@,
    {
        Self { data }
    }

    /// The `length` cells of row `pos.y` that start at column `pos.x`.
    pub fn line(&self, pos: Vec2<usize>, length: usize) -> (r: &[T])
        requires
            pos.y < self@.len(),
            pos.x + length <= self@[pos.y as int].len(),
        ensures
            r@ == self@[pos.y as int].subrange(pos.x as int, pos.x + length),
    {
        let (x, y) = pos.xy();
        proof {
            self.lemma_row(y as int);
        }
        vstd::slice::slice_subrange(self.data[y].as_slice(), x, x + length)
    }

    /// A copy of the cells that `rect` covers.
    pub fn part_of(&self, rect: Rect) -> (r: Self)
        requires
            self.covers(rect),
        ensures
            r@.len() == rect.size.y,
            forall|j: int|
                0 <= j < rect.size.y ==> #[trigger] r@[j] == self@[rect.pos.y + j].subrange(
                    rect.pos.x as int,
                    rect.pos.x + rect.size.x,
                ),
    {
        let (w, h) = rect.size().xy();
        let (x, y) = rect.pos().xy();
        let mut result: Vec<Vec<T>> = Vec::new();
        let mut j: usize = 0;
        while j < h
            invariant
                j <= h,
                w == rect.size.x,
                h == rect.size.y,
                x == rect.pos.x,
                y == rect.pos.y,
                self.covers(rect),
                result@.len() == j,
                forall|k: int|
                    0 <= k < j ==> (#[trigger] result@[k])@ == self@[y + k].subrange(
                        x as int,
                        x + w,
                    ),
            decreases h - j,
        {
            proof {
                let row = self@[y + j];
                assert(y + j < self@.len() && x + w <= row.len());
                self.lemma_row(y + j);
            }
            let row = vstd::slice::slice_to_vec(
                vstd::slice::slice_subrange(self.data[y + j].as_slice(), x, x + w),
            );
            result.push(row);
            j += 1;
        }
        Array2::new(result)
    }

    /// Lays `value` over the grid, its first cell on `pos`.
    pub fn put_array2(&mut self, pos: Vec2<usize>, value: Array2<T>)
        requires
            fits(old(self)@, pos.x as int, pos.y as int, value@),
        ensures
            final(self)@ == overlay(old(self)@, pos.x as int, pos.y as int, value@),
    {
        let mut offset_y: usize = 0;
        assert(self@ =~~= overlay(
            old(self)@,
            pos.x as int,
            pos.y as int,
            value@.subrange(0, 0),
        ));
        while offset_y < value.data.len()
            invariant
                offset_y <= value@.len(),
                fits(old(self)@, pos.x as int, pos.y as int, value@),
                self@ == overlay(
                    old(self)@,
                    pos.x as int,
                    pos.y as int,
                    value@.subrange(0, offset_y as int),
                ),
            decreases value@.len() - offset_y,
        {
            let ghost before = self@;
            let mut offset_x: usize = 0;
            proof {
                value.lemma_row(offset_y as int);
                assert(self@ =~~= overlay(
                    before,
                    pos.x as int,
                    pos.y + offset_y,
                    seq![value@[offset_y as int].subrange(0, 0)],
                ));
            }
            while offset_x < value.data[offset_y].len()
                invariant
                    offset_y < value@.len(),
                    offset_x <= value@[offset_y as int].len(),
                    value@[offset_y as int] == value.data@[offset_y as int]@,
                    fits(old(self)@, pos.x as int, pos.y as int, value@),
                    before == overlay(
                        old(self)@,
                        pos.x as int,
                        pos.y as int,
                        value@.subrange(0, offset_y as int),
                    ),
                    self@ == overlay(
                        before,
                        pos.x as int,
                        pos.y + offset_y,
                        seq![value@[offset_y as int].subrange(0, offset_x as int)],
                    ),
                decreases value@[offset_y as int].len() - offset_x,
            {
                let cell = value.data[offset_y][offset_x];
                proof {
                    assert(pos.y + offset_y < old(self)@.len());
                    assert(pos.x + value@[offset_y as int].len() <= old(self)@[pos.y
                        + offset_y].len());
                    old(self).lemma_row(pos.y + offset_y);
                }
                self.set(Vec2::new(pos.x + offset_x, pos.y + offset_y), cell);
                assert(self@ =~~= overlay(
                    before,
                    pos.x as int,
                    pos.y + offset_y,
                    seq![value@[offset_y as int].subrange(0, offset_x + 1)],
                ));
                offset_x += 1;
            }
            assert(self@ =~~= overlay(
                old(self)@,
                pos.x as int,
                pos.y as int,
                value@.subrange(0, offset_y + 1),
            ));
            offset_y += 1;
        }
        assert(value@.subrange(0, value@.len() as int) == value@);
    }

    /// Whether the grid has a cell on column `pos.x` of row `pos.y`.
    pub open spec fn has(&self, pos: Vec2<usize>) -> bool {
        pos.y < self@.len() && pos.x < self@[pos.y as int].len()
    }

    /// Replaces the cell on `pos`.
    pub fn set(&mut self, pos: Vec2<usize>, value: T)
        requires
            old(self).has(pos),
        ensures
            final(self)@ == old(self)@.update(
                pos.y as int,
                old(self)@[pos.y as int].update(pos.x as int, value),
            ),
    {
        let (x, y) = pos.xy();
        let row = &mut self.data[y];
        row[x] = value;
        assert(self@ =~~= old(self)@.update(
            pos.y as int,
            old(self)@[pos.y as int].update(pos.x as int, value),
        ));
    }
}

impl<T> std::ops::Index<Vec2<usize>> for Array2<T> where T: Copy + Default {
    type Output = T;

    /// The cell on column `index.x` of row `index.y`.
    fn index(&self, index: Vec2<usize>) -> (r: &T)
        ensures
            *r == self@[index.y as int][index.x as int],
    {
        let (x, y) = index.xy();
        &self.data[y][x]
    }
}

impl<T> vstd::std_specs::core::IndexSpecImpl<Vec2<usize>> for Array2<T> where T: Copy + Default {
    open spec fn index_req(&self, index: &Vec2<usize>) -> bool {
        self.has(*index)
    }
}

impl<T> std::ops::Index<[usize; 2]> for Array2<T> where T: Copy + Default {
    type Output = T;

    /// The cell on column `index[0]` of row `index[1]`.
    fn index(&self, index: [usize; 2]) -> (r: &T)
        ensures
            *r == self@[index[1] as int][index[0] as int],
    {
        &self.data[index[1]][index[0]]
    }
}

impl<T> vstd::std_specs::core::IndexSpecImpl<[usize; 2]> for Array2<T> where T: Copy + Default {
    open spec fn index_req(&self, index: &[usize; 2]) -> bool {
        index[1] < self@.len() && index[0] < self@[index[1] as int].len()
    }
}

} // verus!
