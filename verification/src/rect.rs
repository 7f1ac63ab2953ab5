//! An axis-aligned rectangle on a grid.

use crate::vec2::Vec2;
use vstd::prelude::*;
use vstd::std_specs::ops::DivSpec;

verus! {

/// A rectangle given by its top-left corner and its extent.
#[derive(Clone, Copy, PartialEq, Eq, Debug)]
pub struct Rect {
    pub pos: Vec2<usize>,
    pub size: Vec2<usize>,
}

impl Rect {
    /// The rectangle that spans from `pos` to `max_pos`, which lies neither
    /// left of nor above `pos`.
    pub fn from_pos2(pos: Vec2<usize>, max_pos: Vec2<usize>) -> (r: Self)
        requires
            pos.x <= max_pos.x,
            pos.y <= max_pos.y,
        ensures
            r.pos == pos,
            r.size.x == max_pos.x - pos.x,
            r.size.y == max_pos.y - pos.y,
    {
        Self { pos, size: max_pos - pos }
    }

    pub fn from_pos_size(pos: Vec2<usize>, size: Vec2<usize>) -> (r: Self)
        ensures
            r.pos == pos,
            r.size == size,
    {
        Self { pos, size }
    }

    pub fn x(&self) -> (r: usize)
        ensures
            r == self.pos.x,
    {
        self.pos.x()
    }

    pub fn y(&self) -> (r: usize)
        ensures
            r == self.pos.y,
    {
        self.pos.y()
    }

    pub fn width(&self) -> (r: usize)
        ensures
            r == self.size.x,
    {
        self.size.x()
    }

    pub fn height(&self) -> (r: usize)
        ensures
            r == self.size.y,
    {
        self.size.y()
    }

    pub fn size(&self) -> (r: Vec2<usize>)
        ensures
            r == self.size,
    {
        self.size
    }

    pub fn pos(&self) -> (r: Vec2<usize>)
        ensures
            r == self.pos,
    {
        self.pos
    }

    /// The corner opposite to `pos`: the first column and the first row past
    /// the rectangle.
    pub fn max_pos(&self) -> (r: Vec2<usize>)
        requires
            self.pos.x + self.size.x <= usize::MAX,
            self.pos.y + self.size.y <= usize::MAX,
        ensures
            r.x == self.pos.x + self.size.x,
            r.y == self.pos.y + self.size.y,
    {
        self.size() + self.pos()
    }
}

/// Dividing a rectangle keeps its corner and divides its extent.
impl std::ops::Div<usize> for Rect {
    type Output = Rect;

    fn div(self, rhs: usize) -> (r: Rect) {
        Self::from_pos_size(self.pos(), self.size() / rhs)
    }
}

impl vstd::std_specs::ops::DivSpecImpl<usize> for Rect {
    open spec fn obeys_div_spec() -> bool {
        true
    }

    open spec fn div_req(self, rhs: usize) -> bool {
        rhs != 0
    }

    open spec fn div_spec(self, rhs: usize) -> Rect {
        Rect { pos: self.pos, size: Vec2 { x: self.size.x / rhs, y: self.size.y / rhs } }
    }
}

} // verus!
