//! A pair of coordinates.

use vstd::prelude::*;
use vstd::std_specs::ops::AddSpec;
use vstd::std_specs::ops::DivSpec;
use vstd::std_specs::ops::MulSpec;
use vstd::std_specs::ops::SubSpec;

verus! {

/// A point or an extent in two dimensions: `x` runs along a row, `y` counts rows.
#[derive(Clone, Copy, PartialEq, Eq, Debug)]
pub struct Vec2<T> where T: Clone + Copy {
    pub x: T,
    pub y: T,
}

impl<T> Vec2<T> where T: Clone + Copy {
    pub fn new(x: T, y: T) -> (r: Self)
        ensures
            r.x == x,
            r.y == y,
    {
        Vec2 { x, y }
    }

    pub fn x(&self) -> (r: T)
        ensures
            r == self.x,
    {
        self.x
    }

    pub fn y(&self) -> (r: T)
        ensures
            r == self.y,
    {
        self.y
    }

    pub fn xy(&self) -> (r: (T, T))
        ensures
            r == (self.x, self.y),
    {
        (self.x, self.y)
    }
}

impl Vec2<usize> {
    pub fn one() -> (r: Self)
        ensures
            r == (Vec2 { x: 1usize, y: 1usize }),
    {
        Vec2::new(1, 1)
    }

    pub fn zero() -> (r: Self)
        ensures
            r == (Vec2 { x: 0usize, y: 0usize }),
    {
        Vec2::new(0, 0)
    }
}

impl<T> std::ops::Sub for Vec2<T> where T: std::ops::Sub<Output = T>, T: Clone + Copy {
    type Output = Self;

    fn sub(self, rhs: Self) -> (r: Self) {
        Vec2 { x: self.x - rhs.x, y: self.y - rhs.y }
    }
}

impl<T> vstd::std_specs::ops::SubSpecImpl for Vec2<T> where T: std::ops::Sub<Output = T>, T: Clone + Copy {
    open spec fn obeys_sub_spec() -> bool {
        T::obeys_sub_spec()
    }

    open spec fn sub_req(self, rhs: Self) -> bool {
        self.x.sub_req(rhs.x) && self.y.sub_req(rhs.y)
    }

    open spec fn sub_spec(self, rhs: Self) -> Self {
        Vec2 { x: self.x.sub_spec(rhs.x), y: self.y.sub_spec(rhs.y) }
    }
}

impl<T> std::ops::Add for Vec2<T> where T: Clone + Copy, T: std::ops::Add<Output = T> {
    type Output = Self;

    fn add(self, rhs: Self) -> (r: Self) {
        Vec2 { x: self.x + rhs.x, y: self.y + rhs.y }
    }
}

impl<T> vstd::std_specs::ops::AddSpecImpl for Vec2<T> where T: Clone + Copy, T: std::ops::Add<Output = T> {
    open spec fn obeys_add_spec() -> bool {
        T::obeys_add_spec()
    }

    open spec fn add_req(self, rhs: Self) -> bool {
        self.x.add_req(rhs.x) && self.y.add_req(rhs.y)
    }

    open spec fn add_spec(self, rhs: Self) -> Self {
        Vec2 { x: self.x.add_spec(rhs.x), y: self.y.add_spec(rhs.y) }
    }
}

impl<T, E> std::ops::Div<E> for Vec2<T> where
    E: Copy,
    T: std::ops::Div<E, Output = T>,
    T: Clone + Copy,
 {
    type Output = Self;

    fn div(self, rhs: E) -> (r: Self) {
        Vec2 { x: self.x / rhs, y: self.y / rhs }
    }
}

impl<T, E> vstd::std_specs::ops::DivSpecImpl<E> for Vec2<T> where
    E: Copy,
    T: std::ops::Div<E, Output = T>,
    T: Clone + Copy,
 {
    open spec fn obeys_div_spec() -> bool {
        T::obeys_div_spec()
    }

    open spec fn div_req(self, rhs: E) -> bool {
        self.x.div_req(rhs) && self.y.div_req(rhs)
    }

    open spec fn div_spec(self, rhs: E) -> Self {
        Vec2 { x: self.x.div_spec(rhs), y: self.y.div_spec(rhs) }
    }
}

impl<T, E> std::ops::Mul<E> for Vec2<T> where
    E: Copy,
    T: std::ops::Mul<E, Output = T>,
    T: Clone + Copy,
 {
    type Output = Self;

    fn mul(self, rhs: E) -> (r: Self) {
        Vec2 { x: self.x * rhs, y: self.y * rhs }
    }
}

impl<T, E> vstd::std_specs::ops::MulSpecImpl<E> for Vec2<T> where
    E: Copy,
    T: std::ops::Mul<E, Output = T>,
    T: Clone + Copy,
 {
    open spec fn obeys_mul_spec() -> bool {
        T::obeys_mul_spec()
    }

    open spec fn mul_req(self, rhs: E) -> bool {
        self.x.mul_req(rhs) && self.y.mul_req(rhs)
    }

    open spec fn mul_spec(self, rhs: E) -> Self {
        Vec2 { x: self.x.mul_spec(rhs), y: self.y.mul_spec(rhs) }
    }
}

/// On machine-word coordinates the four operators act on each coordinate as
/// integer arithmetic does, and are defined where no coordinate overflows,
/// falls below zero or is divided by zero.
pub proof fn lemma_word_arithmetic(a: Vec2<usize>, b: Vec2<usize>, k: usize)
    ensures
        a.add_req(b) <==> a.x + b.x <= usize::MAX && a.y + b.y <= usize::MAX,
        a.add_req(b) ==> a.add_spec(b).x == a.x + b.x && a.add_spec(b).y == a.y + b.y,
        a.sub_req(b) <==> a.x >= b.x && a.y >= b.y,
        a.sub_req(b) ==> a.sub_spec(b).x == a.x - b.x && a.sub_spec(b).y == a.y - b.y,
        a.div_req(k) <==> k != 0,
        a.div_req(k) ==> a.div_spec(k).x == a.x / k && a.div_spec(k).y == a.y / k,
        a.mul_req(k) <==> a.x * k <= usize::MAX && a.y * k <= usize::MAX,
        a.mul_req(k) ==> a.mul_spec(k).x == a.x * k && a.mul_spec(k).y == a.y * k,
{
}

} // verus!
