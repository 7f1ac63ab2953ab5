//! The three capabilities of an addressable device: reading, writing, both.

use crate::result::e;
use crate::result::Error;
use crate::x::range;
use std::ops::Range;
use vstd::prelude::*;

verus! {

/// Memory that can be read.
pub trait ROM<Idx> {
    type Output: View;

    /// Whether the device is in a state its operations accept.
    spec fn readable(&self) -> bool;

    /// What a read at `i` gives: the view of what is handed out, or the
    /// reason for which the read is refused.
    spec fn peek(&self, i: Idx) -> Result<<Self::Output as View>::V, Error>;

    fn get(&self, i: Idx) -> (r: Result<Self::Output, Error>)
        requires
            self.readable(),
        ensures
            match self.peek(i) {
                Ok(v) => r matches Ok(out) && out@ == v,
                Err(error) => r == Err::<Self::Output, Error>(error),
            },
    ;
}

/// Memory that can be written.
pub trait WOM<Idx>: View {
    type Input;

    /// Whether the device is in a state its operations accept.
    spec fn writable(&self) -> bool;

    /// What a write of `v` at `i` leads to: the device's new contents, or the
    /// reason for which the write is refused.
    spec fn poke(&self, i: Idx, v: Self::Input) -> Result<Self::V, Error>;

    /// A refused write leaves the device as it was.
    fn put(&mut self, i: Idx, v: Self::Input) -> (r: Result<(), Error>)
        requires
            old(self).writable(),
        ensures
            final(self).writable(),
            match old(self).poke(i, v) {
                Ok(after) => r == Ok::<(), Error>(()) && final(self)@ == after,
                Err(error) => r == Err::<(), Error>(error) && final(self)@ == old(self)@,
            },
    ;
}

/// Memory that can be read and written.
pub trait RAM<Idx>: ROM<Idx> + WOM<Idx> {

}

impl RAM<usize> for Vec<u8> {

}

impl ROM<usize> for Vec<u8> {
    type Output = u8;

    open spec fn readable(&self) -> bool {
        true
    }

    open spec fn peek(&self, i: usize) -> Result<u8, Error> {
        if i < self@.len() {
            Ok(self@[i as int])
        } else {
            Err(Error::OutOfRange(i))
        }
    }

    fn get(&self, i: usize) -> (r: Result<u8, Error>) {
        if self.len() > i {
            Ok(self[i])
        } else {
            Err(e::index_out_of_range(i))
        }
    }
}

impl WOM<usize> for Vec<u8> {
    type Input = u8;

    open spec fn writable(&self) -> bool {
        true
    }

    open spec fn poke(&self, i: usize, v: u8) -> Result<Seq<u8>, Error> {
        if i < self@.len() {
            Ok(self@.update(i as int, v))
        } else {
            Err(Error::OutOfRange(i))
        }
    }

    fn put(&mut self, i: usize, v: u8) -> (r: Result<(), Error>) {
        if self.len() > i {
            self[i] = v;
        } else {
            return Err(e::index_out_of_range(i));
        }
        Ok(())
    }
}

/// What a read of the bytes from `range.start` up to `range.end` gives: the
/// bytes, where the range runs forwards and both its bounds are indices of
/// `bytes`; the range's start as out of range otherwise.
pub open spec fn slice_of(bytes: Seq<u8>, range: Range<usize>) -> Result<Seq<u8>, Error> {
    if range.start <= range.end < bytes.len() {
        Ok(bytes.subrange(range.start as int, range.end as int))
    } else {
        Err(Error::OutOfRange(range.start))
    }
}

impl ROM<Range<usize>> for Vec<u8> {
    type Output = Vec<u8>;

    open spec fn readable(&self) -> bool {
        true
    }

    open spec fn peek(&self, i: Range<usize>) -> Result<Seq<u8>, Error> {
        slice_of(self@, i)
    }

    fn get(&self, i: Range<usize>) -> (r: Result<Vec<u8>, Error>) {
        if range::inside(0..self.len(), &i) && i.start <= i.end {
            Ok(vstd::slice::slice_to_vec(vstd::slice::slice_subrange(self.as_slice(), i.start, i.end)))
        } else {
            Err(e::index_out_of_range(i.start))
        }
    }
}

impl RAM<usize> for [u8] {

}

impl ROM<usize> for [u8] {
    type Output = u8;

    open spec fn readable(&self) -> bool {
        true
    }

    open spec fn peek(&self, i: usize) -> Result<u8, Error> {
        if i < self@.len() {
            Ok(self@[i as int])
        } else {
            Err(Error::OutOfRange(i))
        }
    }

    fn get(&self, i: usize) -> (r: Result<u8, Error>) {
        if self.len() > i {
            Ok(self[i])
        } else {
            Err(e::index_out_of_range(i))
        }
    }
}

impl ROM<Range<usize>> for [u8] {
    type Output = Vec<u8>;

    open spec fn readable(&self) -> bool {
        true
    }

    open spec fn peek(&self, i: Range<usize>) -> Result<Seq<u8>, Error> {
        slice_of(self@, i)
    }

    fn get(&self, i: Range<usize>) -> (r: Result<Vec<u8>, Error>) {
        if range::inside(0..self.len(), &i) && i.start <= i.end {
            Ok(vstd::slice::slice_to_vec(vstd::slice::slice_subrange(self, i.start, i.end)))
        } else {
            Err(e::index_out_of_range(i.start))
        }
    }
}

impl WOM<usize> for [u8] {
    type Input = u8;

    open spec fn writable(&self) -> bool {
        true
    }

    open spec fn poke(&self, i: usize, v: u8) -> Result<Seq<u8>, Error> {
        if i < self@.len() {
            Ok(self@.update(i as int, v))
        } else {
            Err(Error::OutOfRange(i))
        }
    }

    fn put(&mut self, i: usize, v: u8) -> (r: Result<(), Error>) {
        if self.len() > i {
            self[i] = v;
        } else {
            return Err(e::index_out_of_range(i));
        }
        Ok(())
    }
}

} // verus!
