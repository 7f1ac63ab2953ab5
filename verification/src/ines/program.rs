//! The program payload as a memory that can be read.

use crate::memory::ROM;
use crate::result::e;
use crate::result::Error;
use vstd::prelude::*;

verus! {

#[derive(Debug)]
pub struct ProgramRom<'a> {
    rom: &'a [u8],
}

impl<'a> View for ProgramRom<'a> {
    type V = Seq<u8>;

    closed spec fn view(&self) -> Seq<u8> {
        self.rom@
    }
}

impl<'a> ROM<usize> for ProgramRom<'a> {
    type Output = u8;

    open spec fn readable(&self) -> bool {
        true
    }

    open spec fn peek(&self, i: usize) -> Result<u8, Error> {
        if i < self@.len() {
            Ok(self@[i as int])
        } else {
            Err(Error::OutOfRange(i))
        }
    }

    fn get(&self, i: usize) -> (r: Result<u8, Error>) {
        if i < self.rom.len() {
            Ok(self.rom[i])
        } else {
            Err(e::index_out_of_range(i))
        }
    }
}

impl<'a> ProgramRom<'a> {
    pub fn new(rom: &'a [u8]) -> (r: Self)
        ensures
            r@ == rom@,
    {
        Self { rom }
    }
}

} // verus!
