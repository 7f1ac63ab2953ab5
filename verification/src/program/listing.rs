//! A listing of a program: its instructions one after the other.

use super::opecode::Opecode;
use super::operand::Operand;
use super::order::cycles_of;
use super::order::decode;
use super::order::order_of;
use vstd::prelude::*;

verus! {

/// One instruction of a listing.
#[derive(Clone, Copy, Debug)]
pub struct Listed {
    /// The offset of the opcode in the program.
    pub at: usize,
    pub opecode: Opecode,
    pub operand: Operand,
    /// The base cost in cycles.
    pub cycle: usize,
}

impl Listed {
    /// Whether this is what the opcode at offset `at` of `rom` decodes to.
    pub open spec fn reads(self, rom: Seq<u8>) -> bool {
        &&& self.at < rom.len()
        &&& (self.opecode, self.operand) == order_of(rom[self.at as int])
        &&& self.cycle == cycles_of(rom[self.at as int])
    }

    /// The offset after the instruction and its operand bytes.
    pub open spec fn next(self) -> int {
        self.at + 1 + self.operand.length_of()
    }
}

/// Whether `lines` lists `rom`: the first instruction starts at offset 0,
/// each one starts where the one before it ends, every one is what its
/// opcode decodes to, and the last one reaches the end of the program.
/// Bytes are taken as opcodes where the instructions before them make them
/// fall, whether or not the program meant them so.
pub open spec fn lists(lines: Seq<Listed>, rom: Seq<u8>) -> bool {
    &&& lines.len() == 0 <==> rom.len() == 0
    &&& lines.len() > 0 ==> lines[0].at == 0 && lines.last().next() >= rom.len()
    &&& forall|k: int| 0 <= k < lines.len() ==> (#[trigger] lines[k]).reads(rom)
    &&& forall|k: int| 0 < k < lines.len() ==> (#[trigger] lines[k]).at == lines[k - 1].next()
}

/// Lists the instructions of a program.
pub fn debug_program(rom: &Vec<u8>) -> (r: Vec<Listed>)
    ensures
        lists(r@, rom@),
{
    let mut r: Vec<Listed> = Vec::new();
    let mut i: usize = 0;
    while i < rom.len()
        invariant
            r@.len() == 0 <==> i == 0,
            i <= rom@.len(),
            r@.len() > 0 ==> r@[0].at == 0 && (r@.last().next() == i || (i == rom@.len()
                && r@.last().next() >= i)),
            forall|k: int| 0 <= k < r@.len() ==> (#[trigger] r@[k]).reads(rom@),
            forall|k: int| 0 < k < r@.len() ==> (#[trigger] r@[k]).at == r@[k - 1].next(),
        decreases rom@.len() - i,
    {
        let ((opecode, operand), cycle) = decode(rom[i]);
        r.push(Listed { at: i, opecode, operand, cycle });
        let step = 1 + operand.length();
        if rom.len() - i <= step {
            i = rom.len();
        } else {
            i += step;
        }
    }
    r
}

} // verus!
