//! Short constructors for the failures of [`Error`](super::Error).

use crate::result::Error;
use vstd::prelude::*;

verus! {

/// A write to read-only memory at `i`.
pub fn readonly(i: usize) -> (r: Error)
    ensures
        r == Error::ReadOnly(i),
{
    Error::ReadOnly(i)
}

/// A read of a write-only register at `i`.
pub fn writeonly(i: usize) -> (r: Error)
    ensures
        r == Error::WriteOnly(i),
{
    Error::WriteOnly(i)
}

/// An access at `i`, outside the target's range.
pub fn index_out_of_range(i: usize) -> (r: Error)
    ensures
        r == Error::OutOfRange(i),
{
    Error::OutOfRange(i)
}

/// An access at `i`, inside a known range that has nothing behind it.
pub fn unimplemented(i: usize) -> (r: Error)
    ensures
        r == Error::Unimplemented(i),
{
    Error::Unimplemented(i)
}

/// An instruction whose opcode byte `opcode` has no handler.
pub fn not_yet_implemented(opcode: usize) -> (r: Error)
    ensures
        r == Error::NotYetImplemented(opcode),
{
    Error::NotYetImplemented(opcode)
}

} // verus!
