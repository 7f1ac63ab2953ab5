//! The failures that memory and register accesses report.

use vstd::prelude::*;

pub mod e;

verus! {

/// Why an access or an instruction was refused. Each failure carries the
/// address, the index or the opcode that caused it.
#[derive(Clone, Copy, PartialEq, Eq, Debug)]
pub enum Error {
    /// The address or index lies outside the range that the target covers.
    OutOfRange(usize),
    /// A write was aimed at memory that can only be read.
    ReadOnly(usize),
    /// A read was aimed at a register that can only be written.
    WriteOnly(usize),
    /// The address belongs to a known range that has nothing behind it.
    Unimplemented(usize),
    /// The opcode, or its combination with an operand, has no handler.
    NotYetImplemented(usize),
}

} // verus!
