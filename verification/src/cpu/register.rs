//! The processor's register file.

use super::status_register::StatusRegister;
use vstd::prelude::*;

verus! {

#[derive(Clone, Copy, PartialEq, Eq, Debug)]
pub struct Register {
    /// The accumulator.
    pub a: u8,
    /// The index register X.
    pub x: u8,
    /// The index register Y.
    pub y: u8,
    /// The byte that the transfers to and from X move.
    pub s: u8,
    /// The status flags.
    pub p: StatusRegister,
    /// The stack pointer: the address of the next free byte of the stack.
    /// It is a counter of 16 bits that no page confines.
    pub sp: u16,
    /// The program counter.
    pub pc: u16,
}

impl Register {
    /// The register file at power-on.
    pub open spec fn initial() -> Register {
        Register {
            a: 0,
            x: 0,
            y: 0,
            s: 0,
            sp: 0x01FF,
            p: StatusRegister {
                negative: false,
                overflow: false,
                breaked: false,
                decimal: false,
                interrupt: false,
                zero: false,
                carry: false,
            },
            pc: 0x8000,
        }
    }
}

impl Default for Register {
    fn default() -> (r: Self)
        ensures
            r == Register::initial(),
    {
        Register {
            a: 0,
            x: 0,
            y: 0,
            s: 0,
            sp: 0x01FF,
            p: StatusRegister::default(),
            pc: 0x8000,
        }
    }
}

} // verus!
