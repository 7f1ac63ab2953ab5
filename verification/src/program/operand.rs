//! The addressing modes: how an instruction finds its operand.

use vstd::prelude::*;

verus! {

#[derive(Clone, Copy, PartialEq, Eq, Debug)]
pub enum IndexRegister {
    X,
    Y,
}

#[derive(Clone, Copy, PartialEq, Eq, Debug)]
pub enum Operand {
    /// The accumulator is the operand.
    Accumulator,
    /// The byte after the opcode is the operand.
    Immediate,
    /// The word after the opcode is the operand's address.
    Absolute,
    /// The word after the opcode is the address of the operand's address.
    AbsoluteIndirect,
    /// The word after the opcode, plus an index register, is the address.
    AbsoluteIndex(IndexRegister),
    /// The byte after the opcode is the address.
    ZeroPage,
    /// The byte after the opcode, plus an index register, is the address.
    ZeroPageIndex(IndexRegister),
    /// The instruction has no operand.
    Implied,
    /// The byte after the opcode is a signed distance from the next
    /// instruction.
    Relative,
    /// The byte after the opcode is the address of a word, which, plus an
    /// index register, is the address.
    IndirectIndex(IndexRegister),
    /// The opcode stands for no instruction.
    Nope,
}

impl Operand {
    /// The number of operand bytes that follow the opcode.
    pub open spec fn length_of(self) -> usize {
        match self {
            Operand::Immediate => 1,
            Operand::Absolute => 2,
            Operand::AbsoluteIndirect => 2,
            Operand::AbsoluteIndex(_) => 2,
            Operand::ZeroPage => 1,
            Operand::ZeroPageIndex(_) => 1,
            Operand::Relative => 1,
            Operand::IndirectIndex(_) => 1,
            Operand::Accumulator => 0,
            Operand::Implied => 0,
            Operand::Nope => 0,
        }
    }

    /// The number of operand bytes that follow the opcode.
    pub fn length(&self) -> (r: usize)
        ensures
            r == self.length_of(),
    {
        match self {
            Operand::Immediate => 1,
            Operand::Absolute => 2,
            Operand::AbsoluteIndirect => 2,
            Operand::AbsoluteIndex(_) => 2,
            Operand::ZeroPage => 1,
            Operand::ZeroPageIndex(_) => 1,
            Operand::Relative => 1,
            Operand::IndirectIndex(_) => 1,
            Operand::Accumulator => 0,
            Operand::Implied => 0,
            Operand::Nope => 0,
        }
    }
}

/// An addressing mode as the opcode table names it: one plain name for each
/// mode and each index register.
#[derive(Clone, Copy, PartialEq, Eq, Debug)]
pub enum Addressing {
    Accumulator,
    Immediate,
    Absolute,
    AbsoluteIndirect,
    AbsoluteX,
    AbsoluteY,
    ZeroPage,
    ZeroPageX,
    ZeroPageY,
    Implied,
    Relative,
    IndirectX,
    IndirectY,
    Nope,
}

impl Addressing {
    /// The operand that the name stands for.
    pub open spec fn operand_of(self) -> Operand {
        match self {
            Addressing::Accumulator => Operand::Accumulator,
            Addressing::Immediate => Operand::Immediate,
            Addressing::Absolute => Operand::Absolute,
            Addressing::AbsoluteIndirect => Operand::AbsoluteIndirect,
            Addressing::AbsoluteX => Operand::AbsoluteIndex(IndexRegister::X),
            Addressing::AbsoluteY => Operand::AbsoluteIndex(IndexRegister::Y),
            Addressing::ZeroPage => Operand::ZeroPage,
            Addressing::ZeroPageX => Operand::ZeroPageIndex(IndexRegister::X),
            Addressing::ZeroPageY => Operand::ZeroPageIndex(IndexRegister::Y),
            Addressing::Implied => Operand::Implied,
            Addressing::Relative => Operand::Relative,
            Addressing::IndirectX => Operand::IndirectIndex(IndexRegister::X),
            Addressing::IndirectY => Operand::IndirectIndex(IndexRegister::Y),
            Addressing::Nope => Operand::Nope,
        }
    }

    /// The operand that the name stands for.
    pub fn operand(&self) -> (r: Operand)
        ensures
            r == self.operand_of(),
    {
        match self {
            Addressing::Accumulator => Operand::Accumulator,
            Addressing::Immediate => Operand::Immediate,
            Addressing::Absolute => Operand::Absolute,
            Addressing::AbsoluteIndirect => Operand::AbsoluteIndirect,
            Addressing::AbsoluteX => Operand::AbsoluteIndex(IndexRegister::X),
            Addressing::AbsoluteY => Operand::AbsoluteIndex(IndexRegister::Y),
            Addressing::ZeroPage => Operand::ZeroPage,
            Addressing::ZeroPageX => Operand::ZeroPageIndex(IndexRegister::X),
            Addressing::ZeroPageY => Operand::ZeroPageIndex(IndexRegister::Y),
            Addressing::Implied => Operand::Implied,
            Addressing::Relative => Operand::Relative,
            Addressing::IndirectX => Operand::IndirectIndex(IndexRegister::X),
            Addressing::IndirectY => Operand::IndirectIndex(IndexRegister::Y),
            Addressing::Nope => Operand::Nope,
        }
    }
}

} // verus!
