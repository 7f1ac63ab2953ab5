//! The opcode tables: for each opcode byte its instruction, its addressing
//! mode and its base cost in cycles. Both tables are indexed by the high and
//! then the low four bits of the opcode byte.

use super::opecode::Opecode;
use super::operand::Addressing;
use super::operand::Operand;
use crate::binary::byte_to_4bit;
use vstd::prelude::*;

verus! {

/// The instruction and the addressing mode of each opcode byte. A byte that
/// stands for no instruction has the mode `Nope`.
pub const ORDER_SET: [[(Opecode, Addressing); 16]; 16] = [
    [
        (Opecode::BRK, Addressing::Implied),
        (Opecode::ORA, Addressing::IndirectX),
        (Opecode::NOP, Addressing::Nope),
        (Opecode::NOP, Addressing::Nope),
        (Opecode::NOP, Addressing::Nope),
        (Opecode::ORA, Addressing::ZeroPage),
        (Opecode::ASL, Addressing::ZeroPage),
        (Opecode::NOP, Addressing::Nope),
        (Opecode::PHP, Addressing::Implied),
        (Opecode::ORA, Addressing::Immediate),
        (Opecode::ASL, Addressing::Accumulator),
        (Opecode::NOP, Addressing::Nope),
        (Opecode::NOP, Addressing::Nope),
        (Opecode::ORA, Addressing::Absolute),
        (Opecode::ASL, Addressing::Absolute),
        (Opecode::NOP, Addressing::Nope),
    ],
    [
        (Opecode::BPL, Addressing::Relative),
        (Opecode::ORA, Addressing::IndirectY),
        (Opecode::NOP, Addressing::Nope),
        (Opecode::NOP, Addressing::Nope),
        (Opecode::NOP, Addressing::Nope),
        (Opecode::ORA, Addressing::ZeroPageX),
        (Opecode::ASL, Addressing::ZeroPageX),
        (Opecode::NOP, Addressing::Nope),
        (Opecode::CLC, Addressing::Implied),
        (Opecode::ORA, Addressing::AbsoluteY),
        (Opecode::NOP, Addressing::Nope),
        (Opecode::NOP, Addressing::Nope),
        (Opecode::NOP, Addressing::Nope),
        (Opecode::ORA, Addressing::AbsoluteX),
        (Opecode::ASL, Addressing::AbsoluteX),
        (Opecode::NOP, Addressing::Nope),
    ],
    [
        (Opecode::JSR, Addressing::Absolute),
        (Opecode::AND, Addressing::IndirectX),
        (Opecode::NOP, Addressing::Nope),
        (Opecode::NOP, Addressing::Nope),
        (Opecode::BIT, Addressing::ZeroPage),
        (Opecode::AND, Addressing::ZeroPage),
        (Opecode::ROL, Addressing::ZeroPage),
        (Opecode::NOP, Addressing::Nope),
        (Opecode::PLP, Addressing::Implied),
        (Opecode::AND, Addressing::Immediate),
        (Opecode::ROL, Addressing::Accumulator),
        (Opecode::NOP, Addressing::Nope),
        (Opecode::BIT, Addressing::Absolute),
        (Opecode::AND, Addressing::Absolute),
        (Opecode::ROL, Addressing::Absolute),
        (Opecode::NOP, Addressing::Nope),
    ],
    [
        (Opecode::BMI, Addressing::Relative),
        (Opecode::AND, Addressing::IndirectY),
        (Opecode::NOP, Addressing::Nope),
        (Opecode::NOP, Addressing::Nope),
        (Opecode::NOP, Addressing::Nope),
        (Opecode::AND, Addressing::ZeroPageX),
        (Opecode::ROL, Addressing::ZeroPageX),
        (Opecode::NOP, Addressing::Nope),
        (Opecode::SEC, Addressing::Implied),
        (Opecode::AND, Addressing::AbsoluteY),
        (Opecode::NOP, Addressing::Nope),
        (Opecode::NOP, Addressing::Nope),
        (Opecode::NOP, Addressing::Nope),
        (Opecode::AND, Addressing::AbsoluteX),
        (Opecode::ROL, Addressing::AbsoluteX),
        (Opecode::NOP, Addressing::Nope),
    ],
    [
        (Opecode::RTI, Addressing::Implied),
        (Opecode::EOR, Addressing::IndirectX),
        (Opecode::NOP, Addressing::Nope),
        (Opecode::NOP, Addressing::Nope),
        (Opecode::NOP, Addressing::Nope),
        (Opecode::EOR, Addressing::ZeroPage),
        (Opecode::LSR, Addressing::ZeroPage),
        (Opecode::NOP, Addressing::Nope),
        (Opecode::PHA, Addressing::Implied),
        (Opecode::EOR, Addressing::Immediate),
        (Opecode::LSR, Addressing::Accumulator),
        (Opecode::NOP, Addressing::Nope),
        (Opecode::JMP, Addressing::Absolute),
        (Opecode::EOR, Addressing::Absolute),
        (Opecode::LSR, Addressing::Absolute),
        (Opecode::NOP, Addressing::Nope),
    ],
    [
        (Opecode::BVC, Addressing::Relative),
        (Opecode::EOR, Addressing::IndirectY),
        (Opecode::NOP, Addressing::Nope),
        (Opecode::NOP, Addressing::Nope),
        (Opecode::NOP, Addressing::Nope),
        (Opecode::EOR, Addressing::ZeroPageX),
        (Opecode::LSR, Addressing::ZeroPageX),
        (Opecode::NOP, Addressing::Nope),
        (Opecode::CLI, Addressing::Implied),
        (Opecode::EOR, Addressing::AbsoluteY),
        (Opecode::NOP, Addressing::Nope),
        (Opecode::NOP, Addressing::Nope),
        (Opecode::NOP, Addressing::Nope),
        (Opecode::EOR, Addressing::AbsoluteX),
        (Opecode::LSR, Addressing::AbsoluteX),
        (Opecode::NOP, Addressing::Nope),
    ],
    [
        (Opecode::RTS, Addressing::Implied),
        (Opecode::ADC, Addressing::IndirectX),
        (Opecode::NOP, Addressing::Nope),
        (Opecode::NOP, Addressing::Nope),
        (Opecode::NOP, Addressing::Nope),
        (Opecode::ADC, Addressing::ZeroPage),
        (Opecode::ROR, Addressing::ZeroPage),
        (Opecode::NOP, Addressing::Nope),
        (Opecode::PLA, Addressing::Implied),
        (Opecode::ADC, Addressing::Immediate),
        (Opecode::ROR, Addressing::Accumulator),
        (Opecode::NOP, Addressing::Nope),
        (Opecode::JMP, Addressing::AbsoluteIndirect),
        (Opecode::ADC, Addressing::Absolute),
        (Opecode::ROR, Addressing::Absolute),
        (Opecode::NOP, Addressing::Nope),
    ],
    [
        (Opecode::BVS, Addressing::Relative),
        (Opecode::ADC, Addressing::IndirectY),
        (Opecode::NOP, Addressing::Nope),
        (Opecode::NOP, Addressing::Nope),
        (Opecode::NOP, Addressing::Nope),
        (Opecode::ADC, Addressing::ZeroPageX),
        (Opecode::ROR, Addressing::ZeroPageX),
        (Opecode::NOP, Addressing::Nope),
        (Opecode::SEI, Addressing::Implied),
        (Opecode::ADC, Addressing::AbsoluteY),
        (Opecode::NOP, Addressing::Nope),
        (Opecode::NOP, Addressing::Nope),
        (Opecode::NOP, Addressing::Nope),
        (Opecode::ADC, Addressing::AbsoluteX),
        (Opecode::ROR, Addressing::AbsoluteX),
        (Opecode::NOP, Addressing::Nope),
    ],
    [
        (Opecode::NOP, Addressing::Nope),
        (Opecode::STA, Addressing::IndirectX),
        (Opecode::NOP, Addressing::Nope),
        (Opecode::NOP, Addressing::Nope),
        (Opecode::STY, Addressing::ZeroPage),
        (Opecode::STA, Addressing::ZeroPage),
        (Opecode::STX, Addressing::ZeroPage),
        (Opecode::NOP, Addressing::Nope),
        (Opecode::DEY, Addressing::Implied),
        (Opecode::NOP, Addressing::Nope),
        (Opecode::TXA, Addressing::Implied),
        (Opecode::NOP, Addressing::Nope),
        (Opecode::STY, Addressing::Absolute),
        (Opecode::STA, Addressing::Absolute),
        (Opecode::STX, Addressing::Absolute),
        (Opecode::NOP, Addressing::Nope),
    ],
    [
        (Opecode::BCC, Addressing::Relative),
        (Opecode::STA, Addressing::IndirectY),
        (Opecode::NOP, Addressing::Nope),
        (Opecode::NOP, Addressing::Nope),
        (Opecode::STY, Addressing::ZeroPageX),
        (Opecode::STA, Addressing::ZeroPageX),
        (Opecode::STX, Addressing::ZeroPageY),
        (Opecode::NOP, Addressing::Nope),
        (Opecode::TYA, Addressing::Implied),
        (Opecode::STA, Addressing::AbsoluteY),
        (Opecode::TXS, Addressing::Implied),
        (Opecode::NOP, Addressing::Nope),
        (Opecode::NOP, Addressing::Nope),
        (Opecode::STA, Addressing::AbsoluteX),
        (Opecode::NOP, Addressing::Nope),
        (Opecode::NOP, Addressing::Nope),
    ],
    [
        (Opecode::LDY, Addressing::Immediate),
        (Opecode::LDA, Addressing::IndirectX),
        (Opecode::LDX, Addressing::Immediate),
        (Opecode::NOP, Addressing::Nope),
        (Opecode::LDY, Addressing::ZeroPage),
        (Opecode::LDA, Addressing::ZeroPage),
        (Opecode::LDX, Addressing::ZeroPage),
        (Opecode::NOP, Addressing::Nope),
        (Opecode::TAY, Addressing::Implied),
        (Opecode::LDA, Addressing::Immediate),
        (Opecode::TAX, Addressing::Implied),
        (Opecode::NOP, Addressing::Nope),
        (Opecode::LDY, Addressing::Absolute),
        (Opecode::LDA, Addressing::Absolute),
        (Opecode::LDX, Addressing::Absolute),
        (Opecode::NOP, Addressing::Nope),
    ],
    [
        (Opecode::BCS, Addressing::Relative),
        (Opecode::LDA, Addressing::IndirectY),
        (Opecode::NOP, Addressing::Nope),
        (Opecode::NOP, Addressing::Nope),
        (Opecode::LDY, Addressing::ZeroPageX),
        (Opecode::LDA, Addressing::ZeroPageX),
        (Opecode::LDX, Addressing::ZeroPageY),
        (Opecode::NOP, Addressing::Nope),
        (Opecode::CLV, Addressing::Implied),
        (Opecode::LDA, Addressing::AbsoluteY),
        (Opecode::TSX, Addressing::Implied),
        (Opecode::NOP, Addressing::Nope),
        (Opecode::LDY, Addressing::AbsoluteX),
        (Opecode::LDA, Addressing::AbsoluteX),
        (Opecode::LDX, Addressing::AbsoluteY),
        (Opecode::NOP, Addressing::Nope),
    ],
    [
        (Opecode::CPY, Addressing::Immediate),
        (Opecode::CMP, Addressing::IndirectX),
        (Opecode::NOP, Addressing::Nope),
        (Opecode::NOP, Addressing::Nope),
        (Opecode::CPY, Addressing::ZeroPage),
        (Opecode::CMP, Addressing::ZeroPage),
        (Opecode::DEC, Addressing::ZeroPage),
        (Opecode::NOP, Addressing::Nope),
        (Opecode::INY, Addressing::Implied),
        (Opecode::CMP, Addressing::Immediate),
        (Opecode::DEX, Addressing::Implied),
        (Opecode::NOP, Addressing::Nope),
        (Opecode::CPY, Addressing::Absolute),
        (Opecode::CMP, Addressing::Absolute),
        (Opecode::DEC, Addressing::Absolute),
        (Opecode::NOP, Addressing::Nope),
    ],
    [
        (Opecode::BNE, Addressing::Relative),
        (Opecode::CMP, Addressing::IndirectY),
        (Opecode::NOP, Addressing::Nope),
        (Opecode::NOP, Addressing::Nope),
        (Opecode::NOP, Addressing::Nope),
        (Opecode::CMP, Addressing::ZeroPageX),
        (Opecode::DEC, Addressing::ZeroPageX),
        (Opecode::NOP, Addressing::Nope),
        (Opecode::CLD, Addressing::Implied),
        (Opecode::CMP, Addressing::AbsoluteY),
        (Opecode::NOP, Addressing::Nope),
        (Opecode::NOP, Addressing::Nope),
        (Opecode::NOP, Addressing::Nope),
        (Opecode::CMP, Addressing::AbsoluteX),
        (Opecode::DEC, Addressing::AbsoluteX),
        (Opecode::NOP, Addressing::Nope),
    ],
    [
        (Opecode::CPX, Addressing::Immediate),
        (Opecode::SBC, Addressing::IndirectX),
        (Opecode::NOP, Addressing::Nope),
        (Opecode::NOP, Addressing::Nope),
        (Opecode::CPX, Addressing::ZeroPage),
        (Opecode::SBC, Addressing::ZeroPage),
        (Opecode::INC, Addressing::ZeroPage),
        (Opecode::NOP, Addressing::Nope),
        (Opecode::INX, Addressing::Implied),
        (Opecode::SBC, Addressing::Immediate),
        (Opecode::NOP, Addressing::Implied),
        (Opecode::NOP, Addressing::Nope),
        (Opecode::CPX, Addressing::Absolute),
        (Opecode::SBC, Addressing::Absolute),
        (Opecode::INC, Addressing::Absolute),
        (Opecode::NOP, Addressing::Nope),
    ],
    [
        (Opecode::BEQ, Addressing::Relative),
        (Opecode::SBC, Addressing::IndirectY),
        (Opecode::NOP, Addressing::Nope),
        (Opecode::NOP, Addressing::Nope),
        (Opecode::NOP, Addressing::Nope),
        (Opecode::SBC, Addressing::ZeroPageX),
        (Opecode::INC, Addressing::ZeroPageX),
        (Opecode::NOP, Addressing::Nope),
        (Opecode::SED, Addressing::Implied),
        (Opecode::SBC, Addressing::AbsoluteY),
        (Opecode::NOP, Addressing::Nope),
        (Opecode::NOP, Addressing::Nope),
        (Opecode::NOP, Addressing::Nope),
        (Opecode::SBC, Addressing::AbsoluteX),
        (Opecode::INC, Addressing::AbsoluteX),
        (Opecode::NOP, Addressing::Nope),
    ],
];

/// The base cost of each opcode byte in processor cycles. A branch that is
/// taken and an index that crosses a page cost no more than this.
pub const CYCLES: [[usize; 16]; 16] = [
    [7, 6, 2, 2, 2, 3, 5, 2, 3, 2, 2, 2, 2, 4, 6, 2],
    [2, 5, 2, 2, 2, 4, 6, 2, 2, 4, 2, 2, 2, 4, 7, 2],
    [6, 6, 2, 2, 3, 3, 5, 2, 4, 2, 2, 2, 4, 4, 6, 2],
    [2, 5, 2, 2, 2, 4, 6, 2, 2, 4, 2, 2, 2, 4, 7, 2],
    [6, 6, 2, 2, 2, 3, 5, 2, 3, 2, 2, 2, 3, 4, 6, 2],
    [2, 5, 2, 2, 2, 4, 6, 2, 2, 4, 2, 2, 2, 4, 7, 2],
    [6, 6, 2, 2, 2, 3, 5, 2, 4, 2, 2, 2, 5, 4, 6, 2],
    [2, 5, 2, 2, 2, 4, 6, 2, 2, 4, 2, 2, 2, 4, 7, 2],
    [2, 6, 2, 2, 3, 3, 3, 2, 2, 2, 2, 2, 4, 4, 4, 2],
    [2, 6, 2, 2, 4, 4, 4, 2, 2, 5, 2, 2, 2, 5, 2, 2],
    [2, 6, 2, 2, 3, 3, 3, 2, 2, 2, 2, 2, 4, 4, 4, 2],
    [2, 5, 2, 2, 4, 4, 4, 2, 2, 4, 2, 2, 4, 4, 4, 2],
    [2, 6, 2, 2, 3, 3, 5, 2, 2, 2, 2, 2, 4, 4, 6, 2],
    [2, 5, 2, 2, 2, 4, 6, 2, 2, 4, 2, 2, 2, 4, 7, 2],
    [2, 6, 2, 2, 3, 3, 5, 2, 2, 2, 2, 2, 4, 4, 6, 2],
    [2, 5, 2, 2, 2, 4, 6, 2, 2, 4, 2, 2, 2, 4, 7, 2],
];

/// The instruction and the operand of the opcode byte `code`.
pub open spec fn order_of(code: u8) -> (Opecode, Operand) {
    (ORDER_SET[code as int / 16][code as int % 16].0, ORDER_SET[code as int / 16][code as int % 16].1.operand_of())
}

/// The base cost of the opcode byte `code`.
pub open spec fn cycles_of(code: u8) -> usize {
    CYCLES[code as int / 16][code as int % 16]
}

/// Looks an opcode byte up in both tables.
pub fn decode(code: u8) -> (r: ((Opecode, Operand), usize))
    ensures
        r.0 == order_of(code),
        r.1 == cycles_of(code),
{
    let (upper, lower) = byte_to_4bit(code);
    let (opecode, addressing) = ORDER_SET[upper as usize][lower as usize];
    ((opecode, addressing.operand()), CYCLES[upper as usize][lower as usize])
}

} // verus!
