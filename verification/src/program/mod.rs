//! The instruction set: instructions, addressing modes and the opcode tables.

pub mod listing;
pub mod opecode;
pub mod operand;
pub mod order;

pub use listing::debug_program;
pub use opecode::Opecode;
pub use operand::Addressing;
pub use operand::IndexRegister;
pub use operand::Operand;
pub use order::CYCLES;
pub use order::ORDER_SET;
