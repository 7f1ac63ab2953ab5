//! The processor: its register file, its bus and its interpreter.

pub mod cpu;
pub mod memory;
pub mod model;
pub mod register;
pub mod status_register;

pub use cpu::CPU;
pub use memory::MemoryMap;
pub use register::Register;
