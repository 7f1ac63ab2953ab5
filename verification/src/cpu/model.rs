//! What the processor does, stated over plain values: how an operand is
//! found, what each instruction changes, and what one step amounts to.

use super::memory::BusView;
use super::register::Register;
use super::status_register::packed;
use super::status_register::unpacked;
use super::status_register::StatusRegister;
use crate::binary::bit_of;
use crate::program::order::cycles_of;
use crate::program::order::order_of;
use crate::program::IndexRegister;
use crate::program::Opecode;
use crate::program::Operand;
use crate::result::Error;
use vstd::prelude::*;

verus! {

/// What an addressing mode resolves to.
#[derive(Clone, Copy, Debug)]
pub enum Value {
    /// The operand lies in memory at this address.
    Ref(u16),
    /// The operand is this byte.
    Immediate(u8),
    /// There is no operand.
    Null,
}

/// The registers that instructions name.
#[derive(Clone, Copy, Debug)]
pub enum R {
    A,
    X,
    Y,
    S,
    P,
    PC,
}

/// What an instruction needs of its operand.
#[derive(Clone, Copy, Debug)]
pub enum Need {
    /// A byte, taken from memory or given with the instruction.
    Byte,
    /// An address.
    Address,
    /// Nothing.
    Nothing,
    /// The instruction has no handler.
    Unsupported,
}

/// What each instruction needs.
pub open spec fn need_of(opecode: Opecode) -> Need {
    match opecode {
        Opecode::ADC
        | Opecode::SBC
        | Opecode::AND
        | Opecode::ORA
        | Opecode::EOR
        | Opecode::ASL
        | Opecode::LSR
        | Opecode::ROL
        | Opecode::ROR
        | Opecode::CMP
        | Opecode::CPX
        | Opecode::CPY
        | Opecode::LDA
        | Opecode::LDX
        | Opecode::LDY => Need::Byte,
        Opecode::BCC
        | Opecode::BCS
        | Opecode::BEQ
        | Opecode::BNE
        | Opecode::BVC
        | Opecode::BVS
        | Opecode::BPL
        | Opecode::BMI
        | Opecode::JMP
        | Opecode::JSR
        | Opecode::INC
        | Opecode::DEC
        | Opecode::STA
        | Opecode::STX
        | Opecode::STY => Need::Address,
        Opecode::BIT | Opecode::RTI => Need::Unsupported,
        _ => Need::Nothing,
    }
}

/// Whether the instruction has a handler for what the addressing mode
/// resolves to. An opcode that stands for no instruction has none.
pub open spec fn supported(opecode: Opecode, operand: Operand) -> bool {
    match need_of(opecode) {
        Need::Byte => !(operand is Implied || operand is Nope),
        Need::Address => !(operand is Implied || operand is Nope || operand is Immediate
            || operand is Accumulator),
        Need::Nothing => !(operand is Nope),
        Need::Unsupported => false,
    }
}

/// Whether the instruction's handler takes the value.
pub open spec fn accepts(opecode: Opecode, value: Value) -> bool {
    match need_of(opecode) {
        Need::Byte => !(value is Null),
        Need::Address => value is Ref,
        Need::Nothing => true,
        Need::Unsupported => false,
    }
}

/// The word with the low byte `low` and the high byte `high`.
pub open spec fn word(low: u8, high: u8) -> u16 {
    (low + 256 * high) as u16
}

/// The high byte of a word.
pub open spec fn high(w: u16) -> u8 {
    (w / 256) as u8
}

/// The low byte of a word.
pub open spec fn low(w: u16) -> u8 {
    (w % 256) as u8
}

/// A byte read as a signed number.
pub open spec fn signed(b: u8) -> int {
    if b >= 128 {
        b - 256
    } else {
        b as int
    }
}

/// One for a set flag, zero for a clear one.
pub open spec fn digit(flag: bool) -> int {
    if flag {
        1
    } else {
        0
    }
}

/// The flags with negative and zero taken from `result`: negative is its
/// bit 7, zero tells whether it is zero.
pub open spec fn nz(p: StatusRegister, result: u8) -> StatusRegister {
    StatusRegister { negative: bit_of(result, 7), zero: result == 0, ..p }
}

/// The address that `pc + 1 + distance` names, where `distance` is `offset`
/// read as a signed byte and the sum wraps at 16 bits.
pub open spec fn branch_target(pc: u16, offset: u8) -> u16 {
    if offset < 128 {
        pc.wrapping_add(1).wrapping_add(offset as u16)
    } else {
        pc.wrapping_add(1).wrapping_sub((256 - offset) as u16)
    }
}

/// The processor and what stands behind its bus.
pub struct CpuView {
    pub register: Register,
    pub memory: BusView,
}

impl CpuView {
    pub open spec fn wf(self) -> bool {
        self.memory.wf()
    }

    /// The index register that `r` names.
    pub open spec fn index(self, r: IndexRegister) -> u8 {
        match r {
            IndexRegister::X => self.register.x,
            IndexRegister::Y => self.register.y,
        }
    }

    /// The register that `r` names, for the three that hold data.
    pub open spec fn data(self, r: R) -> u8 {
        match r {
            R::X => self.register.x,
            R::Y => self.register.y,
            _ => self.register.a,
        }
    }

    /// What the operand resolves to, and the bus after the operand bytes
    /// have been read. The program counter points at the first operand byte.
    ///
    /// - Absolute: the word that follows, low byte first, is the address.
    /// - Absolute indirect: the word that follows is the address of the
    ///   address, which is read low byte first from there and from the
    ///   address after it, with no wrap at the end of a page.
    /// - Absolute indexed: the word that follows plus the index register,
    ///   the sum wrapping at 16 bits.
    /// - Zero page: the byte that follows is the address.
    /// - Zero page indexed: the byte that follows plus the index register,
    ///   with no wrap: the address may lie past the zero page.
    /// - Relative: the byte that follows is a signed distance from the
    ///   address after it.
    /// - Indirect indexed, by X or by Y alike: the byte that follows is the
    ///   address of a word, whose high byte is read there and whose low
    ///   byte is read at the address after it; the address is that word
    ///   plus the index register, the sum wrapping at 16 bits.
    /// - Immediate: the byte that follows is the operand.
    /// - Accumulator: the accumulator is the operand.
    pub open spec fn resolve(self, operand: Operand) -> (Result<Value, Error>, BusView) {
        let pc = self.register.pc as usize;
        match operand {
            Operand::Absolute => match self.memory.read_word(pc, (pc + 1) as usize) {
                (Ok(w), memory) => (Ok(Value::Ref(w)), memory),
                (Err(error), memory) => (Err(error), memory),
            },
            Operand::AbsoluteIndirect => match self.memory.read_word(pc, (pc + 1) as usize) {
                (Ok(pointer), memory) => match memory.read_word(
                    pointer as usize,
                    (pointer + 1) as usize,
                ) {
                    (Ok(w), memory) => (Ok(Value::Ref(w)), memory),
                    (Err(error), memory) => (Err(error), memory),
                },
                (Err(error), memory) => (Err(error), memory),
            },
            Operand::AbsoluteIndex(r) => match self.memory.read_word(pc, (pc + 1) as usize) {
                (Ok(w), memory) => (Ok(Value::Ref(w.wrapping_add(self.index(r) as u16))), memory),
                (Err(error), memory) => (Err(error), memory),
            },
            Operand::ZeroPage => match self.memory.read(pc) {
                (Ok(b), memory) => (Ok(Value::Ref(b as u16)), memory),
                (Err(error), memory) => (Err(error), memory),
            },
            Operand::ZeroPageIndex(r) => match self.memory.read(pc) {
                (Ok(b), memory) => (Ok(Value::Ref((b + self.index(r)) as u16)), memory),
                (Err(error), memory) => (Err(error), memory),
            },
            Operand::Relative => match self.memory.read(pc) {
                (Ok(b), memory) => (Ok(Value::Ref(branch_target(self.register.pc, b))), memory),
                (Err(error), memory) => (Err(error), memory),
            },
            Operand::IndirectIndex(r) => match self.memory.read(pc) {
                (Ok(b), memory) => match memory.read_pair(b as usize, (b + 1) as usize) {
                    (Ok((h, l)), memory) => (
                        Ok(Value::Ref(word(l, h).wrapping_add(self.index(r) as u16))),
                        memory,
                    ),
                    (Err(error), memory) => (Err(error), memory),
                },
                (Err(error), memory) => (Err(error), memory),
            },
            Operand::Immediate => match self.memory.read(pc) {
                (Ok(b), memory) => (Ok(Value::Immediate(b)), memory),
                (Err(error), memory) => (Err(error), memory),
            },
            Operand::Accumulator => (Ok(Value::Immediate(self.register.a)), self.memory),
            Operand::Implied | Operand::Nope => (Ok(Value::Null), self.memory),
        }
    }

    /// The byte that a value stands for, and the bus after it has been
    /// fetched.
    pub open spec fn operand_byte(self, value: Value) -> (Result<u8, Error>, BusView) {
        match value {
            Value::Ref(address) => self.memory.read(address as usize),
            Value::Immediate(v) => (Ok(v), self.memory),
            Value::Null => (Ok(0u8), self.memory),
        }
    }

    /// The processor with the registers `register`.
    pub open spec fn with(self, register: Register) -> CpuView {
        CpuView { register, memory: self.memory }
    }

    /// The processor with the bus `memory`.
    pub open spec fn over(self, memory: BusView) -> CpuView {
        CpuView { register: self.register, memory }
    }

    /// An instruction that turns the operand byte `m` into new registers:
    /// the operand is fetched; if that fails nothing but the bus has changed.
    pub open spec fn on_byte(
        self,
        value: Value,
        f: spec_fn(Register, u8) -> Register,
    ) -> (Result<(), Error>, CpuView) {
        match self.operand_byte(value) {
            (Ok(m), memory) => (Ok(()), CpuView { register: f(self.register, m), memory }),
            (Err(error), memory) => (Err(error), self.over(memory)),
        }
    }

    /// Addition with carry: the accumulator takes the low eight bits of
    /// accumulator plus operand plus carry. Carry tells that the sum passed
    /// 255; overflow tells that the sum of the three, accumulator and
    /// operand read as signed bytes, does not fit a signed byte.
    pub open spec fn adc(self, value: Value) -> (Result<(), Error>, CpuView) {
        self.on_byte(
            value,
            |r: Register, m: u8|
                {
                    let sum = r.a + m + digit(r.p.carry);
                    let result = (sum % 256) as u8;
                    let wide = signed(r.a) + signed(m) + digit(r.p.carry);
                    Register {
                        a: result,
                        p: StatusRegister {
                            carry: sum > 255,
                            overflow: wide < -128 || wide > 127,
                            ..nz(r.p, result)
                        },
                        ..r
                    }
                },
        )
    }

    /// Subtraction with borrow: the accumulator takes the low eight bits of
    /// accumulator minus operand minus one if carry is clear. Carry tells
    /// that nothing had to be borrowed; overflow tells that the difference,
    /// accumulator and operand read as signed bytes, does not fit a signed
    /// byte.
    pub open spec fn sbc(self, value: Value) -> (Result<(), Error>, CpuView) {
        self.on_byte(
            value,
            |r: Register, m: u8|
                {
                    let difference = r.a - m - (1 - digit(r.p.carry));
                    let result = (difference % 256) as u8;
                    let wide = signed(r.a) - signed(m) - (1 - digit(r.p.carry));
                    Register {
                        a: result,
                        p: StatusRegister {
                            carry: difference >= 0,
                            overflow: wide < -128 || wide > 127,
                            ..nz(r.p, result)
                        },
                        ..r
                    }
                },
        )
    }

    pub open spec fn and(self, value: Value) -> (Result<(), Error>, CpuView) {
        self.on_byte(
            value,
            |r: Register, m: u8| Register { a: r.a & m, p: nz(r.p, r.a & m), ..r },
        )
    }

    pub open spec fn ora(self, value: Value) -> (Result<(), Error>, CpuView) {
        self.on_byte(
            value,
            |r: Register, m: u8| Register { a: r.a | m, p: nz(r.p, r.a | m), ..r },
        )
    }

    pub open spec fn eor(self, value: Value) -> (Result<(), Error>, CpuView) {
        self.on_byte(
            value,
            |r: Register, m: u8| Register { a: r.a ^ m, p: nz(r.p, r.a ^ m), ..r },
        )
    }

    /// A comparison of the register value `left` with the operand: the flags
    /// are those of `left` minus the operand, with carry telling that
    /// nothing had to be borrowed, which is that `left` is not the smaller.
    pub open spec fn compared(self, value: Value, left: u8) -> (Result<(), Error>, CpuView) {
        self.on_byte(
            value,
            |r: Register, m: u8|
                Register {
                    p: StatusRegister { carry: left >= m, ..nz(r.p, left.wrapping_sub(m)) },
                    ..r
                },
        )
    }

    /// A load: the register that `target` names takes the operand, and the
    /// negative and zero flags follow it.
    pub open spec fn loaded(self, value: Value, target: R) -> (Result<(), Error>, CpuView) {
        self.on_byte(
            value,
            |r: Register, m: u8|
                match target {
                    R::X => Register { x: m, p: nz(r.p, m), ..r },
                    R::Y => Register { y: m, p: nz(r.p, m), ..r },
                    _ => Register { a: m, p: nz(r.p, m), ..r },
                },
        )
    }

    /// A shift or a rotation: the operand byte `m` becomes `f(m, carry)`,
    /// which goes back to where the operand came from, to memory or to the
    /// accumulator. Carry takes the bit that left the byte, `out(m)`;
    /// negative and zero follow the new byte. If the write fails the flags
    /// have changed all the same.
    pub open spec fn shifted(
        self,
        value: Value,
        f: spec_fn(u8, bool) -> u8,
        out: spec_fn(u8) -> bool,
    ) -> (Result<(), Error>, CpuView) {
        match self.operand_byte(value) {
            (Ok(m), memory) => {
                let result = f(m, self.register.p.carry);
                let p = StatusRegister { carry: out(m), ..nz(self.register.p, result) };
                match value {
                    Value::Ref(address) => (
                        memory.write(address as usize, result).0,
                        CpuView {
                            register: Register { p, ..self.register },
                            memory: memory.write(address as usize, result).1,
                        },
                    ),
                    _ => (
                        Ok(()),
                        CpuView { register: Register { a: result, p, ..self.register }, memory },
                    ),
                }
            },
            (Err(error), memory) => (Err(error), self.over(memory)),
        }
    }

    /// Shift left: bit 7 leaves to carry, bit 0 becomes clear.
    pub open spec fn asl(self, value: Value) -> (Result<(), Error>, CpuView) {
        self.shifted(value, |m: u8, c: bool| ((m * 2) % 256) as u8, |m: u8| m >= 128)
    }

    /// Shift right: bit 0 leaves to carry, bit 7 becomes clear.
    pub open spec fn lsr(self, value: Value) -> (Result<(), Error>, CpuView) {
        self.shifted(value, |m: u8, c: bool| m / 2, |m: u8| m % 2 == 1)
    }

    /// Rotate left: bit 7 leaves to carry, the old carry enters as bit 0.
    pub open spec fn rol(self, value: Value) -> (Result<(), Error>, CpuView) {
        self.shifted(
            value,
            |m: u8, c: bool| ((m * 2) % 256 + digit(c)) as u8,
            |m: u8| m >= 128,
        )
    }

    /// Rotate right: bit 0 leaves to carry, the old carry enters as bit 7.
    pub open spec fn ror(self, value: Value) -> (Result<(), Error>, CpuView) {
        self.shifted(value, |m: u8, c: bool| (m / 2 + 128 * digit(c)) as u8, |m: u8| m % 2 == 1)
    }

    /// A branch: the program counter takes the target if `taken`, and stays
    /// behind the operand otherwise.
    pub open spec fn branch(self, value: Value, taken: bool) -> (Result<(), Error>, CpuView) {
        match value {
            Value::Ref(target) if taken => (
                Ok(()),
                self.with(Register { pc: target, ..self.register }),
            ),
            _ => (Ok(()), self),
        }
    }

    /// The address that a value names.
    pub open spec fn target(value: Value) -> u16 {
        match value {
            Value::Ref(address) => address,
            _ => 0,
        }
    }

    pub open spec fn jmp(self, value: Value) -> (Result<(), Error>, CpuView) {
        (Ok(()), self.with(Register { pc: Self::target(value), ..self.register }))
    }

    /// A push: the byte is written at the stack pointer, which then moves
    /// down by one. If the write fails the stack pointer stays.
    pub open spec fn pushed(self, v: u8) -> (Result<(), Error>, CpuView) {
        match self.memory.write(self.register.sp as usize, v) {
            (Ok(_), memory) => (
                Ok(()),
                CpuView {
                    register: Register { sp: self.register.sp.wrapping_sub(1), ..self.register },
                    memory,
                },
            ),
            (Err(error), memory) => (Err(error), self.over(memory)),
        }
    }

    /// A pop: the stack pointer moves up by one, then the byte there is
    /// read.
    pub open spec fn popped(self) -> (Result<u8, Error>, CpuView) {
        let sp = self.register.sp.wrapping_add(1);
        (
            self.memory.read(sp as usize).0,
            CpuView {
                register: Register { sp, ..self.register },
                memory: self.memory.read(sp as usize).1,
            },
        )
    }

    /// Jump to subroutine: the address of the instruction's last byte is
    /// pushed, high byte first, and the program counter takes the target.
    pub open spec fn jsr(self, value: Value) -> (Result<(), Error>, CpuView) {
        let back = self.register.pc.wrapping_sub(1);
        match self.pushed(high(back)) {
            (Ok(_), first) => match first.pushed(low(back)) {
                (Ok(_), second) => (
                    Ok(()),
                    second.with(Register { pc: Self::target(value), ..second.register }),
                ),
                (Err(error), second) => (Err(error), second),
            },
            (Err(error), first) => (Err(error), first),
        }
    }

    /// Return from subroutine: the low and then the high byte of an address
    /// are popped, and the program counter takes the address after it.
    pub open spec fn rts(self) -> (Result<(), Error>, CpuView) {
        match self.popped() {
            (Ok(l), first) => match first.popped() {
                (Ok(h), second) => (
                    Ok(()),
                    second.with(Register { pc: word(l, h).wrapping_add(1), ..second.register }),
                ),
                (Err(error), second) => (Err(error), second),
            },
            (Err(error), first) => (Err(error), first),
        }
    }

    /// Break: nothing while interrupts are disabled. Otherwise the break
    /// flag is set, the program counter, high byte first, and the status
    /// byte are pushed, interrupts are disabled, and the program counter
    /// takes the word at 0xFFFE.
    pub open spec fn brk(self) -> (Result<(), Error>, CpuView) {
        if self.register.p.interrupt {
            (Ok(()), self)
        } else {
            let p = StatusRegister { breaked: true, ..self.register.p };
            let start = self.with(Register { p, ..self.register });
            match start.pushed(high(self.register.pc)) {
                (Ok(_), first) => match first.pushed(low(self.register.pc)) {
                    (Ok(_), second) => match second.pushed(packed(p)) {
                        (Ok(_), third) => {
                            let masked = StatusRegister { interrupt: true, ..p };
                            let vector = third.memory.read_word(0xFFFE, 0xFFFF);
                            let after = Register { p: masked, ..third.register };
                            match vector.0 {
                                Ok(w) => (
                                    Ok(()),
                                    CpuView {
                                        register: Register { pc: w, ..after },
                                        memory: vector.1,
                                    },
                                ),
                                Err(error) => (
                                    Err(error),
                                    CpuView { register: after, memory: vector.1 },
                                ),
                            }
                        },
                        (Err(error), third) => (Err(error), third),
                    },
                    (Err(error), second) => (Err(error), second),
                },
                (Err(error), first) => (Err(error), first),
            }
        }
    }

    /// Increment or decrement of memory: the byte at the operand's address
    /// becomes `f` of itself, and the negative and zero flags follow it. The
    /// flags change only once the byte has been written.
    pub open spec fn stepped(self, value: Value, f: spec_fn(u8) -> u8) -> (
        Result<(), Error>,
        CpuView,
    ) {
        let address = Self::target(value) as usize;
        match self.memory.read(address) {
            (Ok(m), memory) => match memory.write(address, f(m)) {
                (Ok(_), memory) => (
                    Ok(()),
                    CpuView {
                        register: Register { p: nz(self.register.p, f(m)), ..self.register },
                        memory,
                    },
                ),
                (Err(error), memory) => (Err(error), self.over(memory)),
            },
            (Err(error), memory) => (Err(error), self.over(memory)),
        }
    }

    pub open spec fn inc(self, value: Value) -> (Result<(), Error>, CpuView) {
        self.stepped(value, |m: u8| m.wrapping_add(1))
    }

    pub open spec fn dec(self, value: Value) -> (Result<(), Error>, CpuView) {
        self.stepped(value, |m: u8| m.wrapping_sub(1))
    }

    /// A store: the register that `source` names is written to the
    /// operand's address.
    pub open spec fn stored(self, value: Value, source: R) -> (Result<(), Error>, CpuView) {
        (
            self.memory.write(Self::target(value) as usize, self.data(source)).0,
            self.over(self.memory.write(Self::target(value) as usize, self.data(source)).1),
        )
    }

    /// The processor with new registers and nothing else changed.
    pub open spec fn set(self, register: Register) -> (Result<(), Error>, CpuView) {
        (Ok(()), self.with(register))
    }

    /// Pull accumulator: the accumulator takes the popped byte, and the
    /// negative and zero flags follow it.
    pub open spec fn pla(self) -> (Result<(), Error>, CpuView) {
        match self.popped() {
            (Ok(v), after) => (
                Ok(()),
                after.with(Register { a: v, p: nz(after.register.p, v), ..after.register }),
            ),
            (Err(error), after) => (Err(error), after),
        }
    }

    /// Pull status: the flags take the popped status byte.
    pub open spec fn plp(self) -> (Result<(), Error>, CpuView) {
        match self.popped() {
            (Ok(v), after) => (Ok(()), after.with(Register { p: unpacked(v), ..after.register })),
            (Err(error), after) => (Err(error), after),
        }
    }

    /// What the instruction does to the processor, given what its operand
    /// resolved to. Of the two instructions that have no handler this says
    /// nothing: a step fails before it would run them.
    pub open spec fn run(self, opecode: Opecode, value: Value) -> (Result<(), Error>, CpuView) {
        let r = self.register;
        let p = r.p;
        match opecode {
            Opecode::ADC => self.adc(value),
            Opecode::SBC => self.sbc(value),
            Opecode::AND => self.and(value),
            Opecode::ORA => self.ora(value),
            Opecode::EOR => self.eor(value),
            Opecode::ASL => self.asl(value),
            Opecode::LSR => self.lsr(value),
            Opecode::ROL => self.rol(value),
            Opecode::ROR => self.ror(value),
            Opecode::BCC => self.branch(value, !p.carry),
            Opecode::BCS => self.branch(value, p.carry),
            Opecode::BEQ => self.branch(value, p.zero),
            Opecode::BNE => self.branch(value, !p.zero),
            Opecode::BVC => self.branch(value, !p.overflow),
            Opecode::BVS => self.branch(value, p.overflow),
            Opecode::BPL => self.branch(value, !p.negative),
            Opecode::BMI => self.branch(value, p.negative),
            Opecode::BIT => vstd::pervasive::arbitrary(),
            Opecode::JMP => self.jmp(value),
            Opecode::JSR => self.jsr(value),
            Opecode::RTS => self.rts(),
            Opecode::BRK => self.brk(),
            Opecode::RTI => vstd::pervasive::arbitrary(),
            Opecode::CMP => self.compared(value, r.a),
            Opecode::CPX => self.compared(value, r.x),
            Opecode::CPY => self.compared(value, r.y),
            Opecode::INC => self.inc(value),
            Opecode::DEC => self.dec(value),
            Opecode::INX => self.set(
                Register { x: r.x.wrapping_add(1), p: nz(p, r.x.wrapping_add(1)), ..r },
            ),
            Opecode::DEX => self.set(
                Register { x: r.x.wrapping_sub(1), p: nz(p, r.x.wrapping_sub(1)), ..r },
            ),
            Opecode::INY => self.set(
                Register { y: r.y.wrapping_add(1), p: nz(p, r.y.wrapping_add(1)), ..r },
            ),
            Opecode::DEY => self.set(
                Register { y: r.y.wrapping_sub(1), p: nz(p, r.y.wrapping_sub(1)), ..r },
            ),
            Opecode::CLC => self.set(Register { p: StatusRegister { carry: false, ..p }, ..r }),
            Opecode::SEC => self.set(Register { p: StatusRegister { carry: true, ..p }, ..r }),
            Opecode::CLI => self.set(Register { p: StatusRegister { interrupt: false, ..p }, ..r }),
            Opecode::SEI => self.set(Register { p: StatusRegister { interrupt: true, ..p }, ..r }),
            Opecode::CLD => self.set(Register { p: StatusRegister { decimal: false, ..p }, ..r }),
            Opecode::SED => self.set(Register { p: StatusRegister { decimal: true, ..p }, ..r }),
            Opecode::CLV => self.set(Register { p: StatusRegister { overflow: false, ..p }, ..r }),
            Opecode::LDA => self.loaded(value, R::A),
            Opecode::LDX => self.loaded(value, R::X),
            Opecode::LDY => self.loaded(value, R::Y),
            Opecode::STA => self.stored(value, R::A),
            Opecode::STX => self.stored(value, R::X),
            Opecode::STY => self.stored(value, R::Y),
            Opecode::TAX => self.set(Register { x: r.a, p: nz(p, r.a), ..r }),
            Opecode::TXA => self.set(Register { a: r.x, p: nz(p, r.x), ..r }),
            Opecode::TAY => self.set(Register { y: r.a, p: nz(p, r.a), ..r }),
            Opecode::TYA => self.set(Register { a: r.y, p: nz(p, r.y), ..r }),
            Opecode::TSX => self.set(Register { x: r.s, p: nz(p, r.s), ..r }),
            Opecode::TXS => self.set(Register { s: r.x, ..r }),
            Opecode::PHA => self.pushed(r.a),
            Opecode::PLA => self.pla(),
            Opecode::PHP => self.pushed(packed(p)),
            Opecode::PLP => self.plp(),
            Opecode::NOP => (Ok(()), self),
        }
    }

    /// The registers after the opcode and `length` operand bytes have been
    /// passed.
    pub open spec fn past(self, length: usize) -> Register {
        Register {
            pc: self.register.pc.wrapping_add(1).wrapping_add(length as u16),
            ..self.register
        }
    }

    /// One instruction: the opcode at the program counter is read and
    /// looked up; the operand is resolved from the bytes that follow; the
    /// program counter moves past them; the instruction runs. The result is
    /// the instruction's base cost in cycles.
    ///
    /// An opcode without a handler for its operand fails before anything
    /// but the read of the opcode has happened. Whatever fails, the
    /// registers are then as they were before the step; what was read from
    /// or written to the bus before the failure stays read or written.
    pub open spec fn step(self) -> (Result<usize, Error>, CpuView) {
        match self.memory.read(self.register.pc as usize) {
            (Err(error), memory) => (Err(error), self.over(memory)),
            (Ok(code), memory) => {
                let (opecode, operand) = order_of(code);
                if !supported(opecode, operand) {
                    (Err(Error::NotYetImplemented(code as usize)), self.over(memory))
                } else {
                    let fetched = CpuView {
                        register: Register {
                            pc: self.register.pc.wrapping_add(1),
                            ..self.register
                        },
                        memory,
                    };
                    match fetched.resolve(operand) {
                        (Err(error), memory) => (Err(error), self.over(memory)),
                        (Ok(value), memory) => {
                            let ready = CpuView {
                                register: self.past(operand.length_of()),
                                memory,
                            };
                            match ready.run(opecode, value) {
                                (Ok(_), after) => (Ok(cycles_of(code)), after),
                                (Err(error), after) => (Err(error), self.over(after.memory)),
                            }
                        },
                    }
                }
            },
        }
    }

    /// Reset: the registers return to their power-on values with interrupts
    /// disabled, and the program counter takes the word at 0xFFFC, or
    /// 0x8000 where that word cannot be read.
    pub open spec fn reset(self) -> CpuView {
        let vector = self.memory.read_word(0xFFFC, 0xFFFD);
        CpuView {
            register: Register {
                p: StatusRegister { interrupt: true, ..Register::initial().p },
                pc: match vector.0 {
                    Ok(w) => w,
                    Err(_) => 0x8000,
                },
                ..Register::initial()
            },
            memory: vector.1,
        }
    }
}

/// What is pushed is popped: with the stack pointer in work memory, a push
/// of `v` followed by a pop gives `v` and leaves the stack pointer where it
/// was.
pub proof fn lemma_push_then_pop(cpu: CpuView, v: u8)
    requires
        cpu.register.sp < 0x0800,
        cpu.memory.wram.len() >= 0x0800,
    ensures
        cpu.pushed(v).0 is Ok,
        cpu.pushed(v).1.memory.wram == cpu.memory.wram.update(cpu.register.sp as int, v),
        cpu.pushed(v).1.popped().0 == Ok::<u8, Error>(v),
        cpu.pushed(v).1.popped().1.register == cpu.register,
        cpu.pushed(v).1.popped().1.memory == cpu.pushed(v).1.memory,
{
}

/// The status byte goes round the stack: with the stack pointer in work
/// memory, pushing the flags and pulling them again restores every flag and
/// the stack pointer, and the byte on the stack has its reserved bit set.
pub proof fn lemma_php_then_plp(cpu: CpuView)
    requires
        cpu.register.sp < 0x0800,
        cpu.memory.wram.len() >= 0x0800,
    ensures
        cpu.run(Opecode::PHP, Value::Null).0 is Ok,
        bit_of(cpu.run(Opecode::PHP, Value::Null).1.memory.wram[cpu.register.sp as int], 5),
        cpu.run(Opecode::PHP, Value::Null).1.run(Opecode::PLP, Value::Null).0 is Ok,
        cpu.run(Opecode::PHP, Value::Null).1.run(Opecode::PLP, Value::Null).1.register
            == cpu.register,
{
    lemma_push_then_pop(cpu, packed(cpu.register.p));
    super::status_register::lemma_pack_then_unpack(cpu.register.p);
}

/// A jump to a subroutine and the return from it pair up. With the two
/// bytes below and at the stack pointer in work memory, the jump pushes the
/// high and then the low byte of the address before the program counter and
/// goes to the target; the return that follows pops them, leaves the stack
/// pointer where it was and puts the program counter back.
pub proof fn lemma_jsr_then_rts(cpu: CpuView, target: u16)
    requires
        1 <= cpu.register.sp < 0x0800,
        cpu.memory.wram.len() >= 0x0800,
    ensures
        cpu.jsr(Value::Ref(target)).0 is Ok,
        cpu.jsr(Value::Ref(target)).1.register.pc == target,
        cpu.jsr(Value::Ref(target)).1.register.sp == cpu.register.sp.wrapping_sub(2),
        cpu.jsr(Value::Ref(target)).1.memory.wram == cpu.memory.wram.update(
            cpu.register.sp as int,
            high(cpu.register.pc.wrapping_sub(1)),
        ).update(cpu.register.sp - 1, low(cpu.register.pc.wrapping_sub(1))),
        cpu.jsr(Value::Ref(target)).1.rts().0 is Ok,
        cpu.jsr(Value::Ref(target)).1.rts().1.register == cpu.register,
        cpu.jsr(Value::Ref(target)).1.rts().1.memory == cpu.jsr(Value::Ref(target)).1.memory,
{
    let back = cpu.register.pc.wrapping_sub(1);
    let sp = cpu.register.sp;
    let first = cpu.pushed(high(back)).1;
    assert(cpu.pushed(high(back)).0 is Ok);
    assert(first.register.sp == sp - 1);
    let second = first.pushed(low(back)).1;
    assert(first.pushed(low(back)).0 is Ok);
    assert(second.register.sp == sp.wrapping_sub(2));
    let called = cpu.jsr(Value::Ref(target)).1;
    assert(called.memory == second.memory);
    assert(called.memory.wram =~= cpu.memory.wram.update(sp as int, high(back)).update(
        sp - 1,
        low(back),
    ));
    let one = called.popped();
    assert(one.0 == Ok::<u8, Error>(low(back)));
    let two = one.1.popped();
    assert(two.0 == Ok::<u8, Error>(high(back)));
    assert(word(low(back), high(back)) == back);
}

} // verus!
