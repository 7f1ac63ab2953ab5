//! The interpreter: it fetches an opcode, resolves its operand and runs the
//! instruction's handler.

use super::memory::MemoryMap;
use super::model::accepts;
use super::model::nz;
use super::model::supported;
use super::model::CpuView;
use super::model::Need;
use super::model::Value;
use super::model::R;
use super::register::Register;
use super::status_register::SFlag;
use super::status_register::StatusRegister;
use crate::binary::bit_of;
use crate::program::order::decode;
use crate::program::IndexRegister;
use crate::program::Opecode;
use crate::program::Operand;
use crate::result::e;
use crate::result::Error;
use vstd::prelude::*;

verus! {

pub struct CPU {
    register: Register,
    memory: MemoryMap,
}

impl View for CPU {
    type V = CpuView;

    closed spec fn view(&self) -> CpuView {
        CpuView { register: self.register, memory: self.memory@ }
    }
}

/// What an instruction needs of its operand.
pub fn need(opecode: Opecode) -> (r: Need)
    ensures
        r == super::model::need_of(opecode),
{
    match opecode {
        Opecode::ADC
        | Opecode::SBC
        | Opecode::AND
        | Opecode::ORA
        | Opecode::EOR
        | Opecode::ASL
        | Opecode::LSR
        | Opecode::ROL
        | Opecode::ROR
        | Opecode::CMP
        | Opecode::CPX
        | Opecode::CPY
        | Opecode::LDA
        | Opecode::LDX
        | Opecode::LDY => Need::Byte,
        Opecode::BCC
        | Opecode::BCS
        | Opecode::BEQ
        | Opecode::BNE
        | Opecode::BVC
        | Opecode::BVS
        | Opecode::BPL
        | Opecode::BMI
        | Opecode::JMP
        | Opecode::JSR
        | Opecode::INC
        | Opecode::DEC
        | Opecode::STA
        | Opecode::STX
        | Opecode::STY => Need::Address,
        Opecode::BIT | Opecode::RTI => Need::Unsupported,
        _ => Need::Nothing,
    }
}

/// Whether the instruction has a handler for the addressing mode.
pub fn is_supported(opecode: Opecode, operand: Operand) -> (r: bool)
    ensures
        r == supported(opecode, operand),
{
    match need(opecode) {
        Need::Byte => !matches!(operand, Operand::Implied | Operand::Nope),
        Need::Address => !matches!(
            operand,
            Operand::Implied | Operand::Nope | Operand::Immediate | Operand::Accumulator
        ),
        Need::Nothing => !matches!(operand, Operand::Nope),
        Need::Unsupported => false,
    }
}

impl CPU {
    /// Whether the bus is well formed.
    pub closed spec fn wf(&self) -> bool {
        self.memory.wf()
    }

    /// A well-formed processor has a well-formed view.
    pub proof fn lemma_wf(&self)
        requires
            self.wf(),
        ensures
            self@.wf(),
    {
        self.memory.lemma_wf();
    }

    pub fn new(register: Register, memory: MemoryMap) -> (r: Self)
        requires
            memory.wf(),
        ensures
            r.wf(),
            r@ == (CpuView { register, memory: memory@ }),
    {
        Self { register, memory }
    }

    /// The register file.
    pub fn register(&self) -> (r: &Register)
        ensures
            *r == self@.register,
    {
        &self.register
    }

    /// The bus.
    pub fn memory(&self) -> (r: &MemoryMap)
        ensures
            r@ == self@.memory,
            self.wf() ==> r.wf(),
    {
        &self.memory
    }

    /// The bus, to reach what stands behind it.
    pub fn memory_mut(&mut self) -> (r: &mut MemoryMap)
        ensures
            r@ == old(self)@.memory,
            old(self).wf() ==> r.wf(),
            final(self)@ == (CpuView { register: old(self)@.register, memory: final(r)@ }),
            final(r).wf() ==> final(self).wf(),
    {
        &mut self.memory
    }

    /// The value of an index register.
    fn index(&self, r: IndexRegister) -> (v: u8)
        ensures
            v == self@.index(r),
    {
        match r {
            IndexRegister::X => self.register.x,
            IndexRegister::Y => self.register.y,
        }
    }

    /// Resolves the operand whose first byte lies at `pc`, which is where
    /// the program counter points.
    fn addr(&mut self, operand: Operand, pc: usize) -> (r: Result<Value, Error>)
        requires
            old(self).wf(),
            pc == old(self)@.register.pc,
        ensures
            final(self).wf(),
            (r, final(self)@.memory) == old(self)@.resolve(operand),
            final(self)@.register == old(self)@.register,
    {
        Ok(
            match operand {
                Operand::Absolute => Value::Ref(self.memory.get_word([pc, pc + 1])?),
                Operand::AbsoluteIndirect => Value::Ref(
                    {
                        let addr = self.memory.get_word([pc, pc + 1])? as usize;
                        self.memory.get_word([addr, addr + 1])?
                    },
                ),
                Operand::AbsoluteIndex(r) => Value::Ref(
                    self.memory.get_word([pc, pc + 1])?.wrapping_add(self.index(r) as u16),
                ),
                Operand::ZeroPage => Value::Ref(self.memory.get(pc)? as u16),
                Operand::ZeroPageIndex(r) => Value::Ref(
                    self.memory.get(pc)? as u16 + self.index(r) as u16,
                ),
                Operand::Relative => {
                    let offset = self.memory.get(pc)?;
                    let next = self.register.pc.wrapping_add(1);
                    if offset < 128 {
                        Value::Ref(next.wrapping_add(offset as u16))
                    } else {
                        Value::Ref(next.wrapping_sub(256 - offset as u16))
                    }
                },
                Operand::IndirectIndex(r) => {
                    let v = self.memory.get(pc)? as usize;
                    let high = self.memory.get(v)?;
                    let low = self.memory.get(v + 1)?;
                    Value::Ref((low as u16 + 256 * (high as u16)).wrapping_add(self.index(r) as u16))
                },
                Operand::Immediate => Value::Immediate(self.memory.get(pc)?),
                Operand::Accumulator => Value::Immediate(self.register.a),
                Operand::Implied | Operand::Nope => Value::Null,
            },
        )
    }

    /// Reads the opcode at `pc` and looks it up.
    fn read_program(&mut self, pc: usize) -> (r: Result<(u8, (Opecode, Operand), usize), Error>)
        requires
            old(self).wf(),
        ensures
            final(self).wf(),
            final(self)@ == old(self)@.over(old(self)@.memory.read(pc).1),
            match old(self)@.memory.read(pc).0 {
                Ok(code) => r == Ok::<(u8, (Opecode, Operand), usize), Error>(
                    (
                        code,
                        crate::program::order::order_of(code),
                        crate::program::order::cycles_of(code),
                    ),
                ),
                Err(error) => r == Err::<(u8, (Opecode, Operand), usize), Error>(error),
            },
    {
        let b = self.memory.get(pc)?;
        let (order, cycle) = decode(b);
        Ok((b, order, cycle))
    }

    /// Executes one instruction and returns its base cost in cycles.
    pub fn exec(&mut self) -> (r: Result<usize, Error>)
        requires
            old(self).wf(),
        ensures
            final(self).wf(),
            (r, final(self)@) == old(self)@.step(),
            r is Err ==> final(self)@.register == old(self)@.register,
    {
        let before = self.register;
        let (code, (opecode, operand), cycle) = self.read_program(self.register.pc as usize)?;
        if !is_supported(opecode, operand) {
            return Err(e::not_yet_implemented(code as usize));
        }
        self.register.pc = self.register.pc.wrapping_add(1);
        let value = match self.addr(operand, self.register.pc as usize) {
            Ok(value) => value,
            Err(error) => {
                self.register = before;
                return Err(error);
            },
        };
        self.register.pc = self.register.pc.wrapping_add(operand.length() as u16);
        match self.order(opecode, value) {
            Ok(()) => Ok(cycle),
            Err(error) => {
                self.register = before;
                Err(error)
            },
        }
    }

    /// Runs the handler of the instruction.
    fn order(&mut self, opecode: Opecode, value: Value) -> (r: Result<(), Error>)
        requires
            old(self).wf(),
            accepts(opecode, value),
        ensures
            final(self).wf(),
            (r, final(self)@) == old(self)@.run(opecode, value),
    {
        match opecode {
            Opecode::ADC => self.adc(value),
            Opecode::SBC => self.sbc(value),
            Opecode::AND => self.and(value),
            Opecode::ORA => self.ora(value),
            Opecode::EOR => self.eor(value),
            Opecode::ASL => self.asl(value),
            Opecode::LSR => self.lsr(value),
            Opecode::ROL => self.rol(value),
            Opecode::ROR => self.ror(value),
            Opecode::BCC => self.bcc(value),
            Opecode::BCS => self.bcs(value),
            Opecode::BEQ => self.beq(value),
            Opecode::BNE => self.bne(value),
            Opecode::BVC => self.bvc(value),
            Opecode::BVS => self.bvs(value),
            Opecode::BPL => self.bpl(value),
            Opecode::BMI => self.bmi(value),
            Opecode::BIT => vstd::pervasive::unreached(),
            Opecode::JMP => self.jmp(value),
            Opecode::JSR => self.jsr(value),
            Opecode::RTS => self.rts(value),
            Opecode::BRK => self.brk(value),
            Opecode::RTI => vstd::pervasive::unreached(),
            Opecode::CMP => self.cmp(value),
            Opecode::CPX => self.cpx(value),
            Opecode::CPY => self.cpy(value),
            Opecode::INC => self.inc(value),
            Opecode::DEC => self.dec(value),
            Opecode::INX => self.inx(value),
            Opecode::DEX => self.dex(value),
            Opecode::INY => self.iny(value),
            Opecode::DEY => self.dey(value),
            Opecode::CLC => self.clc(value),
            Opecode::SEC => self.sec(value),
            Opecode::CLI => self.cli(value),
            Opecode::SEI => self.sei(value),
            Opecode::CLD => self.cld(value),
            Opecode::SED => self.sed(value),
            Opecode::CLV => self.clv(value),
            Opecode::LDA => self.lda(value),
            Opecode::LDX => self.ldx(value),
            Opecode::LDY => self.ldy(value),
            Opecode::STA => self.sta(value),
            Opecode::STX => self.stx(value),
            Opecode::STY => self.sty(value),
            Opecode::TAX => self.tax(value),
            Opecode::TXA => self.txa(value),
            Opecode::TAY => self.tay(value),
            Opecode::TYA => self.tya(value),
            Opecode::TSX => self.tsx(value),
            Opecode::TXS => self.txs(value),
            Opecode::PHA => self.pha(value),
            Opecode::PLA => self.pla(value),
            Opecode::PHP => self.php(value),
            Opecode::PLP => self.plp(value),
            Opecode::NOP => self.nop(value),
        }
    }

    /// Sets each of the named flags from `result`: negative to its bit 7,
    /// zero to whether it is zero, carry to whether it is below 0x80. Only
    /// these three flags can be named.
    fn update_flag(&mut self, flags: Vec<SFlag>, result: u8)
        requires
            forall|i: int|
                0 <= i < flags@.len() ==> flags@[i] == SFlag::N || flags@[i] == SFlag::Z
                    || flags@[i] == SFlag::C,
        ensures
            final(self).memory == old(self).memory,
            final(self).register == (Register {
                p: StatusRegister {
                    negative: if flags@.contains(SFlag::N) {
                        bit_of(result, 7)
                    } else {
                        old(self).register.p.negative
                    },
                    zero: if flags@.contains(SFlag::Z) {
                        result == 0
                    } else {
                        old(self).register.p.zero
                    },
                    carry: if flags@.contains(SFlag::C) {
                        result < 0x80
                    } else {
                        old(self).register.p.carry
                    },
                    ..old(self).register.p
                },
                ..old(self).register
            }),
    {
        let mut i: usize = 0;
        while i < flags.len()
            invariant
                i <= flags@.len(),
                forall|k: int|
                    0 <= k < flags@.len() ==> flags@[k] == SFlag::N || flags@[k] == SFlag::Z
                        || flags@[k] == SFlag::C,
                self.memory == old(self).memory,
                self.register == (Register {
                    p: StatusRegister {
                        negative: if flags@.take(i as int).contains(SFlag::N) {
                            bit_of(result, 7)
                        } else {
                            old(self).register.p.negative
                        },
                        zero: if flags@.take(i as int).contains(SFlag::Z) {
                            result == 0
                        } else {
                            old(self).register.p.zero
                        },
                        carry: if flags@.take(i as int).contains(SFlag::C) {
                            result < 0x80
                        } else {
                            old(self).register.p.carry
                        },
                        ..old(self).register.p
                    },
                    ..old(self).register
                }),
            decreases flags@.len() - i,
        {
            proof {
                let before = flags@.take(i as int);
                let after = flags@.take(i + 1);
                assert(after =~= before.push(flags@[i as int]));
                assert forall|f: SFlag| after.contains(f) <==> (before.contains(f) || f
                    == flags@[i as int]) by {
                    if before.contains(f) {
                        let k = choose|k: int| 0 <= k < before.len() && before[k] == f;
                        assert(after[k] == f);
                    }
                    if f == flags@[i as int] {
                        assert(after[i as int] == f);
                    }
                }
            }
            match flags[i] {
                SFlag::N => self.register.p.update_negative(result),
                SFlag::Z => self.register.p.update_zero(result),
                SFlag::C => self.register.p.update_carry(result),
                _ => vstd::pervasive::unreached(),
            }
            i += 1;
        }
        assert(flags@.take(flags@.len() as int) =~= flags@);
    }

    /// Sets the negative and the zero flag from `result`.
    fn update_nz(&mut self, result: u8)
        ensures
            final(self).memory == old(self).memory,
            final(self).register == (Register {
                p: nz(old(self).register.p, result),
                ..old(self).register
            }),
    {
        let flags = vec![SFlag::N, SFlag::Z];
        assert(flags@[0] == SFlag::N && flags@[1] == SFlag::Z);
        assert(!flags@.contains(SFlag::C));
        self.update_flag(flags, result);
    }

    /// The byte that a value stands for.
    fn load(&mut self, value: Value) -> (r: Result<u8, Error>)
        requires
            old(self).wf(),
            !(value is Null),
        ensures
            final(self).wf(),
            (r, final(self)@.memory) == old(self)@.operand_byte(value),
            final(self)@.register == old(self)@.register,
    {
        match value {
            Value::Ref(value) => self.memory.get(value as usize),
            Value::Immediate(v) => Ok(v),
            Value::Null => vstd::pervasive::unreached(),
        }
    }

    /// A byte read as a signed number.
    fn signed(b: u8) -> (r: i16)
        ensures
            r == super::model::signed(b),
    {
        if b >= 128 {
            b as i16 - 256
        } else {
            b as i16
        }
    }

    fn adc(&mut self, value: Value) -> (r: Result<(), Error>)
        requires
            old(self).wf(),
            !(value is Null),
        ensures
            final(self).wf(),
            (r, final(self)@) == old(self)@.adc(value),
    {
        let value = self.load(value)?;
        let carry: u8 = if self.register.p.c() {
            1
        } else {
            0
        };
        let sum: u16 = self.register.a as u16 + value as u16 + carry as u16;
        let wide: i16 = Self::signed(self.register.a) + Self::signed(value) + carry as i16;
        let v: u8 = (sum % 256) as u8;
        self.register.p.toggle(SFlag::V, wide < -128 || wide > 127);
        self.register.p.toggle(SFlag::C, sum > 255);
        self.update_nz(v);
        self.register.a = v;
        Ok(())
    }

    fn sbc(&mut self, value: Value) -> (r: Result<(), Error>)
        requires
            old(self).wf(),
            !(value is Null),
        ensures
            final(self).wf(),
            (r, final(self)@) == old(self)@.sbc(value),
    {
        let value = self.load(value)?;
        let borrow: i16 = if !self.register.p.c() {
            1
        } else {
            0
        };
        let difference: i16 = self.register.a as i16 - value as i16 - borrow;
        let wide: i16 = Self::signed(self.register.a) - Self::signed(value) - borrow;
        let v: u8 = if difference < 0 {
            (difference + 256) as u8
        } else {
            difference as u8
        };
        self.register.p.toggle(SFlag::V, wide < -128 || wide > 127);
        self.register.p.toggle(SFlag::C, difference >= 0);
        self.update_nz(v);
        self.register.a = v;
        Ok(())
    }

    fn and(&mut self, value: Value) -> (r: Result<(), Error>)
        requires
            old(self).wf(),
            !(value is Null),
        ensures
            final(self).wf(),
            (r, final(self)@) == old(self)@.and(value),
    {
        let value = self.load(value)?;
        self.register.a = self.register.a & value;
        self.update_nz(self.register.a);
        Ok(())
    }

    fn ora(&mut self, value: Value) -> (r: Result<(), Error>)
        requires
            old(self).wf(),
            !(value is Null),
        ensures
            final(self).wf(),
            (r, final(self)@) == old(self)@.ora(value),
    {
        let value = self.load(value)?;
        self.register.a = self.register.a | value;
        self.update_nz(self.register.a);
        Ok(())
    }

    fn eor(&mut self, value: Value) -> (r: Result<(), Error>)
        requires
            old(self).wf(),
            !(value is Null),
        ensures
            final(self).wf(),
            (r, final(self)@) == old(self)@.eor(value),
    {
        let value = self.load(value)?;
        self.register.a = self.register.a ^ value;
        self.update_nz(self.register.a);
        Ok(())
    }

    /// Puts the result of a shift back where its operand came from.
    fn store_back(&mut self, value: Value, result: u8) -> (r: Result<(), Error>)
        requires
            old(self).wf(),
        ensures
            final(self).wf(),
            match value {
                Value::Ref(address) => (r, final(self)@) == (
                    old(self)@.memory.write(address as usize, result).0,
                    old(self)@.over(old(self)@.memory.write(address as usize, result).1),
                ),
                _ => r == Ok::<(), Error>(()) && final(self)@ == old(self)@.with(
                    Register { a: result, ..old(self)@.register },
                ),
            },
    {
        match value {
            Value::Ref(address) => self.memory.put(address as usize, result),
            _ => {
                self.register.a = result;
                Ok(())
            },
        }
    }

    fn asl(&mut self, value: Value) -> (r: Result<(), Error>)
        requires
            old(self).wf(),
            !(value is Null),
        ensures
            final(self).wf(),
            (r, final(self)@) == old(self)@.asl(value),
    {
        let m = self.load(value)?;
        let result: u8 = ((m as u16 * 2) % 256) as u8;
        self.register.p.toggle(SFlag::C, m >= 128);
        self.update_nz(result);
        self.store_back(value, result)
    }

    fn lsr(&mut self, value: Value) -> (r: Result<(), Error>)
        requires
            old(self).wf(),
            !(value is Null),
        ensures
            final(self).wf(),
            (r, final(self)@) == old(self)@.lsr(value),
    {
        let m = self.load(value)?;
        let result: u8 = m / 2;
        self.register.p.toggle(SFlag::C, m % 2 == 1);
        self.update_nz(result);
        self.store_back(value, result)
    }

    fn rol(&mut self, value: Value) -> (r: Result<(), Error>)
        requires
            old(self).wf(),
            !(value is Null),
        ensures
            final(self).wf(),
            (r, final(self)@) == old(self)@.rol(value),
    {
        let m = self.load(value)?;
        let carry: u16 = if self.register.p.c() {
            1
        } else {
            0
        };
        let result: u8 = ((m as u16 * 2) % 256 + carry) as u8;
        self.register.p.toggle(SFlag::C, m >= 128);
        self.update_nz(result);
        self.store_back(value, result)
    }

    fn ror(&mut self, value: Value) -> (r: Result<(), Error>)
        requires
            old(self).wf(),
            !(value is Null),
        ensures
            final(self).wf(),
            (r, final(self)@) == old(self)@.ror(value),
    {
        let m = self.load(value)?;
        let carry: u8 = if self.register.p.c() {
            128
        } else {
            0
        };
        let result: u8 = m / 2 + carry;
        self.register.p.toggle(SFlag::C, m % 2 == 1);
        self.update_nz(result);
        self.store_back(value, result)
    }

    /// Moves the program counter to the target if `flag` holds.
    fn branch(&mut self, value: Value, flag: bool) -> (r: Result<(), Error>)
        requires
            value is Ref,
        ensures
            final(self).memory == old(self).memory,
            (r, final(self)@) == old(self)@.branch(value, flag),
    {
        if flag {
            let value = match value {
                Value::Ref(value) => value,
                _ => vstd::pervasive::unreached(),
            };
            self.register.pc = value;
        }
        Ok(())
    }

    fn bcc(&mut self, value: Value) -> (r: Result<(), Error>)
        requires
            value is Ref,
        ensures
            final(self).memory == old(self).memory,
            (r, final(self)@) == old(self)@.branch(value, !old(self)@.register.p.carry),
    {
        self.branch(value, !self.register.p.c())
    }

    fn bcs(&mut self, value: Value) -> (r: Result<(), Error>)
        requires
            value is Ref,
        ensures
            final(self).memory == old(self).memory,
            (r, final(self)@) == old(self)@.branch(value, old(self)@.register.p.carry),
    {
        self.branch(value, self.register.p.c())
    }

    fn beq(&mut self, value: Value) -> (r: Result<(), Error>)
        requires
            value is Ref,
        ensures
            final(self).memory == old(self).memory,
            (r, final(self)@) == old(self)@.branch(value, old(self)@.register.p.zero),
    {
        self.branch(value, self.register.p.z())
    }

    fn bne(&mut self, value: Value) -> (r: Result<(), Error>)
        requires
            value is Ref,
        ensures
            final(self).memory == old(self).memory,
            (r, final(self)@) == old(self)@.branch(value, !old(self)@.register.p.zero),
    {
        self.branch(value, !self.register.p.z())
    }

    fn bvc(&mut self, value: Value) -> (r: Result<(), Error>)
        requires
            value is Ref,
        ensures
            final(self).memory == old(self).memory,
            (r, final(self)@) == old(self)@.branch(value, !old(self)@.register.p.overflow),
    {
        self.branch(value, !self.register.p.v())
    }

    fn bvs(&mut self, value: Value) -> (r: Result<(), Error>)
        requires
            value is Ref,
        ensures
            final(self).memory == old(self).memory,
            (r, final(self)@) == old(self)@.branch(value, old(self)@.register.p.overflow),
    {
        self.branch(value, self.register.p.v())
    }

    fn bpl(&mut self, value: Value) -> (r: Result<(), Error>)
        requires
            value is Ref,
        ensures
            final(self).memory == old(self).memory,
            (r, final(self)@) == old(self)@.branch(value, !old(self)@.register.p.negative),
    {
        self.branch(value, !self.register.p.n())
    }

    fn bmi(&mut self, value: Value) -> (r: Result<(), Error>)
        requires
            value is Ref,
        ensures
            final(self).memory == old(self).memory,
            (r, final(self)@) == old(self)@.branch(value, old(self)@.register.p.negative),
    {
        self.branch(value, self.register.p.n())
    }

    fn jmp(&mut self, value: Value) -> (r: Result<(), Error>)
        requires
            value is Ref,
        ensures
            final(self).memory == old(self).memory,
            (r, final(self)@) == old(self)@.jmp(value),
    {
        let value = match value {
            Value::Ref(value) => value,
            _ => vstd::pervasive::unreached(),
        };
        self.register.pc = value;
        Ok(())
    }

    fn jsr(&mut self, value: Value) -> (r: Result<(), Error>)
        requires
            old(self).wf(),
            value is Ref,
        ensures
            final(self).wf(),
            (r, final(self)@) == old(self)@.jsr(value),
    {
        let to = match value {
            Value::Ref(value) => value,
            _ => vstd::pervasive::unreached(),
        };
        // The program counter already points at the next instruction; what
        // is pushed is the address of this instruction's last byte.
        let (upper, lower) = crate::binary::u16_to_u8(self.register.pc.wrapping_sub(1));
        self.stack_push(upper)?;
        self.stack_push(lower)?;
        self.register.pc = to;
        Ok(())
    }

    fn rts(&mut self, _value: Value) -> (r: Result<(), Error>)
        requires
            old(self).wf(),
        ensures
            final(self).wf(),
            (r, final(self)@) == old(self)@.rts(),
    {
        let lower = self.stack_pop()?;
        let upper = self.stack_pop()?;
        self.register.pc = (lower as u16 + 256 * (upper as u16)).wrapping_add(1);
        Ok(())
    }

    /// Returns the processor to its power-on state and loads the program
    /// counter from the reset vector.
    pub fn reset(&mut self) -> (r: Result<(), Error>)
        requires
            old(self).wf(),
        ensures
            final(self).wf(),
            r == Ok::<(), Error>(()),
            final(self)@ == old(self)@.reset(),
    {
        self.register = Register::default();
        self.register.p.on(SFlag::I);
        self.register.pc = if let Ok(addr) = self.memory.get_word([0xFFFC, 0xFFFD]) {
            addr
        } else {
            0x8000
        };
        Ok(())
    }

    #[verifier::rlimit(40)]
    fn brk(&mut self, _value: Value) -> (r: Result<(), Error>)
        requires
            old(self).wf(),
        ensures
            final(self).wf(),
            (r, final(self)@) == old(self)@.brk(),
    {
        if !self.register.p.i() {
            self.register.p.on(SFlag::B);
            let (upper, lower) = crate::binary::u16_to_u8(self.register.pc);
            self.stack_push(upper)?;
            self.stack_push(lower)?;
            self.stack_push(u8::from(self.register.p))?;
            self.register.p.on(SFlag::I);
            self.register.pc = self.memory.get_word([0xFFFE, 0xFFFF])?;
        }
        Ok(())
    }

    /// Compares the register that `flag` names with the operand.
    fn calc_cmp(&mut self, value: Value, flag: R) -> (r: Result<(), Error>)
        requires
            old(self).wf(),
            !(value is Null),
            flag is A || flag is X || flag is Y,
        ensures
            final(self).wf(),
            (r, final(self)@) == old(self)@.compared(value, old(self)@.data(flag)),
    {
        let value = self.load(value)?;
        let result = match flag {
            R::A => self.register.a,
            R::X => self.register.x,
            R::Y => self.register.y,
            _ => vstd::pervasive::unreached(),
        };
        self.register.p.toggle(SFlag::C, result >= value);
        self.update_nz(result.wrapping_sub(value));
        Ok(())
    }

    fn cmp(&mut self, value: Value) -> (r: Result<(), Error>)
        requires
            old(self).wf(),
            !(value is Null),
        ensures
            final(self).wf(),
            (r, final(self)@) == old(self)@.compared(value, old(self)@.register.a),
    {
        self.calc_cmp(value, R::A)
    }

    fn cpx(&mut self, value: Value) -> (r: Result<(), Error>)
        requires
            old(self).wf(),
            !(value is Null),
        ensures
            final(self).wf(),
            (r, final(self)@) == old(self)@.compared(value, old(self)@.register.x),
    {
        self.calc_cmp(value, R::X)
    }

    fn cpy(&mut self, value: Value) -> (r: Result<(), Error>)
        requires
            old(self).wf(),
            !(value is Null),
        ensures
            final(self).wf(),
            (r, final(self)@) == old(self)@.compared(value, old(self)@.register.y),
    {
        self.calc_cmp(value, R::Y)
    }

    fn inc(&mut self, value: Value) -> (r: Result<(), Error>)
        requires
            old(self).wf(),
            value is Ref,
        ensures
            final(self).wf(),
            (r, final(self)@) == old(self)@.inc(value),
    {
        let value = match value {
            Value::Ref(value) => value,
            _ => vstd::pervasive::unreached(),
        } as usize;
        let result = self.memory.get(value)?.wrapping_add(1);
        self.memory.put(value, result)?;
        self.update_nz(result);
        Ok(())
    }

    fn dec(&mut self, value: Value) -> (r: Result<(), Error>)
        requires
            old(self).wf(),
            value is Ref,
        ensures
            final(self).wf(),
            (r, final(self)@) == old(self)@.dec(value),
    {
        let value = match value {
            Value::Ref(value) => value,
            _ => vstd::pervasive::unreached(),
        } as usize;
        let result = self.memory.get(value)?.wrapping_sub(1);
        self.memory.put(value, result)?;
        self.update_nz(result);
        Ok(())
    }

    fn inx(&mut self, _value: Value) -> (r: Result<(), Error>)
        ensures
            final(self).memory == old(self).memory,
            (r, final(self)@) == old(self)@.run(Opecode::INX, Value::Null),
    {
        self.register.x = self.register.x.wrapping_add(1);
        self.update_nz(self.register.x);
        Ok(())
    }

    fn dex(&mut self, _value: Value) -> (r: Result<(), Error>)
        ensures
            final(self).memory == old(self).memory,
            (r, final(self)@) == old(self)@.run(Opecode::DEX, Value::Null),
    {
        self.register.x = self.register.x.wrapping_sub(1);
        self.update_nz(self.register.x);
        Ok(())
    }

    fn iny(&mut self, _value: Value) -> (r: Result<(), Error>)
        ensures
            final(self).memory == old(self).memory,
            (r, final(self)@) == old(self)@.run(Opecode::INY, Value::Null),
    {
        self.register.y = self.register.y.wrapping_add(1);
        self.update_nz(self.register.y);
        Ok(())
    }

    fn dey(&mut self, _value: Value) -> (r: Result<(), Error>)
        ensures
            final(self).memory == old(self).memory,
            (r, final(self)@) == old(self)@.run(Opecode::DEY, Value::Null),
    {
        self.register.y = self.register.y.wrapping_sub(1);
        self.update_nz(self.register.y);
        Ok(())
    }

    fn clc(&mut self, _value: Value) -> (r: Result<(), Error>)
        ensures
            final(self).memory == old(self).memory,
            (r, final(self)@) == old(self)@.run(Opecode::CLC, Value::Null),
    {
        self.register.p.off(SFlag::C);
        Ok(())
    }

    fn sec(&mut self, _value: Value) -> (r: Result<(), Error>)
        ensures
            final(self).memory == old(self).memory,
            (r, final(self)@) == old(self)@.run(Opecode::SEC, Value::Null),
    {
        self.register.p.on(SFlag::C);
        Ok(())
    }

    fn cli(&mut self, _value: Value) -> (r: Result<(), Error>)
        ensures
            final(self).memory == old(self).memory,
            (r, final(self)@) == old(self)@.run(Opecode::CLI, Value::Null),
    {
        self.register.p.off(SFlag::I);
        Ok(())
    }

    fn sei(&mut self, _value: Value) -> (r: Result<(), Error>)
        ensures
            final(self).memory == old(self).memory,
            (r, final(self)@) == old(self)@.run(Opecode::SEI, Value::Null),
    {
        self.register.p.on(SFlag::I);
        Ok(())
    }

    fn cld(&mut self, _value: Value) -> (r: Result<(), Error>)
        ensures
            final(self).memory == old(self).memory,
            (r, final(self)@) == old(self)@.run(Opecode::CLD, Value::Null),
    {
        self.register.p.off(SFlag::D);
        Ok(())
    }

    fn sed(&mut self, _value: Value) -> (r: Result<(), Error>)
        ensures
            final(self).memory == old(self).memory,
            (r, final(self)@) == old(self)@.run(Opecode::SED, Value::Null),
    {
        self.register.p.on(SFlag::D);
        Ok(())
    }

    fn clv(&mut self, _value: Value) -> (r: Result<(), Error>)
        ensures
            final(self).memory == old(self).memory,
            (r, final(self)@) == old(self)@.run(Opecode::CLV, Value::Null),
    {
        self.register.p.off(SFlag::V);
        Ok(())
    }

    /// Loads the operand into the register that `r` names.
    fn load_to_register(&mut self, value: Value, r: R) -> (res: Result<(), Error>)
        requires
            old(self).wf(),
            !(value is Null),
            r is A || r is X || r is Y,
        ensures
            final(self).wf(),
            (res, final(self)@) == old(self)@.loaded(value, r),
    {
        let v = self.load(value)?;
        match r {
            R::A => {
                self.register.a = v;
            },
            R::X => {
                self.register.x = v;
            },
            R::Y => {
                self.register.y = v;
            },
            _ => vstd::pervasive::unreached(),
        };
        self.update_nz(v);
        Ok(())
    }

    fn lda(&mut self, value: Value) -> (r: Result<(), Error>)
        requires
            old(self).wf(),
            !(value is Null),
        ensures
            final(self).wf(),
            (r, final(self)@) == old(self)@.loaded(value, R::A),
    {
        self.load_to_register(value, R::A)
    }

    fn ldx(&mut self, value: Value) -> (r: Result<(), Error>)
        requires
            old(self).wf(),
            !(value is Null),
        ensures
            final(self).wf(),
            (r, final(self)@) == old(self)@.loaded(value, R::X),
    {
        self.load_to_register(value, R::X)
    }

    fn ldy(&mut self, value: Value) -> (r: Result<(), Error>)
        requires
            old(self).wf(),
            !(value is Null),
        ensures
            final(self).wf(),
            (r, final(self)@) == old(self)@.loaded(value, R::Y),
    {
        self.load_to_register(value, R::Y)
    }

    /// Writes the register that `r` names to the operand's address.
    fn load_to_memory(&mut self, value: Value, r: R) -> (res: Result<(), Error>)
        requires
            old(self).wf(),
            value is Ref,
            r is A || r is X || r is Y,
        ensures
            final(self).wf(),
            (res, final(self)@) == old(self)@.stored(value, r),
    {
        let value = match value {
            Value::Ref(value) => value,
            _ => vstd::pervasive::unreached(),
        };
        self.memory.put(
            value as usize,
            match r {
                R::A => self.register.a,
                R::X => self.register.x,
                R::Y => self.register.y,
                _ => vstd::pervasive::unreached(),
            },
        )
    }

    fn sta(&mut self, value: Value) -> (r: Result<(), Error>)
        requires
            old(self).wf(),
            value is Ref,
        ensures
            final(self).wf(),
            (r, final(self)@) == old(self)@.stored(value, R::A),
    {
        self.load_to_memory(value, R::A)
    }

    fn stx(&mut self, value: Value) -> (r: Result<(), Error>)
        requires
            old(self).wf(),
            value is Ref,
        ensures
            final(self).wf(),
            (r, final(self)@) == old(self)@.stored(value, R::X),
    {
        self.load_to_memory(value, R::X)
    }

    fn sty(&mut self, value: Value) -> (r: Result<(), Error>)
        requires
            old(self).wf(),
            value is Ref,
        ensures
            final(self).wf(),
            (r, final(self)@) == old(self)@.stored(value, R::Y),
    {
        self.load_to_memory(value, R::Y)
    }

    fn tax(&mut self, _value: Value) -> (r: Result<(), Error>)
        ensures
            final(self).memory == old(self).memory,
            (r, final(self)@) == old(self)@.run(Opecode::TAX, Value::Null),
    {
        self.register.x = self.register.a;
        self.update_nz(self.register.a);
        Ok(())
    }

    fn txa(&mut self, _value: Value) -> (r: Result<(), Error>)
        ensures
            final(self).memory == old(self).memory,
            (r, final(self)@) == old(self)@.run(Opecode::TXA, Value::Null),
    {
        self.register.a = self.register.x;
        self.update_nz(self.register.a);
        Ok(())
    }

    fn tay(&mut self, _value: Value) -> (r: Result<(), Error>)
        ensures
            final(self).memory == old(self).memory,
            (r, final(self)@) == old(self)@.run(Opecode::TAY, Value::Null),
    {
        self.register.y = self.register.a;
        self.update_nz(self.register.a);
        Ok(())
    }

    fn tya(&mut self, _value: Value) -> (r: Result<(), Error>)
        ensures
            final(self).memory == old(self).memory,
            (r, final(self)@) == old(self)@.run(Opecode::TYA, Value::Null),
    {
        self.register.a = self.register.y;
        self.update_nz(self.register.a);
        Ok(())
    }

    fn tsx(&mut self, _value: Value) -> (r: Result<(), Error>)
        ensures
            final(self).memory == old(self).memory,
            (r, final(self)@) == old(self)@.run(Opecode::TSX, Value::Null),
    {
        self.register.x = self.register.s;
        self.update_nz(self.register.x);
        Ok(())
    }

    fn txs(&mut self, _value: Value) -> (r: Result<(), Error>)
        ensures
            final(self).memory == old(self).memory,
            (r, final(self)@) == old(self)@.run(Opecode::TXS, Value::Null),
    {
        self.register.s = self.register.x;
        Ok(())
    }

    fn pha(&mut self, _value: Value) -> (r: Result<(), Error>)
        requires
            old(self).wf(),
        ensures
            final(self).wf(),
            (r, final(self)@) == old(self)@.pushed(old(self)@.register.a),
    {
        self.stack_push(self.register.a)
    }

    fn pla(&mut self, _value: Value) -> (r: Result<(), Error>)
        requires
            old(self).wf(),
        ensures
            final(self).wf(),
            (r, final(self)@) == old(self)@.pla(),
    {
        self.register.a = self.stack_pop()?;
        self.update_nz(self.register.a);
        Ok(())
    }

    fn php(&mut self, _value: Value) -> (r: Result<(), Error>)
        requires
            old(self).wf(),
        ensures
            final(self).wf(),
            (r, final(self)@) == old(self)@.pushed(
                super::status_register::packed(old(self)@.register.p),
            ),
    {
        self.stack_push(self.register.p.into())
    }

    fn plp(&mut self, _value: Value) -> (r: Result<(), Error>)
        requires
            old(self).wf(),
        ensures
            final(self).wf(),
            (r, final(self)@) == old(self)@.plp(),
    {
        self.register.p = self.stack_pop()?.into();
        Ok(())
    }

    fn nop(&self, _value: Value) -> (r: Result<(), Error>)
        ensures
            r == Ok::<(), Error>(()),
    {
        Ok(())
    }

    /// Writes `v` at the stack pointer and moves the stack pointer down.
    fn stack_push(&mut self, v: u8) -> (r: Result<(), Error>)
        requires
            old(self).wf(),
        ensures
            final(self).wf(),
            (r, final(self)@) == old(self)@.pushed(v),
    {
        self.memory.put(self.register.sp as usize, v)?;
        self.register.sp = self.register.sp.wrapping_sub(1);
        Ok(())
    }

    /// Moves the stack pointer up and reads the byte there.
    fn stack_pop(&mut self) -> (r: Result<u8, Error>)
        requires
            old(self).wf(),
        ensures
            final(self).wf(),
            (r, final(self)@) == old(self)@.popped(),
    {
        self.register.sp = self.register.sp.wrapping_add(1);
        self.memory.get(self.register.sp as usize)
    }
}

} // verus!
