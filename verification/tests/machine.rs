use famicom::cpu::cpu::is_supported;
use famicom::cpu::cpu::need;
use famicom::cpu::memory::decode;
use famicom::cpu::memory::Policy;
use famicom::cpu::memory::Region;
use famicom::cpu::model::Need;
use famicom::cpu::status_register::SFlag;
use famicom::cpu::status_register::StatusRegister;
use famicom::cpu::MemoryMap;
use famicom::cpu::Register;
use famicom::cpu::CPU;
use famicom::display::Display;
use famicom::ines::SpriteROM;
use famicom::ppu;
use famicom::ppu::PPU;
use famicom::program::order;
use famicom::program::IndexRegister;
use famicom::program::Opecode;
use famicom::program::Operand;
use famicom::result::Error;

fn bus_over(program: Vec<u8>) -> MemoryMap {
    let video = ppu::MemoryMap::new(SpriteROM::new(&[0u8; 16]));
    let unit = PPU::new(ppu::Register::default(), video, Display::default());
    MemoryMap::new(unit, program, vec![0; 0x0800], vec![0; 0x20], vec![0; 0x2000], vec![0; 0x1FE0])
}

fn machine_with(register: Register, code: &[u8]) -> CPU {
    let mut program = vec![0u8; 0x8000];
    program[..code.len()].copy_from_slice(code);
    CPU::new(register, bus_over(program))
}

fn machine(code: &[u8]) -> CPU {
    machine_with(Register::default(), code)
}

fn flags(n: bool, v: bool, z: bool, c: bool) -> StatusRegister {
    StatusRegister { negative: n, overflow: v, zero: z, carry: c, ..StatusRegister::default() }
}

#[test]
fn decoder_parts_the_address_space() {
    assert_eq!(decode(0x0000), Ok((Region::WorkRam, 0)));
    assert_eq!(decode(0x07FF), Ok((Region::WorkRam, 0x07FF)));
    assert_eq!(decode(0x0800), Ok((Region::WorkRamMirror, 0)));
    assert_eq!(decode(0x1FFF), Ok((Region::WorkRamMirror, 0x07FF)));
    assert_eq!(decode(0x2000), Ok((Region::Registers, 0)));
    assert_eq!(decode(0x2007), Ok((Region::Registers, 7)));
    assert_eq!(decode(0x2008), Ok((Region::RegistersMirror, 0)));
    assert_eq!(decode(0x3FFF), Ok((Region::RegistersMirror, 7)));
    assert_eq!(decode(0x4000), Ok((Region::Io, 0)));
    assert_eq!(decode(0x401F), Ok((Region::Io, 0x1F)));
    assert_eq!(decode(0x4020), Ok((Region::ExpansionRom, 0)));
    assert_eq!(decode(0x5FFF), Ok((Region::ExpansionRom, 0x1FDF)));
    assert_eq!(decode(0x6000), Ok((Region::ExpansionRam, 0)));
    assert_eq!(decode(0x7FFF), Ok((Region::ExpansionRam, 0x1FFF)));
    assert_eq!(decode(0x8000), Ok((Region::ProgramRom, 0)));
    assert_eq!(decode(0xFFFF), Ok((Region::ProgramRom, 0x7FFF)));
    assert_eq!(decode(0x10000), Err(Error::OutOfRange(0x10000)));
    for address in 0..0x10000usize {
        assert!(decode(address).is_ok());
    }
}

#[test]
fn region_policies() {
    assert_eq!(Region::WorkRam.policy(), Policy::ReadWrite);
    assert_eq!(Region::WorkRamMirror.policy(), Policy::Mirror(Region::WorkRam));
    assert_eq!(Region::Registers.policy(), Policy::Registers);
    assert_eq!(Region::RegistersMirror.policy(), Policy::ReadMirror(Region::Registers));
    assert_eq!(Region::Io.policy(), Policy::ReadWrite);
    assert_eq!(Region::ExpansionRom.policy(), Policy::ReadOnly);
    assert_eq!(Region::ExpansionRam.policy(), Policy::ReadWrite);
    assert_eq!(Region::ProgramRom.policy(), Policy::ReadOnly);
}

#[test]
fn bus_reads_and_writes_each_region() {
    let mut program = vec![0u8; 0x8000];
    program[0] = 0xAA;
    program[0x7FFF] = 0xBB;
    let mut bus = bus_over(program);
    assert_eq!(bus.put(0x0001, 0x11), Ok(()));
    assert_eq!(bus.get(0x0001), Ok(0x11));
    assert_eq!(bus.get(0x0801), Ok(0x11));
    assert_eq!(bus.get(0x1801), Ok(0x11));
    assert_eq!(bus.put(0x1002, 0x22), Ok(()));
    assert_eq!(bus.get(0x0002), Ok(0x22));
    assert_eq!(bus.put(0x4000, 0x33), Ok(()));
    assert_eq!(bus.get(0x4000), Ok(0x33));
    assert_eq!(bus.put(0x401F, 0x34), Ok(()));
    assert_eq!(bus.get(0x401F), Ok(0x34));
    assert_eq!(bus.put(0x6000, 0x44), Ok(()));
    assert_eq!(bus.get(0x6000), Ok(0x44));
    assert_eq!(bus.get(0x4020), Ok(0));
    assert_eq!(bus.get(0x8000), Ok(0xAA));
    assert_eq!(bus.get(0xFFFF), Ok(0xBB));
}

#[test]
fn bus_failures() {
    let mut bus = bus_over(vec![0u8; 0x4000]);
    assert_eq!(bus.put(0x8000, 1), Err(Error::ReadOnly(0x8000)));
    assert_eq!(bus.put(0xFFFF, 1), Err(Error::ReadOnly(0xFFFF)));
    assert_eq!(bus.put(0x4020, 1), Err(Error::ReadOnly(0x4020)));
    assert_eq!(bus.put(0x2008, 1), Err(Error::Unimplemented(0x2008)));
    assert_eq!(bus.put(0x3FFF, 1), Err(Error::Unimplemented(0x3FFF)));
    assert_eq!(bus.put(0x10000, 1), Err(Error::OutOfRange(0x10000)));
    assert_eq!(bus.get(0x10000), Err(Error::OutOfRange(0x10000)));
    assert_eq!(bus.get(0x2000), Err(Error::WriteOnly(0)));
    assert_eq!(bus.get(0x2008), Err(Error::WriteOnly(0)));
    assert_eq!(bus.get(0x2004), Err(Error::Unimplemented(4)));
    assert_eq!(bus.put(0x2002, 1), Err(Error::ReadOnly(2)));
    assert_eq!(bus.get(0xC000), Err(Error::OutOfRange(0x4000)));
    assert_eq!(bus.get(0xBFFF), Ok(0));
}

#[test]
fn bus_reads_registers_through_the_mirror() {
    let mut bus = bus_over(vec![0u8; 0x8000]);
    assert_eq!(bus.get(0x2002), Ok(0));
    assert_eq!(bus.get(0x200A), Ok(0));
    assert_eq!(bus.get(0x3FFA), Ok(0));
    assert_eq!(bus.put(0x2000, 0x80), Ok(()));
    assert_eq!(bus.ppu().register().control1, 0x80);
}

#[test]
fn bus_reads_words_low_byte_first() {
    let mut bus = bus_over(vec![0u8; 0x8000]);
    bus.put(0x0010, 0x34).unwrap();
    bus.put(0x0011, 0x12).unwrap();
    assert_eq!(bus.get_word([0x0010, 0x0011]), Ok(0x1234));
    assert_eq!(bus.get_word([0x0011, 0x0010]), Ok(0x3412));
    assert_eq!(bus.get_word([0x10000, 0x0010]), Err(Error::OutOfRange(0x10000)));
    assert_eq!(bus.get_word([0x0010, 0x2000]), Err(Error::WriteOnly(0)));
    assert_eq!(bus.get_word([0xFFFE, 0xFFFF]), Ok(0));
}

#[test]
fn opcode_tables() {
    assert_eq!(order::decode(0xA9), ((Opecode::LDA, Operand::Immediate), 2));
    assert_eq!(order::decode(0x00), ((Opecode::BRK, Operand::Implied), 7));
    assert_eq!(order::decode(0x20), ((Opecode::JSR, Operand::Absolute), 6));
    assert_eq!(order::decode(0x60), ((Opecode::RTS, Operand::Implied), 6));
    assert_eq!(order::decode(0x6C), ((Opecode::JMP, Operand::AbsoluteIndirect), 5));
    assert_eq!(order::decode(0xBD), ((Opecode::LDA, Operand::AbsoluteIndex(IndexRegister::X)), 4));
    assert_eq!(order::decode(0xB6), ((Opecode::LDX, Operand::ZeroPageIndex(IndexRegister::Y)), 4));
    assert_eq!(order::decode(0x91), ((Opecode::STA, Operand::IndirectIndex(IndexRegister::Y)), 6));
    assert_eq!(order::decode(0x0A), ((Opecode::ASL, Operand::Accumulator), 2));
    assert_eq!(order::decode(0xD0), ((Opecode::BNE, Operand::Relative), 2));
    assert_eq!(order::decode(0xEA), ((Opecode::NOP, Operand::Implied), 2));
    assert_eq!(order::decode(0x02).0, (Opecode::NOP, Operand::Nope));
    assert_eq!(order::decode(0xFF).0, (Opecode::NOP, Operand::Nope));
    let defined = (0..=255u8).filter(|code| order::decode(*code).0 .1 != Operand::Nope).count();
    assert_eq!(defined, 151);
}

#[test]
fn operand_lengths() {
    assert_eq!(Operand::Immediate.length(), 1);
    assert_eq!(Operand::Absolute.length(), 2);
    assert_eq!(Operand::AbsoluteIndirect.length(), 2);
    assert_eq!(Operand::AbsoluteIndex(IndexRegister::X).length(), 2);
    assert_eq!(Operand::ZeroPage.length(), 1);
    assert_eq!(Operand::ZeroPageIndex(IndexRegister::Y).length(), 1);
    assert_eq!(Operand::Relative.length(), 1);
    assert_eq!(Operand::IndirectIndex(IndexRegister::X).length(), 1);
    assert_eq!(Operand::Accumulator.length(), 0);
    assert_eq!(Operand::Implied.length(), 0);
    assert_eq!(Operand::Nope.length(), 0);
}

#[test]
fn handlers_and_their_operands() {
    assert!(matches!(need(Opecode::ADC), Need::Byte));
    assert!(matches!(need(Opecode::STA), Need::Address));
    assert!(matches!(need(Opecode::NOP), Need::Nothing));
    assert!(matches!(need(Opecode::BIT), Need::Unsupported));
    assert!(matches!(need(Opecode::RTI), Need::Unsupported));
    assert!(is_supported(Opecode::LDA, Operand::Immediate));
    assert!(is_supported(Opecode::ASL, Operand::Accumulator));
    assert!(!is_supported(Opecode::LDA, Operand::Implied));
    assert!(!is_supported(Opecode::STA, Operand::Immediate));
    assert!(!is_supported(Opecode::NOP, Operand::Nope));
    assert!(!is_supported(Opecode::BIT, Operand::ZeroPage));
    assert!(!is_supported(Opecode::RTI, Operand::Implied));
}

#[test]
fn status_byte_round_trip() {
    for value in 0..=255u8 {
        let p = StatusRegister::from(value);
        assert_eq!(u8::from(p), value | 0x20);
        assert_eq!(StatusRegister::from(u8::from(p)), p);
        assert!(p.r());
    }
    let p = StatusRegister::from(0b1100_0011);
    assert!(p.n() && p.v() && !p.b() && !p.d() && !p.i() && p.z() && p.c());
    assert_eq!(u8::from(StatusRegister::default()), 0x20);
}

#[test]
fn status_flags_toggle() {
    let mut p = StatusRegister::default();
    p.on(SFlag::N);
    p.on(SFlag::C);
    p.toggle(SFlag::D, true);
    assert_eq!(u8::from(p), 0b1010_1001);
    p.off(SFlag::N);
    p.toggle(SFlag::V, true);
    p.toggle(SFlag::B, true);
    p.toggle(SFlag::I, true);
    p.toggle(SFlag::Z, true);
    assert_eq!(u8::from(p), 0b0111_1111);
    p.update_negative(0x80);
    p.update_zero(1);
    p.update_carry(0x80);
    assert!(p.n() && !p.z() && !p.c());
    p.update_negative(0x7F);
    p.update_zero(0);
    p.update_carry(0x7F);
    assert!(!p.n() && p.z() && p.c());
}

#[test]
fn power_on_registers() {
    let r = Register::default();
    assert_eq!((r.a, r.x, r.y, r.s, r.sp, r.pc), (0, 0, 0, 0, 0x01FF, 0x8000));
    assert_eq!(r.p, StatusRegister::default());
}

#[test]
fn reset_loads_the_vector() {
    let mut program = vec![0u8; 0x8000];
    program[0x7FFC] = 0x34;
    program[0x7FFD] = 0x92;
    let mut cpu = CPU::new(Register { a: 9, pc: 1, ..Register::default() }, bus_over(program));
    assert_eq!(cpu.reset(), Ok(()));
    assert_eq!(cpu.register().pc, 0x9234);
    assert_eq!(cpu.register().a, 0);
    assert_eq!(cpu.register().sp, 0x01FF);
    assert!(cpu.register().p.i());
}

#[test]
fn reset_falls_back_where_the_vector_is_not_mapped() {
    let mut cpu = CPU::new(Register { pc: 1, ..Register::default() }, bus_over(vec![0xFF; 0x4000]));
    assert_eq!(cpu.reset(), Ok(()));
    assert_eq!(cpu.register().pc, 0x8000);
    assert!(cpu.register().p.i());
}

#[test]
fn lda_immediate() {
    let mut cpu = machine(&[0xA9, 0x80, 0xA9, 0x00]);
    assert_eq!(cpu.exec(), Ok(2));
    assert_eq!(cpu.register().a, 0x80);
    assert_eq!(cpu.register().pc, 0x8002);
    assert_eq!(cpu.register().p, flags(true, false, false, false));
    assert_eq!(cpu.exec(), Ok(2));
    assert_eq!(cpu.register().a, 0);
    assert_eq!(cpu.register().p, flags(false, false, true, false));
}

#[test]
fn adc_sets_carry_and_overflow() {
    let mut cpu = machine_with(Register { a: 0x50, ..Register::default() }, &[0x69, 0x50]);
    assert_eq!(cpu.exec(), Ok(2));
    assert_eq!(cpu.register().a, 0xA0);
    assert_eq!(cpu.register().p, flags(true, true, false, false));
    let mut cpu = machine_with(Register { a: 0xFF, ..Register::default() }, &[0x69, 0x01]);
    cpu.exec().unwrap();
    assert_eq!(cpu.register().a, 0x00);
    assert_eq!(cpu.register().p, flags(false, false, true, true));
    let carry = flags(false, false, false, true);
    let mut cpu = machine_with(Register { a: 0x80, p: carry, ..Register::default() }, &[0x69, 0xFF]);
    cpu.exec().unwrap();
    assert_eq!(cpu.register().a, 0x80);
    assert_eq!(cpu.register().p, flags(true, false, false, true));
    let mut cpu = machine_with(Register { a: 0x80, ..Register::default() }, &[0x69, 0xFF]);
    cpu.exec().unwrap();
    assert_eq!(cpu.register().a, 0x7F);
    assert_eq!(cpu.register().p, flags(false, true, false, true));
}

#[test]
fn sbc_borrows_when_carry_is_clear() {
    let carry = flags(false, false, false, true);
    let mut cpu = machine_with(Register { a: 0x50, p: carry, ..Register::default() }, &[0xE9, 0xF0]);
    assert_eq!(cpu.exec(), Ok(2));
    assert_eq!(cpu.register().a, 0x60);
    assert_eq!(cpu.register().p, flags(false, false, false, false));
    let mut cpu = machine_with(Register { a: 0x50, p: carry, ..Register::default() }, &[0xE9, 0xB0]);
    cpu.exec().unwrap();
    assert_eq!(cpu.register().a, 0xA0);
    assert_eq!(cpu.register().p, flags(true, true, false, false));
    let mut cpu = machine_with(Register { a: 0x50, ..Register::default() }, &[0xE9, 0x10]);
    cpu.exec().unwrap();
    assert_eq!(cpu.register().a, 0x3F);
    assert_eq!(cpu.register().p, flags(false, false, false, true));
    let mut cpu = machine_with(Register { a: 0x10, p: carry, ..Register::default() }, &[0xE9, 0x10]);
    cpu.exec().unwrap();
    assert_eq!(cpu.register().a, 0x00);
    assert_eq!(cpu.register().p, flags(false, false, true, true));
}

#[test]
fn logic_instructions() {
    let mut cpu = machine_with(
        Register { a: 0b1100_1100, ..Register::default() },
        &[0x29, 0b1010_1010, 0x09, 0b0000_0001, 0x49, 0b1000_1001],
    );
    assert_eq!(cpu.exec(), Ok(2));
    assert_eq!(cpu.register().a, 0b1000_1000);
    assert!(cpu.register().p.n());
    cpu.exec().unwrap();
    assert_eq!(cpu.register().a, 0b1000_1001);
    cpu.exec().unwrap();
    assert_eq!(cpu.register().a, 0);
    assert_eq!(cpu.register().p, flags(false, false, true, false));
}

#[test]
fn shifts_write_back_and_carry_the_bit_that_left() {
    let mut cpu = machine_with(Register { a: 0x81, ..Register::default() }, &[0x0A]);
    assert_eq!(cpu.exec(), Ok(2));
    assert_eq!(cpu.register().a, 0x02);
    assert_eq!(cpu.register().p, flags(false, false, false, true));
    let mut cpu = machine(&[0x46, 0x10, 0x46, 0x10]);
    cpu.memory_mut().put(0x10, 0x03).unwrap();
    assert_eq!(cpu.exec(), Ok(5));
    assert_eq!(cpu.memory_mut().get(0x10), Ok(0x01));
    assert_eq!(cpu.register().p, flags(false, false, false, true));
    cpu.exec().unwrap();
    assert_eq!(cpu.memory_mut().get(0x10), Ok(0x00));
    assert_eq!(cpu.register().p, flags(false, false, true, true));
    assert_eq!(cpu.register().a, 0);
}

#[test]
fn rotations_pass_through_carry() {
    let carry = flags(false, false, false, true);
    let mut cpu = machine_with(Register { a: 0x80, p: carry, ..Register::default() }, &[0x2A]);
    cpu.exec().unwrap();
    assert_eq!(cpu.register().a, 0x01);
    assert_eq!(cpu.register().p, flags(false, false, false, true));
    let mut cpu = machine_with(Register { a: 0x01, p: carry, ..Register::default() }, &[0x6A]);
    cpu.exec().unwrap();
    assert_eq!(cpu.register().a, 0x80);
    assert_eq!(cpu.register().p, flags(true, false, false, true));
    let mut cpu = machine_with(Register { a: 0x02, ..Register::default() }, &[0x6A]);
    cpu.exec().unwrap();
    assert_eq!(cpu.register().a, 0x01);
    assert_eq!(cpu.register().p, flags(false, false, false, false));
}

#[test]
fn comparisons() {
    let mut cpu = machine_with(
        Register { a: 0x10, x: 0x20, y: 0x05, ..Register::default() },
        &[0xC9, 0x10, 0xC9, 0x20, 0xE0, 0x10, 0xC0, 0x06],
    );
    assert_eq!(cpu.exec(), Ok(2));
    assert_eq!(cpu.register().p, flags(false, false, true, true));
    cpu.exec().unwrap();
    assert_eq!(cpu.register().p, flags(true, false, false, false));
    cpu.exec().unwrap();
    assert_eq!(cpu.register().p, flags(false, false, false, true));
    cpu.exec().unwrap();
    assert_eq!(cpu.register().p, flags(true, false, false, false));
    assert_eq!((cpu.register().a, cpu.register().x, cpu.register().y), (0x10, 0x20, 0x05));
}

#[test]
fn branches() {
    let mut cpu = machine(&[0xD0, 0xFE]);
    assert_eq!(cpu.exec(), Ok(2));
    assert_eq!(cpu.register().pc, 0x8000);
    let zero = flags(false, false, true, false);
    let mut cpu = machine_with(Register { p: zero, ..Register::default() }, &[0xD0, 0xFE, 0xF0, 0x10]);
    cpu.exec().unwrap();
    assert_eq!(cpu.register().pc, 0x8002);
    cpu.exec().unwrap();
    assert_eq!(cpu.register().pc, 0x8014);
    let mut cpu = machine(&[0x90, 0x7F]);
    cpu.exec().unwrap();
    assert_eq!(cpu.register().pc, 0x8081);
    let mut cpu = machine(&[0xB0, 0x7F, 0x10, 0x80]);
    cpu.exec().unwrap();
    assert_eq!(cpu.register().pc, 0x8002);
    cpu.exec().unwrap();
    assert_eq!(cpu.register().pc, 0x7F84);
}

#[test]
fn every_branch_follows_its_flag() {
    let all = StatusRegister { negative: true, overflow: true, zero: true, carry: true, ..StatusRegister::default() };
    for (code, taken_when_set) in
        [(0x90u8, false), (0xB0, true), (0xF0, true), (0xD0, false), (0x50, false), (0x70, true), (0x10, false), (0x30, true)]
    {
        let mut cpu = machine_with(Register { p: all, ..Register::default() }, &[code, 0x02]);
        cpu.exec().unwrap();
        assert_eq!(cpu.register().pc, if taken_when_set { 0x8004 } else { 0x8002 });
        let mut cpu = machine(&[code, 0x02]);
        cpu.exec().unwrap();
        assert_eq!(cpu.register().pc, if taken_when_set { 0x8002 } else { 0x8004 });
    }
}

#[test]
fn jumps() {
    let mut cpu = machine(&[0x4C, 0x34, 0x12]);
    assert_eq!(cpu.exec(), Ok(3));
    assert_eq!(cpu.register().pc, 0x1234);
    let mut cpu = machine(&[0x6C, 0x10, 0x00]);
    cpu.memory_mut().put(0x10, 0x78).unwrap();
    cpu.memory_mut().put(0x11, 0x56).unwrap();
    assert_eq!(cpu.exec(), Ok(5));
    assert_eq!(cpu.register().pc, 0x5678);
}

#[test]
fn jsr_then_rts() {
    let mut cpu = machine(&[0x20, 0x34, 0x12]);
    cpu.memory_mut().put(0x1234, 0x60).unwrap();
    assert_eq!(cpu.exec(), Ok(6));
    assert_eq!(cpu.register().pc, 0x1234);
    assert_eq!(cpu.register().sp, 0x01FD);
    assert_eq!(cpu.memory_mut().get(0x01FF), Ok(0x80));
    assert_eq!(cpu.memory_mut().get(0x01FE), Ok(0x02));
    assert_eq!(cpu.exec(), Ok(6));
    assert_eq!(cpu.register().pc, 0x8003);
    assert_eq!(cpu.register().sp, 0x01FF);
}

#[test]
fn addressing_modes() {
    let mut cpu = machine_with(
        Register { x: 0x20, y: 0x03, ..Register::default() },
        &[0xA5, 0x10, 0xB5, 0xF0, 0xAD, 0x00, 0x03, 0xBD, 0xFF, 0xFF, 0xB9, 0x00, 0x03, 0xB1, 0x40, 0xA1, 0x40, 0xB6, 0x10],
    );
    let bus = cpu.memory_mut();
    bus.put(0x0010, 0x11).unwrap();
    bus.put(0x0110, 0x22).unwrap();
    bus.put(0x0300, 0x33).unwrap();
    bus.put(0x001F, 0x44).unwrap();
    bus.put(0x0303, 0x55).unwrap();
    bus.put(0x0040, 0x02).unwrap();
    bus.put(0x0041, 0x10).unwrap();
    bus.put(0x0213, 0x66).unwrap();
    bus.put(0x0230, 0x77).unwrap();
    bus.put(0x0013, 0x88).unwrap();
    assert_eq!(cpu.exec(), Ok(3));
    assert_eq!(cpu.register().a, 0x11);
    assert_eq!(cpu.exec(), Ok(4));
    assert_eq!(cpu.register().a, 0x22);
    assert_eq!(cpu.exec(), Ok(4));
    assert_eq!(cpu.register().a, 0x33);
    assert_eq!(cpu.exec(), Ok(4));
    assert_eq!(cpu.register().a, 0x44);
    assert_eq!(cpu.exec(), Ok(4));
    assert_eq!(cpu.register().a, 0x55);
    assert_eq!(cpu.exec(), Ok(5));
    assert_eq!(cpu.register().a, 0x66);
    assert_eq!(cpu.exec(), Ok(6));
    assert_eq!(cpu.register().a, 0x77);
    assert_eq!(cpu.exec(), Ok(4));
    assert_eq!(cpu.register().x, 0x88);
    assert_eq!(cpu.register().pc, 0x8013);
}

#[test]
fn loads_stores_and_transfers() {
    let mut cpu = machine(&[0xA2, 0x07, 0xA0, 0x09, 0xA9, 0x0B, 0x86, 0x01, 0x84, 0x02, 0x85, 0x03, 0xAA, 0xA8, 0x8A, 0x98, 0x9A, 0xA2, 0x00, 0xBA]);
    for _ in 0..6 {
        cpu.exec().unwrap();
    }
    assert_eq!(cpu.memory_mut().get(1), Ok(0x07));
    assert_eq!(cpu.memory_mut().get(2), Ok(0x09));
    assert_eq!(cpu.memory_mut().get(3), Ok(0x0B));
    cpu.exec().unwrap();
    assert_eq!(cpu.register().x, 0x0B);
    cpu.exec().unwrap();
    assert_eq!(cpu.register().y, 0x0B);
    cpu.exec().unwrap();
    cpu.exec().unwrap();
    assert_eq!(cpu.register().a, 0x0B);
    cpu.exec().unwrap();
    assert_eq!(cpu.register().s, 0x0B);
    cpu.exec().unwrap();
    assert_eq!(cpu.register().x, 0);
    assert!(cpu.register().p.z());
    cpu.exec().unwrap();
    assert_eq!(cpu.register().x, 0x0B);
    assert!(!cpu.register().p.z());
}

#[test]
fn increments_and_decrements_wrap() {
    let mut cpu = machine_with(
        Register { x: 0xFF, y: 0x00, ..Register::default() },
        &[0xE8, 0x88, 0xCA, 0xC8, 0xE6, 0x10, 0xC6, 0x11],
    );
    cpu.memory_mut().put(0x10, 0xFF).unwrap();
    assert_eq!(cpu.exec(), Ok(2));
    assert_eq!(cpu.register().x, 0);
    assert!(cpu.register().p.z());
    cpu.exec().unwrap();
    assert_eq!(cpu.register().y, 0xFF);
    assert!(cpu.register().p.n());
    cpu.exec().unwrap();
    assert_eq!(cpu.register().x, 0xFF);
    cpu.exec().unwrap();
    assert_eq!(cpu.register().y, 0);
    assert_eq!(cpu.exec(), Ok(5));
    assert_eq!(cpu.memory_mut().get(0x10), Ok(0));
    assert!(cpu.register().p.z());
    cpu.exec().unwrap();
    assert_eq!(cpu.memory_mut().get(0x11), Ok(0xFF));
    assert!(cpu.register().p.n());
}

#[test]
fn flag_instructions() {
    let mut cpu = machine(&[0x38, 0xF8, 0x78, 0x18, 0xD8, 0x58, 0xB8]);
    cpu.exec().unwrap();
    cpu.exec().unwrap();
    cpu.exec().unwrap();
    let p = cpu.register().p;
    assert!(p.c() && p.d() && p.i());
    cpu.exec().unwrap();
    cpu.exec().unwrap();
    cpu.exec().unwrap();
    assert_eq!(cpu.register().p, StatusRegister::default());
    let overflow = flags(false, true, false, false);
    let mut cpu = machine_with(Register { p: overflow, ..Register::default() }, &[0xB8]);
    cpu.exec().unwrap();
    assert!(!cpu.register().p.v());
}

#[test]
fn stack_instructions() {
    let carry = flags(true, false, false, true);
    let mut cpu = machine_with(Register { a: 0x42, p: carry, ..Register::default() }, &[0x48, 0x08, 0xA9, 0x00, 0x18, 0x28, 0x68]);
    assert_eq!(cpu.exec(), Ok(3));
    assert_eq!(cpu.register().sp, 0x01FE);
    assert_eq!(cpu.memory_mut().get(0x01FF), Ok(0x42));
    assert_eq!(cpu.exec(), Ok(3));
    assert_eq!(cpu.memory_mut().get(0x01FE), Ok(0b1010_0001));
    cpu.exec().unwrap();
    cpu.exec().unwrap();
    assert_eq!(cpu.register().p, flags(false, false, true, false));
    assert_eq!(cpu.exec(), Ok(4));
    assert_eq!(cpu.register().p, carry);
    assert_eq!(cpu.exec(), Ok(4));
    assert_eq!(cpu.register().a, 0x42);
    assert_eq!(cpu.register().sp, 0x01FF);
}

#[test]
fn brk_enters_the_interrupt_vector() {
    let mut program = vec![0u8; 0x8000];
    program[0x7FFE] = 0x00;
    program[0x7FFF] = 0x90;
    let mut cpu = CPU::new(Register::default(), bus_over(program));
    assert_eq!(cpu.exec(), Ok(7));
    assert_eq!(cpu.register().pc, 0x9000);
    assert!(cpu.register().p.i() && cpu.register().p.b());
    assert_eq!(cpu.register().sp, 0x01FC);
    assert_eq!(cpu.memory_mut().get(0x01FF), Ok(0x80));
    assert_eq!(cpu.memory_mut().get(0x01FE), Ok(0x01));
    assert_eq!(cpu.memory_mut().get(0x01FD), Ok(0b0011_0000));
}

#[test]
fn brk_does_nothing_while_interrupts_are_disabled() {
    let masked = StatusRegister { interrupt: true, ..StatusRegister::default() };
    let mut cpu = machine_with(Register { p: masked, ..Register::default() }, &[0x00]);
    assert_eq!(cpu.exec(), Ok(7));
    assert_eq!(cpu.register().pc, 0x8001);
    assert_eq!(cpu.register().sp, 0x01FF);
    assert_eq!(cpu.register().p, masked);
}

#[test]
fn opcodes_without_a_handler_fail() {
    let mut cpu = machine(&[0x02]);
    assert_eq!(cpu.exec(), Err(Error::NotYetImplemented(0x02)));
    assert_eq!(*cpu.register(), Register::default());
    let mut cpu = machine(&[0x24, 0x10]);
    assert_eq!(cpu.exec(), Err(Error::NotYetImplemented(0x24)));
    let mut cpu = machine(&[0x40]);
    assert_eq!(cpu.exec(), Err(Error::NotYetImplemented(0x40)));
    assert_eq!(*cpu.register(), Register::default());
}

#[test]
fn a_failed_step_keeps_the_registers() {
    let start = Register { a: 7, ..Register::default() };
    let mut cpu = machine_with(start, &[0x8D, 0x00, 0x80]);
    assert_eq!(cpu.exec(), Err(Error::ReadOnly(0x8000)));
    assert_eq!(*cpu.register(), start);
    let mut cpu = machine_with(start, &[0xAD, 0x00, 0x20]);
    assert_eq!(cpu.exec(), Err(Error::WriteOnly(0)));
    assert_eq!(*cpu.register(), start);
    let mut cpu = CPU::new(Register { pc: 0xFFFE, ..start }, bus_over(vec![0xAD; 0x8000]));
    assert_eq!(cpu.exec(), Err(Error::OutOfRange(0x10000)));
    assert_eq!(*cpu.register(), Register { pc: 0xFFFE, ..start });
    let mut cpu = CPU::new(Register { sp: 0x8000, ..start }, bus_over(vec![0x20; 0x8000]));
    assert_eq!(cpu.exec(), Err(Error::ReadOnly(0x8000)));
    assert_eq!(*cpu.register(), Register { sp: 0x8000, ..start });
}

#[test]
fn program_counter_wraps_at_the_end_of_memory() {
    let mut cpu = CPU::new(Register { pc: 0xFFFF, ..Register::default() }, bus_over(vec![0xA9; 0x8000]));
    cpu.memory_mut().put(0x0000, 0x5A).unwrap();
    assert_eq!(cpu.exec(), Ok(2));
    assert_eq!(cpu.register().a, 0x5A);
    assert_eq!(cpu.register().pc, 0x0001);
}

#[test]
fn processor_writes_reach_the_picture_unit() {
    let mut cpu = machine(&[0xA9, 0x3F, 0x8D, 0x06, 0x20, 0xA9, 0x00, 0x8D, 0x06, 0x20, 0xA9, 0x21, 0x8D, 0x07, 0x20]);
    for _ in 0..6 {
        cpu.exec().unwrap();
    }
    let unit = cpu.memory().ppu();
    assert_eq!(unit.register().ppu_addr(), 0x3F01);
    assert_eq!(unit.memory().palette.raw[0], 0x21);
}
