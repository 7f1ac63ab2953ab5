use famicom::ines::FormatError;
use famicom::ines::INes;
use famicom::ines::INesHeader;
use famicom::ines::ProgramRom;
use famicom::memory::ROM;
use famicom::result::Error;

fn file(program_units: u8, pattern_units: u8, length: usize) -> Vec<u8> {
    let mut raw = vec![0u8; length];
    raw[..4].copy_from_slice(&[0x4E, 0x45, 0x53, 0x1A]);
    raw[4] = program_units;
    raw[5] = pattern_units;
    raw[6] = 0x01;
    raw
}

#[test]
fn header_is_read_field_by_field() {
    let mut raw = file(2, 1, 17);
    raw[7] = 7;
    raw[8] = 8;
    raw[9] = 9;
    raw[10] = 10;
    let header = INesHeader::parser(&raw).unwrap();
    assert_eq!(header.magic, [0x4E, 0x45, 0x53, 0x1A]);
    assert_eq!(header.program_rom_unit_count, 2);
    assert_eq!(header.character_rom_unit_count, 1);
    assert_eq!((header.flag6, header.flag7, header.flag8, header.flag9, header.flag10), (1, 7, 8, 9, 10));
    assert_eq!(header.padding, [0; 5]);
    assert_eq!(header.program_rom_range(), 16..16 + 2 * 16384);
    assert_eq!(header.character_rom_range(), 16 + 2 * 16384..16 + 2 * 16384 + 8192);
}

#[test]
fn header_is_refused() {
    assert_eq!(INesHeader::parser(&[]), Err(FormatError::NotINes));
    assert_eq!(INesHeader::parser(&file(1, 1, 16)), Err(FormatError::NotINes));
    let mut raw = file(1, 1, 32);
    raw[3] = 0x1B;
    assert_eq!(INesHeader::parser(&raw), Err(FormatError::NotINes));
    let mut raw = file(1, 1, 32);
    raw[15] = 1;
    assert_eq!(INesHeader::parser(&raw), Err(FormatError::NotINes));
    let mut raw = file(1, 1, 32);
    raw[11] = 1;
    assert_eq!(INesHeader::parser(&raw), Err(FormatError::NotINes));
}

#[test]
fn cartridge_hands_out_its_payloads() {
    let mut raw = file(1, 1, 16 + 16384 + 8192);
    raw[16] = 0xA9;
    raw[16 + 16383] = 0x60;
    raw[16 + 16384 + 16] = 0x80;
    raw[16 + 16384 + 24] = 0x80;
    let ines = INes::parse(&raw).unwrap();
    let program = ines.program();
    assert_eq!(program.len(), 16384);
    assert_eq!((program[0], program[16383]), (0xA9, 0x60));
    let sprites = ines.sprites();
    assert_eq!(sprites.len(), 512);
    assert!(sprites[0].zero());
    assert_eq!(sprites[1].bits()[0], [3, 0, 0, 0, 0, 0, 0, 0]);
}

#[test]
fn cartridge_without_patterns() {
    let raw = file(1, 0, 16 + 16384);
    let ines = INes::parse(&raw).unwrap();
    assert_eq!(ines.program().len(), 16384);
    assert_eq!(ines.sprites().len(), 0);
}

#[test]
fn cartridge_is_accepted_with_its_header() {
    assert!(matches!(INes::parse(&[0u8; 64]), Err(FormatError::NotINes)));
    assert!(matches!(INes::parse(&file(1, 1, 16)), Err(FormatError::NotINes)));
    assert!(INes::parse(&file(0, 0, 17)).is_ok());
    let raw = file(1, 1, 16 + 16384 + 8191);
    let short = INes::parse(&raw).unwrap();
    assert_eq!(short.raw(), &raw[..]);
    assert_eq!(short.header().program_rom_unit_count, 1);
    assert!(short.has_program());
    assert!(!short.has_sprites());
    assert_eq!(short.program(), &raw[16..16 + 16384]);
    let raw = file(2, 0, 17);
    let shorter = INes::parse(&raw).unwrap();
    assert!(!shorter.has_program());
    assert!(!shorter.has_sprites());
    let raw = file(1, 1, 16 + 16384 + 8192);
    let whole = INes::parse(&raw).unwrap();
    assert!(whole.has_program() && whole.has_sprites());
}

#[test]
fn program_memory_is_read_only_memory() {
    let bytes = [1u8, 2, 3];
    let rom = ProgramRom::new(&bytes);
    assert_eq!(rom.get(0), Ok(1));
    assert_eq!(rom.get(2), Ok(3));
    assert_eq!(rom.get(3), Err(Error::OutOfRange(3)));
}
