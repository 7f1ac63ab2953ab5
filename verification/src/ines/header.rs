//! The sixteen bytes that open a cartridge file.

use vstd::prelude::*;

verus! {

/// Why a file is no cartridge file.
#[derive(Debug, Clone, Copy, PartialEq, Eq)]
pub enum FormatError {
    /// The file does not open with a header: it is too short, its first
    /// four bytes are not the magic number, or its header's last five bytes
    /// are not zero.
    NotINes,
}

#[derive(Debug, Clone, Copy, PartialEq, Eq)]
pub struct INesHeader {
    /// The constant 0x4E 0x45 0x53 0x1A: "NES" and an end-of-file mark.
    pub magic: [u8; 4],
    /// The size of the program payload in units of 16 KiB.
    pub program_rom_unit_count: u8,
    /// The size of the pattern payload in units of 8 KiB.
    pub character_rom_unit_count: u8,
    /// Flags 6: mapper, mirroring, battery, trainer.
    pub flag6: u8,
    /// Flags 7: mapper, console type.
    pub flag7: u8,
    /// Flags 8: size of the program memory.
    pub flag8: u8,
    /// Flags 9: television system.
    pub flag9: u8,
    /// Flags 10: television system, presence of program memory.
    pub flag10: u8,
    /// Padding, all zero.
    pub padding: [u8; 5],
}

/// The first four bytes of a cartridge file.
pub const MAGIC: [u8; 4] = [0x4E, 0x45, 0x53, 0x1A];

/// The bytes in a unit of program payload.
pub const PROGRAM_ROM_UNIT_SIZE: usize = 16384;

/// The bytes in a unit of pattern payload.
pub const CHARACTER_ROM_UNIT_SIZE: usize = 8192;

/// The length of the header.
pub const INES_HEADER_LENGTH: usize = 16;

/// Whether `data` opens with a header: it is longer than a header, it
/// starts with the magic number, and bytes 11 to 15 are zero.
pub open spec fn opens_with_header(data: Seq<u8>) -> bool {
    &&& data.len() > INES_HEADER_LENGTH
    &&& data[0] == 0x4E && data[1] == 0x45 && data[2] == 0x53 && data[3] == 0x1A
    &&& data[11] == 0 && data[12] == 0 && data[13] == 0 && data[14] == 0 && data[15] == 0
}

impl INesHeader {
    /// Whether this is the header that `data` opens with: the magic number,
    /// then bytes 4 to 10 of `data` field by field, then zero padding.
    pub open spec fn heads(self, data: Seq<u8>) -> bool {
        &&& self.magic@ == seq![0x4Eu8, 0x45u8, 0x53u8, 0x1Au8]
        &&& self.program_rom_unit_count == data[4]
        &&& self.character_rom_unit_count == data[5]
        &&& self.flag6 == data[6]
        &&& self.flag7 == data[7]
        &&& self.flag8 == data[8]
        &&& self.flag9 == data[9]
        &&& self.flag10 == data[10]
        &&& self.padding@ == seq![0u8, 0u8, 0u8, 0u8, 0u8]
    }

    /// The end of the program payload in the file.
    pub open spec fn program_end(self) -> int {
        INES_HEADER_LENGTH + self.program_rom_unit_count * PROGRAM_ROM_UNIT_SIZE
    }

    /// The end of the pattern payload in the file.
    pub open spec fn character_end(self) -> int {
        self.program_end() + self.character_rom_unit_count * CHARACTER_ROM_UNIT_SIZE
    }

    /// Reads the header of a cartridge file.
    pub fn parser(data: &[u8]) -> (r: Result<INesHeader, FormatError>)
        ensures
            opens_with_header(data@) ==> (r matches Ok(header) && header.heads(data@)),
            !opens_with_header(data@) ==> r == Err::<INesHeader, FormatError>(FormatError::NotINes),
    {
        if !(data.len() > INES_HEADER_LENGTH && data[0] == 0x4E && data[1] == 0x45 && data[2]
            == 0x53 && data[3] == 0x1A && data[11] == 0 && data[12] == 0 && data[13] == 0
            && data[14] == 0 && data[15] == 0) {
            return Err(FormatError::NotINes);
        }
        let r = INesHeader {
            magic: MAGIC,
            program_rom_unit_count: data[4],
            character_rom_unit_count: data[5],
            flag6: data[6],
            flag7: data[7],
            flag8: data[8],
            flag9: data[9],
            flag10: data[10],
            padding: [0;5],
        };
        assert(r.magic@ =~= seq![0x4Eu8, 0x45u8, 0x53u8, 0x1Au8]);
        assert(r.padding@ =~= seq![0u8, 0u8, 0u8, 0u8, 0u8]);
        Ok(r)
    }

    /// Where the program payload lies in the file: right after the header.
    pub fn program_rom_range(&self) -> (r: std::ops::Range<usize>)
        ensures
            r.start == INES_HEADER_LENGTH,
            r.end == self.program_end(),
    {
        let from = INES_HEADER_LENGTH;
        let to = from + self.program_rom_size();
        from..to
    }

    /// Where the pattern payload lies in the file: right after the program.
    pub fn character_rom_range(&self) -> (r: std::ops::Range<usize>)
        ensures
            r.start == self.program_end(),
            r.end == self.character_end(),
    {
        let from = self.program_rom_range().end;
        let to = from + self.character_rom_size();
        from..to
    }

    fn program_rom_size(&self) -> (r: usize)
        ensures
            r == self.program_rom_unit_count * PROGRAM_ROM_UNIT_SIZE,
    {
        self.program_rom_unit_count as usize * PROGRAM_ROM_UNIT_SIZE
    }

    fn character_rom_size(&self) -> (r: usize)
        ensures
            r == self.character_rom_unit_count * CHARACTER_ROM_UNIT_SIZE,
    {
        self.character_rom_unit_count as usize * CHARACTER_ROM_UNIT_SIZE
    }
}

} // verus!
