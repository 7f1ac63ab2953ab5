//! The processor's bus: it decodes a 16-bit address to one of eight regions
//! and hands the access to what stands behind that region.

use crate::memory::ROM;
use crate::memory::WOM;
use crate::ppu::ppu::PpuView;
use crate::ppu::ppu_bus::lemma_window_keeps_wf;
use crate::ppu::PPU;
use crate::result::e;
use crate::result::Error;
use vstd::prelude::*;

verus! {

/// The regions of the address space.
#[derive(Clone, Copy, PartialEq, Eq, Debug)]
pub enum Region {
    /// 0x0000..=0x07FF: the work memory.
    WorkRam,
    /// 0x0800..=0x1FFF: the work memory again, every 0x0800 addresses.
    WorkRamMirror,
    /// 0x2000..=0x2007: the picture unit's register window.
    Registers,
    /// 0x2008..=0x3FFF: the register window again, every 8 addresses.
    RegistersMirror,
    /// 0x4000..=0x401F: the input and sound registers.
    Io,
    /// 0x4020..=0x5FFF: the expansion memory that can only be read.
    ExpansionRom,
    /// 0x6000..=0x7FFF: the expansion memory that can be written.
    ExpansionRam,
    /// 0x8000..=0xFFFF: the program.
    ProgramRom,
}

/// How a region answers an access.
#[derive(Clone, Copy, PartialEq, Eq, Debug)]
pub enum Policy {
    /// Reads and writes reach the memory behind the region.
    ReadWrite,
    /// Reads reach the memory behind the region; writes are refused.
    ReadOnly,
    /// Each offset is a register with an effect of its own.
    Registers,
    /// The region shows another one, at the offset modulo that one's size,
    /// to reads and to writes alike.
    Mirror(Region),
    /// The region shows another one to reads; nothing is behind it for
    /// writes.
    ReadMirror(Region),
}

impl Region {
    /// The first address of the region.
    pub open spec fn first(self) -> int {
        match self {
            Region::WorkRam => 0x0000,
            Region::WorkRamMirror => 0x0800,
            Region::Registers => 0x2000,
            Region::RegistersMirror => 0x2008,
            Region::Io => 0x4000,
            Region::ExpansionRom => 0x4020,
            Region::ExpansionRam => 0x6000,
            Region::ProgramRom => 0x8000,
        }
    }

    /// The last address of the region.
    pub open spec fn last(self) -> int {
        match self {
            Region::WorkRam => 0x07FF,
            Region::WorkRamMirror => 0x1FFF,
            Region::Registers => 0x2007,
            Region::RegistersMirror => 0x3FFF,
            Region::Io => 0x401F,
            Region::ExpansionRom => 0x5FFF,
            Region::ExpansionRam => 0x7FFF,
            Region::ProgramRom => 0xFFFF,
        }
    }

    /// Whether `address` belongs to the region.
    pub open spec fn holds(self, address: int) -> bool {
        self.first() <= address <= self.last()
    }

    /// The region's policy.
    pub open spec fn policy_of(self) -> Policy {
        match self {
            Region::WorkRam => Policy::ReadWrite,
            Region::WorkRamMirror => Policy::Mirror(Region::WorkRam),
            Region::Registers => Policy::Registers,
            Region::RegistersMirror => Policy::ReadMirror(Region::Registers),
            Region::Io => Policy::ReadWrite,
            Region::ExpansionRom => Policy::ReadOnly,
            Region::ExpansionRam => Policy::ReadWrite,
            Region::ProgramRom => Policy::ReadOnly,
        }
    }

    /// The region's policy.
    pub fn policy(&self) -> (r: Policy)
        ensures
            r == self.policy_of(),
    {
        match self {
            Region::WorkRam => Policy::ReadWrite,
            Region::WorkRamMirror => Policy::Mirror(Region::WorkRam),
            Region::Registers => Policy::Registers,
            Region::RegistersMirror => Policy::ReadMirror(Region::Registers),
            Region::Io => Policy::ReadWrite,
            Region::ExpansionRom => Policy::ReadOnly,
            Region::ExpansionRam => Policy::ReadWrite,
            Region::ProgramRom => Policy::ReadOnly,
        }
    }
}

/// The region that `address` belongs to.
pub open spec fn region_of(address: int) -> Region {
    if address <= 0x07FF {
        Region::WorkRam
    } else if address <= 0x1FFF {
        Region::WorkRamMirror
    } else if address <= 0x2007 {
        Region::Registers
    } else if address <= 0x3FFF {
        Region::RegistersMirror
    } else if address <= 0x401F {
        Region::Io
    } else if address <= 0x5FFF {
        Region::ExpansionRom
    } else if address <= 0x7FFF {
        Region::ExpansionRam
    } else {
        Region::ProgramRom
    }
}

/// The offset of `address` in what stands behind its region: the distance
/// from the region's first address, or, in a mirror, the offset in the
/// region that it shows.
pub open spec fn offset_of(address: int) -> int {
    match region_of(address) {
        Region::WorkRamMirror => address % 0x0800,
        Region::RegistersMirror => (address - 0x2000) % 8,
        region => address - region.first(),
    }
}

/// The region of an address and the offset in what stands behind it.
/// Addresses from 0x10000 on belong to no region.
pub fn decode(address: usize) -> (r: Result<(Region, usize), Error>)
    ensures
        address < 0x10000 ==> r == Ok::<(Region, usize), Error>(
            (region_of(address as int), offset_of(address as int) as usize),
        ),
        address >= 0x10000 ==> r == Err::<(Region, usize), Error>(Error::OutOfRange(address)),
{
    if address <= 0x07FF {
        Ok((Region::WorkRam, address))
    } else if address <= 0x1FFF {
        Ok((Region::WorkRamMirror, address % 0x0800))
    } else if address <= 0x2007 {
        Ok((Region::Registers, address - 0x2000))
    } else if address <= 0x3FFF {
        Ok((Region::RegistersMirror, (address - 0x2000) % 8))
    } else if address <= 0x401F {
        Ok((Region::Io, address - 0x4000))
    } else if address <= 0x5FFF {
        Ok((Region::ExpansionRom, address - 0x4020))
    } else if address <= 0x7FFF {
        Ok((Region::ExpansionRam, address - 0x6000))
    } else if address <= 0xFFFF {
        Ok((Region::ProgramRom, address - 0x8000))
    } else {
        Err(e::index_out_of_range(address))
    }
}

/// The regions part the address space: every address below 0x10000 belongs
/// to the region that the decoder names, and to no other.
pub proof fn lemma_regions_part_the_space(address: int, region: Region)
    requires
        0 <= address < 0x10000,
    ensures
        region_of(address).holds(address),
        region.holds(address) ==> region == region_of(address),
        0 <= offset_of(address) <= region_of(address).last() - region_of(address).first(),
        region_of(address).policy_of() matches Policy::Mirror(shown) ==> offset_of(address)
            <= shown.last() - shown.first(),
        region_of(address).policy_of() matches Policy::ReadMirror(shown) ==> offset_of(address)
            <= shown.last() - shown.first(),
{
}

/// What stands behind the bus.
pub struct BusView {
    pub wram: Seq<u8>,
    pub apu: Seq<u8>,
    pub exrom: Seq<u8>,
    pub exram: Seq<u8>,
    pub program: Seq<u8>,
    pub ppu: PpuView,
}

/// What a read of a plain memory with the bytes `bytes` gives at offset `i`.
pub open spec fn fetched(bytes: Seq<u8>, i: int) -> Result<u8, Error> {
    if i < bytes.len() {
        Ok(bytes[i])
    } else {
        Err(Error::OutOfRange(i as usize))
    }
}

impl BusView {
    pub open spec fn wf(self) -> bool {
        self.ppu.wf()
    }

    /// What a read at `address` gives, and the bus after it. Only a read
    /// in the register window can change anything.
    pub open spec fn read(self, address: usize) -> (Result<u8, Error>, BusView) {
        if address >= 0x10000 {
            (Err(Error::OutOfRange(address)), self)
        } else {
            let offset = offset_of(address as int);
            match region_of(address as int) {
                Region::WorkRam | Region::WorkRamMirror => (fetched(self.wram, offset), self),
                Region::Registers | Region::RegistersMirror => (
                    self.ppu.read(offset as usize).0,
                    BusView { ppu: self.ppu.read(offset as usize).1, ..self },
                ),
                Region::Io => (fetched(self.apu, offset), self),
                Region::ExpansionRom => (fetched(self.exrom, offset), self),
                Region::ExpansionRam => (fetched(self.exram, offset), self),
                Region::ProgramRom => (fetched(self.program, offset), self),
            }
        }
    }

    /// What a write of `v` at `address` gives, and the bus after it. The
    /// mirror of the work memory takes writes as the work memory does; the
    /// mirror of the register window takes none.
    pub open spec fn write(self, address: usize, v: u8) -> (Result<(), Error>, BusView) {
        if address >= 0x10000 {
            (Err(Error::OutOfRange(address)), self)
        } else {
            let offset = offset_of(address as int);
            match region_of(address as int) {
                Region::WorkRam | Region::WorkRamMirror => if offset < self.wram.len() {
                    (Ok(()), BusView { wram: self.wram.update(offset, v), ..self })
                } else {
                    (Err(Error::OutOfRange(offset as usize)), self)
                },
                Region::Registers => (
                    self.ppu.write(offset as usize, v).0,
                    BusView { ppu: self.ppu.write(offset as usize, v).1, ..self },
                ),
                Region::RegistersMirror => (Err(Error::Unimplemented(address)), self),
                Region::Io => if offset < self.apu.len() {
                    (Ok(()), BusView { apu: self.apu.update(offset, v), ..self })
                } else {
                    (Err(Error::OutOfRange(offset as usize)), self)
                },
                Region::ExpansionRom => (Err(Error::ReadOnly(address)), self),
                Region::ExpansionRam => if offset < self.exram.len() {
                    (Ok(()), BusView { exram: self.exram.update(offset, v), ..self })
                } else {
                    (Err(Error::OutOfRange(offset as usize)), self)
                },
                Region::ProgramRom => (Err(Error::ReadOnly(address)), self),
            }
        }
    }

    /// What reading two bytes gives, the one at `first` and then the one at
    /// `second`, and the bus after it. If the first read fails the second
    /// is not made.
    pub open spec fn read_pair(self, first: usize, second: usize) -> (
        Result<(u8, u8), Error>,
        BusView,
    ) {
        match self.read(first).0 {
            Ok(a) => match self.read(first).1.read(second).0 {
                Ok(b) => (Ok((a, b)), self.read(first).1.read(second).1),
                Err(error) => (Err(error), self.read(first).1.read(second).1),
            },
            Err(error) => (Err(error), self.read(first).1),
        }
    }

    /// What reading a word gives, its low byte at `low` and then its high
    /// byte at `high`, and the bus after it.
    pub open spec fn read_word(self, low: usize, high: usize) -> (Result<u16, Error>, BusView) {
        match self.read_pair(low, high).0 {
            Ok((l, h)) => (Ok((l + 256 * h) as u16), self.read_pair(low, high).1),
            Err(error) => (Err(error), self.read_pair(low, high).1),
        }
    }
}

/// Reads and writes keep the bus well formed.
pub proof fn lemma_access_keeps_wf(bus: BusView, address: usize, v: u8)
    requires
        bus.wf(),
    ensures
        bus.read(address).1.wf(),
        bus.write(address, v).1.wf(),
{
    if address < 0x10000 {
        lemma_window_keeps_wf(bus.ppu, offset_of(address as int) as usize, v);
    }
}

/// What was written to the work memory is read back, through the region
/// itself and through its mirror alike.
pub proof fn lemma_work_memory_keeps(bus: BusView, written: usize, read: usize, v: u8)
    requires
        written < 0x2000,
        read < 0x2000,
        written % 0x0800 == read % 0x0800,
        bus.wram.len() >= 0x0800,
    ensures
        bus.write(written, v).0 is Ok,
        bus.write(written, v).1.read(read) == (Ok::<u8, Error>(v), bus.write(written, v).1),
{
}

pub struct MemoryMap {
    exrom: Vec<u8>,
    exram: Vec<u8>,
    ppu_bus: PPU,
    apu: Vec<u8>,
    program_bus: Vec<u8>,
    wram_bus: Vec<u8>,
}

impl View for MemoryMap {
    type V = BusView;

    closed spec fn view(&self) -> BusView {
        BusView {
            wram: self.wram_bus@,
            apu: self.apu@,
            exrom: self.exrom@,
            exram: self.exram@,
            program: self.program_bus@,
            ppu: self.ppu_bus@,
        }
    }
}

impl MemoryMap {
    /// Whether the picture unit behind the bus is well formed.
    pub closed spec fn wf(&self) -> bool {
        self.ppu_bus.wf()
    }

    /// A well-formed bus has a well-formed view.
    pub proof fn lemma_wf(&self)
        requires
            self.wf(),
        ensures
            self@.wf(),
    {
        self.ppu_bus.lemma_wf();
    }

    /// A bus over the given picture unit, program and memories. Each memory
    /// answers as far as it is long; beyond its end an access is out of
    /// range.
    pub fn new(
        ppu_bus: PPU,
        program_bus: Vec<u8>,
        wram_bus: Vec<u8>,
        apu: Vec<u8>,
        exram: Vec<u8>,
        exrom: Vec<u8>,
    ) -> (r: Self)
        requires
            ppu_bus.wf(),
        ensures
            r.wf(),
            r@ == (BusView {
                wram: wram_bus@,
                apu: apu@,
                exrom: exrom@,
                exram: exram@,
                program: program_bus@,
                ppu: ppu_bus@,
            }),
    {
        MemoryMap { ppu_bus, program_bus, apu, wram_bus, exrom, exram }
    }

    /// The picture unit.
    pub fn ppu(&self) -> (r: &PPU)
        ensures
            r@ == self@.ppu,
            self.wf() ==> r.wf(),
    {
        &self.ppu_bus
    }

    /// The picture unit, to drive it.
    pub fn ppu_mut(&mut self) -> (r: &mut PPU)
        ensures
            r@ == old(self)@.ppu,
            old(self).wf() ==> r.wf(),
            final(self)@ == (BusView { ppu: final(r)@, ..old(self)@ }),
            final(r).wf() ==> final(self).wf(),
    {
        &mut self.ppu_bus
    }

    /// Reads the byte at address `i`.
    pub fn get(&mut self, i: usize) -> (r: Result<u8, Error>)
        requires
            old(self).wf(),
        ensures
            final(self).wf(),
            (r, final(self)@) == old(self)@.read(i),
    {
        match decode(i) {
            Ok((Region::WorkRam, offset)) => self.wram_bus.get(offset),
            Ok((Region::WorkRamMirror, offset)) => self.wram_bus.get(offset),
            Ok((Region::Registers, offset)) => self.ppu_bus.get(offset),
            Ok((Region::RegistersMirror, offset)) => self.ppu_bus.get(offset),
            Ok((Region::Io, offset)) => self.apu.get(offset),
            Ok((Region::ExpansionRom, offset)) => self.exrom.get(offset),
            Ok((Region::ExpansionRam, offset)) => self.exram.get(offset),
            Ok((Region::ProgramRom, offset)) => self.program_bus.get(offset),
            Err(error) => Err(error),
        }
    }

    /// Writes `v` to address `i`.
    pub fn put(&mut self, i: usize, v: u8) -> (r: Result<(), Error>)
        requires
            old(self).wf(),
        ensures
            final(self).wf(),
            (r, final(self)@) == old(self)@.write(i, v),
    {
        match decode(i) {
            Ok((Region::WorkRam, offset)) => self.wram_bus.put(offset, v),
            Ok((Region::WorkRamMirror, offset)) => self.wram_bus.put(offset, v),
            Ok((Region::Registers, offset)) => self.ppu_bus.put(offset, v),
            Ok((Region::RegistersMirror, _)) => Err(e::unimplemented(i)),
            Ok((Region::Io, offset)) => self.apu.put(offset, v),
            Ok((Region::ExpansionRom, _)) => Err(e::readonly(i)),
            Ok((Region::ExpansionRam, offset)) => self.exram.put(offset, v),
            Ok((Region::ProgramRom, _)) => Err(e::readonly(i)),
            Err(error) => Err(error),
        }
    }

    /// Reads a word: its low byte at `i[0]`, then its high byte at `i[1]`.
    pub fn get_word(&mut self, i: [usize; 2]) -> (r: Result<u16, Error>)
        requires
            old(self).wf(),
        ensures
            final(self).wf(),
            (r, final(self)@) == old(self)@.read_word(i[0], i[1]),
    {
        let low = self.get(i[0])?;
        let high = self.get(i[1])?;
        Ok(low as u16 + 256 * (high as u16))
    }
}

} // verus!
