//! The register window: the eight addresses through which the processor
//! reaches the picture unit.

use super::buf_byte::Bufu8;
use super::memory::lemma_write_keeps_wf_video;
use super::ppu::PpuView;
use super::register::Register;
use super::PPU;
use crate::memory::ROM;
use crate::memory::WOM;
use crate::result::e;
use crate::result::Error;
use vstd::prelude::*;

verus! {

impl PpuView {
    /// What a read of register `index` gives, and the picture unit after it.
    ///
    /// | index      | read                                                     |
    /// |------------|----------------------------------------------------------|
    /// | 0, 1       | refused: the control bytes are write-only                |
    /// | 2          | the status byte; the scroll latch is emptied and both    |
    /// |            | latches expect the first byte of a pair again            |
    /// | 3, 5, 6    | refused: write-only                                      |
    /// | 4          | refused: nothing is behind the sprite data register      |
    /// | 7          | the byte of video memory at the latched address, which   |
    /// |            | then moves on by one; a refused read moves nothing       |
    /// | any other  | refused: out of range                                    |
    pub open spec fn read(self, index: usize) -> (Result<u8, Error>, PpuView) {
        if index == 2 {
            (
                Ok(self.register.status),
                PpuView {
                    register: Register {
                        scroll_offset: Bufu8 { older: 0, later: 0, half: false },
                        ppu_addr: self.register.ppu_addr.rewound(),
                        ..self.register
                    },
                    ..self
                },
            )
        } else if index == 7 {
            match self.memory.read(self.register.ppu_addr.be_word() as usize) {
                Ok(v) => (Ok(v), PpuView { register: self.register.advanced(), ..self }),
                Err(error) => (Err(error), self),
            }
        } else if index == 4 {
            (Err(Error::Unimplemented(index)), self)
        } else if index < 8 {
            (Err(Error::WriteOnly(index)), self)
        } else {
            (Err(Error::OutOfRange(index)), self)
        }
    }

    /// What a write of `v` to register `index` gives, and the picture unit
    /// after it.
    ///
    /// | index      | write                                                    |
    /// |------------|----------------------------------------------------------|
    /// | 0, 1       | the control byte is replaced                             |
    /// | 2          | refused: the status byte is read-only                    |
    /// | 3          | the sprite address is replaced                           |
    /// | 4          | the sprite data byte is replaced and the sprite address  |
    /// |            | moves on by one, from 255 round to 0                     |
    /// | 5          | the scroll latch takes the byte                          |
    /// | 6          | the address latch takes the byte                         |
    /// | 7          | the byte goes to video memory at the latched address,    |
    /// |            | which then moves on by one; a refused write moves nothing|
    /// | any other  | refused: out of range                                    |
    pub open spec fn write(self, index: usize, v: u8) -> (Result<(), Error>, PpuView) {
        if index == 0 {
            (Ok(()), PpuView { register: Register { control1: v, ..self.register }, ..self })
        } else if index == 1 {
            (Ok(()), PpuView { register: Register { control2: v, ..self.register }, ..self })
        } else if index == 2 {
            (Err(Error::ReadOnly(index)), self)
        } else if index == 3 {
            (Ok(()), PpuView { register: Register { sprite_addr: v, ..self.register }, ..self })
        } else if index == 4 {
            (
                Ok(()),
                PpuView {
                    register: Register {
                        sprite_data: v,
                        sprite_addr: if self.register.sprite_addr == 255 {
                            0
                        } else {
                            (self.register.sprite_addr + 1) as u8
                        },
                        ..self.register
                    },
                    ..self
                },
            )
        } else if index == 5 {
            (
                Ok(()),
                PpuView {
                    register: Register {
                        scroll_offset: self.register.scroll_offset.added(v),
                        ..self.register
                    },
                    ..self
                },
            )
        } else if index == 6 {
            (
                Ok(()),
                PpuView {
                    register: Register {
                        ppu_addr: self.register.ppu_addr.added(v),
                        ..self.register
                    },
                    ..self
                },
            )
        } else if index == 7 {
            match self.memory.write(self.register.ppu_addr.be_word() as usize, v) {
                Ok(memory) => (
                    Ok(()),
                    PpuView { register: self.register.advanced(), memory, ..self },
                ),
                Err(error) => (Err(error), self),
            }
        } else {
            (Err(Error::OutOfRange(index)), self)
        }
    }
}

/// Reads and writes through the register window keep the picture unit well
/// formed, and leave its cycle counter, its frame and its pattern store alone.
pub proof fn lemma_window_keeps_wf(ppu: PpuView, index: usize, v: u8)
    requires
        ppu.wf(),
    ensures
        ppu.read(index).1.wf(),
        ppu.write(index, v).1.wf(),
        ppu.read(index).1.cycle == ppu.cycle && ppu.read(index).1.frame == ppu.frame,
        ppu.write(index, v).1.cycle == ppu.cycle && ppu.write(index, v).1.frame == ppu.frame,
        ppu.read(index).1.memory == ppu.memory,
        ppu.write(index, v).1.memory.pattern == ppu.memory.pattern,
{
    if index == 7 {
        let at = ppu.register.ppu_addr.be_word() as usize;
        if ppu.memory.write(at, v) is Ok {
            lemma_write_keeps_wf_video(ppu.memory, at, v);
        }
    }
}

/// A read of the status byte makes the next scroll write the first of a new
/// pair, whatever was written before: the byte lands in the horizontal half,
/// and the write after it completes the pair in the vertical half.
pub proof fn lemma_status_read_restarts_pair(ppu: PpuView, first: u8, second: u8)
    ensures
        ppu.read(2).1.write(5, first).1.register.scroll_offset == (Bufu8 {
            older: first,
            later: 0,
            half: true,
        }),
        ppu.read(2).1.write(5, first).1.write(5, second).1.register.scroll_offset == (Bufu8 {
            older: first,
            later: second,
            half: false,
        }),
        ppu.read(2).1.write(6, first).1.register.ppu_addr.older == first,
        ppu.read(2).1.write(6, first).1.write(6, second).1.register.ppu_addr == (Bufu8 {
            older: first,
            later: second,
            half: false,
        }),
{
}

impl PPU {
    /// Reads register `index` of the window.
    pub fn get(&mut self, index: usize) -> (r: Result<u8, Error>)
        requires
            old(self).wf(),
        ensures
            final(self).wf(),
            (r, final(self)@) == old(self)@.read(index),
    {
        if index == 0 || index == 1 || index == 3 || index == 5 || index == 6 {
            Err(e::writeonly(index))
        } else if index == 2 {
            let register = self.register_mut();
            let status = register.status;
            register.scroll_offset.clear();
            register.ppu_addr.rewind();
            Ok(status)
        } else if index == 4 {
            Err(e::unimplemented(index))
        } else if index == 7 {
            let addr = self.register().ppu_addr();
            let v = self.memory().get(addr as usize)?;
            self.register_mut().increment_ppu_addr();
            Ok(v)
        } else {
            Err(e::index_out_of_range(index))
        }
    }

    /// Writes `v` to register `index` of the window.
    pub fn put(&mut self, index: usize, v: u8) -> (r: Result<(), Error>)
        requires
            old(self).wf(),
        ensures
            final(self).wf(),
            (r, final(self)@) == old(self)@.write(index, v),
    {
        if index == 0 {
            self.register_mut().control1 = v;
            Ok(())
        } else if index == 1 {
            self.register_mut().control2 = v;
            Ok(())
        } else if index == 2 {
            Err(e::readonly(index))
        } else if index == 3 {
            self.register_mut().sprite_addr = v;
            Ok(())
        } else if index == 4 {
            let register = self.register_mut();
            register.sprite_data = v;
            register.sprite_addr = register.sprite_addr.wrapping_add(1);
            Ok(())
        } else if index == 5 {
            self.register_mut().put_scroll_offset(v);
            Ok(())
        } else if index == 6 {
            self.register_mut().put_addr(v);
            Ok(())
        } else if index == 7 {
            let addr = self.register().ppu_addr();
            self.memory_mut().put(addr as usize, v)?;
            self.register_mut().increment_ppu_addr();
            Ok(())
        } else {
            Err(e::index_out_of_range(index))
        }
    }
}

} // verus!
