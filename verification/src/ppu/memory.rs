//! The picture unit's own address space: the pattern store, the four
//! quadrants of the background and the palette table.

use super::background_table::lemma_write_keeps_wf;
use super::background_table::BackgroundTable;
use super::background_table::BackgroundView;
use super::palette::slot;
use super::palette::PaletteTable;
use crate::ines::SpriteROM;
use crate::memory::RAM;
use crate::memory::ROM;
use crate::memory::WOM;
use crate::result::e;
use crate::result::Error;
use crate::sprite::Sprite;
use vstd::prelude::*;

verus! {

/// What the video memory holds.
pub struct VideoView {
    /// The tiles of the pattern store.
    pub pattern: Seq<Sprite>,
    /// The four quadrants: 0 top-left, 1 top-right, 2 bottom-left, 3
    /// bottom-right.
    pub backgrounds: Seq<BackgroundView>,
    /// The thirty-two bytes of the palette table.
    pub palette: Seq<u8>,
}

impl VideoView {
    pub open spec fn wf(self) -> bool {
        &&& forall|i: int| 0 <= i < self.pattern.len() ==> (#[trigger] self.pattern[i]).wf()
        &&& self.backgrounds.len() == 4
        &&& forall|q: int| 0 <= q < 4 ==> (#[trigger] self.backgrounds[q]).wf()
        &&& self.palette.len() == 32
    }

    /// What a read at the video address `i` gives.
    ///
    /// | addresses       | what is read                                     |
    /// |-----------------|--------------------------------------------------|
    /// | 0x0000..=0x1FFF | nothing: the pattern store keeps decoded tiles   |
    /// | 0x2000..=0x2FFF | the four quadrants, 0x400 addresses each         |
    /// | 0x3000..=0x3EFF | the quadrants again, 0x1000 lower                |
    /// | 0x3F00..=0x3FFF | the palette table, repeated every 0x20 addresses |
    pub open spec fn read(self, i: usize) -> Result<u8, Error> {
        if i < 0x2000 {
            Err(Error::Unimplemented(i))
        } else if i < 0x3000 {
            self.backgrounds[(i - 0x2000) / 0x400].read(((i - 0x2000) % 0x400) as usize)
        } else if i < 0x3F00 {
            self.backgrounds[(i - 0x3000) / 0x400].read(((i - 0x3000) % 0x400) as usize)
        } else if i < 0x4000 {
            Ok(self.palette[slot(((i - 0x3F00) % 0x20) as usize)])
        } else {
            Err(Error::OutOfRange(i))
        }
    }

    /// What a write of `v` at the video address `i` leads to. The pattern
    /// store cannot be written, and the two mirrors take no writes.
    pub open spec fn write(self, i: usize, v: u8) -> Result<VideoView, Error> {
        if i < 0x2000 {
            Err(Error::ReadOnly(i))
        } else if i < 0x3000 {
            let q = (i - 0x2000) / 0x400;
            match self.backgrounds[q].write(((i - 0x2000) % 0x400) as usize, v) {
                Ok(quadrant) => Ok(
                    VideoView { backgrounds: self.backgrounds.update(q, quadrant), ..self },
                ),
                Err(error) => Err(error),
            }
        } else if i < 0x3F00 {
            Err(Error::Unimplemented(i))
        } else if i < 0x3F20 {
            Ok(VideoView { palette: self.palette.update(slot((i - 0x3F00) as usize), v), ..self })
        } else if i < 0x4000 {
            Err(Error::Unimplemented(i))
        } else {
            Err(Error::OutOfRange(i))
        }
    }
}

/// A write that succeeds keeps the video memory well formed and its pattern
/// store as it was.
pub proof fn lemma_write_keeps_wf_video(video: VideoView, i: usize, v: u8)
    requires
        video.wf(),
        video.write(i, v) is Ok,
    ensures
        video.write(i, v)->Ok_0.wf(),
        video.write(i, v)->Ok_0.pattern == video.pattern,
{
    if 0x2000 <= i < 0x3000 {
        let q = (i - 0x2000) / 0x400;
        lemma_write_keeps_wf(video.backgrounds[q], ((i - 0x2000) % 0x400) as usize, v);
    }
}

pub struct MemoryMap {
    pub pattern: SpriteROM,
    pub background0: BackgroundTable,
    pub background1: BackgroundTable,
    pub background2: BackgroundTable,
    pub background3: BackgroundTable,
    pub palette: PaletteTable,
}

impl View for MemoryMap {
    type V = VideoView;

    open spec fn view(&self) -> VideoView {
        VideoView {
            pattern: self.pattern@,
            backgrounds: seq![
                self.background0@,
                self.background1@,
                self.background2@,
                self.background3@,
            ],
            palette: self.palette@,
        }
    }
}

impl MemoryMap {
    pub open spec fn wf(&self) -> bool {
        self@.wf()
    }

    /// The tile of index `index` of the pattern store.
    pub fn sprite(&self, index: usize) -> (r: Sprite)
        requires
            index < self@.pattern.len(),
        ensures
            r == self@.pattern[index as int],
    {
        self.pattern[index]
    }

    /// A video memory with the given pattern store, four empty quadrants and
    /// an all-zero palette table.
    pub fn new(pattern: SpriteROM) -> (r: Self)
        requires
            pattern.wf(),
        ensures
            r.wf(),
            r@.pattern == pattern@,
            forall|q: int| 0 <= q < 4 ==> #[trigger] r@.backgrounds[q] == super::background_table::blank(),
            r@.palette == Seq::new(32, |i: int| 0u8),
    {
        MemoryMap {
            pattern,
            background0: BackgroundTable::default(),
            background1: BackgroundTable::default(),
            background2: BackgroundTable::default(),
            background3: BackgroundTable::default(),
            palette: PaletteTable::default(),
        }
    }

    /// The quadrant of number `q`.
    pub fn background(&self, q: usize) -> (r: &BackgroundTable)
        requires
            q < 4,
        ensures
            r@ == self@.backgrounds[q as int],
    {
        if q == 0 {
            &self.background0
        } else if q == 1 {
            &self.background1
        } else if q == 2 {
            &self.background2
        } else {
            &self.background3
        }
    }
}

impl RAM<usize> for MemoryMap {

}

impl ROM<usize> for MemoryMap {
    type Output = u8;

    open spec fn readable(&self) -> bool {
        self.wf()
    }

    open spec fn peek(&self, i: usize) -> Result<u8, Error> {
        self@.read(i)
    }

    fn get(&self, i: usize) -> (r: Result<u8, Error>) {
        if i <= 0x1FFF {
            Err(e::unimplemented(i))
        } else if i <= 0x23FF {
            self.background0.get(i - 0x2000)
        } else if i <= 0x27FF {
            self.background1.get(i - 0x2400)
        } else if i <= 0x2BFF {
            self.background2.get(i - 0x2800)
        } else if i <= 0x2FFF {
            self.background3.get(i - 0x2C00)
        } else if i <= 0x33FF {
            self.background0.get(i - 0x3000)
        } else if i <= 0x37FF {
            self.background1.get(i - 0x3400)
        } else if i <= 0x3BFF {
            self.background2.get(i - 0x3800)
        } else if i <= 0x3EFF {
            self.background3.get(i - 0x3C00)
        } else if i <= 0x3FFF {
            self.palette.get((i - 0x3F00) % 0x20)
        } else {
            Err(e::index_out_of_range(i))
        }
    }
}

impl WOM<usize> for MemoryMap {
    type Input = u8;

    open spec fn writable(&self) -> bool {
        self.wf()
    }

    open spec fn poke(&self, i: usize, v: u8) -> Result<VideoView, Error> {
        self@.write(i, v)
    }

    fn put(&mut self, i: usize, v: u8) -> (r: Result<(), Error>) {
        proof {
            if self@.write(i, v) is Ok {
                lemma_write_keeps_wf_video(self@, i, v);
            }
        }
        let r = if i <= 0x1FFF {
            Err(e::readonly(i))
        } else if i <= 0x23FF {
            self.background0.put(i - 0x2000, v)
        } else if i <= 0x27FF {
            self.background1.put(i - 0x2400, v)
        } else if i <= 0x2BFF {
            self.background2.put(i - 0x2800, v)
        } else if i <= 0x2FFF {
            self.background3.put(i - 0x2C00, v)
        } else if i <= 0x3EFF {
            Err(e::unimplemented(i))
        } else if i <= 0x3F1F {
            self.palette.put(i - 0x3F00, v)
        } else if i <= 0x3FFF {
            Err(e::unimplemented(i))
        } else {
            Err(e::index_out_of_range(i))
        };
        proof {
            match old(self)@.write(i, v) {
                Ok(after) => {
                    assert(self@.backgrounds =~= after.backgrounds);
                },
                Err(_) => {
                    assert(self@.backgrounds =~= old(self)@.backgrounds);
                },
            }
        }
        r
    }
}

} // verus!
