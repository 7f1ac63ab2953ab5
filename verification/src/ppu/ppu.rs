//! The picture unit: it counts cycles, and paints a row of tiles whenever the
//! beam leaves one.

use super::background_table::BackgroundView;
use super::color::color_of;
use super::cycle::blank_begins;
use super::cycle::line_due;
use super::cycle::LINE_CYCLES;
use super::cycle::Line;
use super::cycle::PPUCycle;
use super::cycle::FRAME_CYCLES;
use super::cycle::LAST_LINE;
use super::memory::MemoryMap;
use super::memory::VideoView;
use super::palette::background_palette_of;
use super::register::Register;
use super::register::VBLANK_BIT;
use crate::binary::with_bit;
use crate::display::display::flooded;
use crate::display::display::painted;
use crate::display::display::FRAME_BYTES;
use crate::display::Display;
use crate::result::e;
use crate::result::Error;
use crate::vec2::Vec2;
use vstd::prelude::*;

verus! {

/// The quadrant that holds the cell on column `tx` of row `ty` of the whole
/// background, which is 64 cells wide and 60 high.
pub open spec fn quadrant_of(tx: int, ty: int) -> int {
    (ty / 30) * 2 + tx / 32
}

/// The tile index on column `tx` of row `ty` of the whole background.
pub open spec fn tile_of(video: VideoView, tx: int, ty: int) -> u8 {
    video.backgrounds[quadrant_of(tx, ty)].tile(tx % 32, ty % 30)
}

/// The palette number of the tile on column `tx` of row `ty` of the whole
/// background.
pub open spec fn palette_number_of(video: VideoView, tx: int, ty: int) -> u8 {
    video.backgrounds[quadrant_of(tx, ty)].palette_number(tx % 32, ty % 30)
}

/// The row of tiles that is painted once the counter goes from `before` to
/// `before + budget`: the row that the beam leaves. For the rows but the
/// lowest that is the row that the counter names as due; the lowest row
/// ends where the vertical blank begins, and is painted then. So each of
/// the thirty rows is painted once in a frame.
pub open spec fn row_painted(before: nat, budget: nat) -> Option<int> {
    match line_due(before, budget) {
        Some(y) => Some(y),
        None => if blank_begins(before, budget) {
            Some(before as int / LINE_CYCLES as int)
        } else {
            None
        },
    }
}

/// What the picture unit holds.
pub struct PpuView {
    /// The cycles counted since the frame began.
    pub cycle: nat,
    pub register: Register,
    pub memory: VideoView,
    /// The bytes of the frame: four for each pixel, row by row.
    pub frame: Seq<u8>,
}

impl PpuView {
    pub open spec fn wf(self) -> bool {
        &&& self.cycle <= usize::MAX
        &&& self.memory.wf()
        &&& self.frame.len() == FRAME_BYTES
    }

    /// The column of the whole background that column `c` of the frame
    /// shows: the horizontal scroll offset, counted in tiles, moves the
    /// frame to the right, round the 64 columns.
    pub open spec fn source_x(self, c: int) -> int {
        (self.register.scroll_offset.older + c) % 64
    }

    /// The row of the whole background that row `y` of the frame shows:
    /// the vertical scroll offset, counted in tiles, moves the frame down,
    /// round the 60 rows.
    pub open spec fn source_y(self, y: int) -> int {
        (self.register.scroll_offset.later + y) % 60
    }

    /// The tile index that column `c` of row `y` of the frame shows.
    pub open spec fn tile(self, c: int, y: int) -> u8 {
        tile_of(self.memory, self.source_x(c), self.source_y(y))
    }

    /// The palette number for column `c` of row `y` of the frame.
    pub open spec fn palette_number(self, c: int, y: int) -> u8 {
        palette_number_of(self.memory, self.source_x(c), self.source_y(y))
    }

    /// Whether the pattern store has no tile for column `c` of row `y`.
    pub open spec fn lacks(self, c: int, y: int) -> bool {
        self.tile(c, y) >= self.memory.pattern.len()
    }

    /// `frame` with column `c` of row `y` painted: a blank tile counts as
    /// transparent and shows the backdrop; any other tile is painted through
    /// the background palette of its palette number.
    pub open spec fn cell(self, frame: Seq<u8>, c: int, y: int) -> Seq<u8> {
        let sprite = self.memory.pattern[self.tile(c, y) as int];
        if sprite.blank() {
            flooded(frame, c, y, color_of(self.memory.palette[0]))
        } else {
            painted(
                frame,
                c,
                y,
                sprite,
                background_palette_of(self.memory.palette, self.palette_number(c, y) as int),
            )
        }
    }

    /// The frame with the first `n` columns of row `y` painted.
    pub open spec fn rendered_upto(self, y: int, n: nat) -> Seq<u8>
        decreases n,
    {
        if n == 0 {
            self.frame
        } else {
            self.cell(self.rendered_upto(y, (n - 1) as nat), n - 1, y)
        }
    }

    /// The frame with the 32 columns of row `y` painted.
    pub open spec fn rendered(self, y: int) -> Seq<u8> {
        self.rendered_upto(y, 32)
    }

    /// The picture unit after `budget` cycles, where the pattern store has
    /// every tile of the row that is painted. The row that the beam leaves
    /// is painted; with the lowest row, as the vertical blank begins, the
    /// vertical-blank flag is set; the cycles of a frame, once counted, are
    /// taken off the counter.
    pub open spec fn advanced(self, budget: nat) -> PpuView {
        PpuView {
            cycle: if self.cycle + budget >= FRAME_CYCLES {
                (self.cycle + budget - FRAME_CYCLES) as nat
            } else {
                self.cycle + budget
            },
            register: if row_painted(self.cycle, budget) == Some(LAST_LINE as int) {
                Register { status: with_bit(self.register.status, VBLANK_BIT, true), ..self.register }
            } else {
                self.register
            },
            memory: self.memory,
            frame: match row_painted(self.cycle, budget) {
                Some(y) => self.rendered(y),
                None => self.frame,
            },
        }
    }
}

/// The cycles of one frame, added to a counter that has not reached a frame,
/// complete exactly one frame, and the counter is afterwards what it was
/// before: zero if it was zero. A budget that leaves the counter below a
/// frame completes none and is added whole.
pub proof fn lemma_full_frame(ppu: PpuView, budget: nat)
    requires
        ppu.cycle < FRAME_CYCLES,
    ensures
        ppu.advanced(FRAME_CYCLES as nat).cycle == ppu.cycle,
        ppu.advanced(FRAME_CYCLES as nat).cycle < FRAME_CYCLES,
        ppu.cycle + budget < FRAME_CYCLES ==> ppu.advanced(budget).cycle == ppu.cycle + budget,
        FRAME_CYCLES <= ppu.cycle + budget < 2 * FRAME_CYCLES ==> ppu.advanced(budget).cycle
            == ppu.cycle + budget - FRAME_CYCLES && ppu.advanced(budget).cycle < FRAME_CYCLES,
{
}

/// Where column `c` of a frame comes from, when the frame's left edge stands
/// on column `x` of the whole background: from the quadrant of the left
/// edge as long as that quadrant lasts, then from the start of the other one.
proof fn lemma_straddle(x: int, c: int)
    requires
        0 <= x,
        0 <= c < 32,
    ensures
        c < 32 - x % 32 ==> ((x + c) % 64) / 32 == (x % 64) / 32 && ((x + c) % 64) % 32 == x % 32
            + c,
        c >= 32 - x % 32 ==> ((x + c) % 64) / 32 == 1 - (x % 64) / 32 && ((x + c) % 64) % 32 == c
            - (32 - x % 32),
{
    let a = x % 64;
    assert(a % 32 == x % 32) by {
        vstd::arithmetic::div_mod::lemma_mod_mod(x, 32, 2);
    }
    assert((x + c) % 64 == (a + c) % 64) by {
        vstd::arithmetic::div_mod::lemma_add_mod_noop(x, c, 64);
        vstd::arithmetic::div_mod::lemma_add_mod_noop(a, c, 64);
        vstd::arithmetic::div_mod::lemma_mod_mod(x, 64, 1);
    }
    if a + c < 64 {
        assert((a + c) % 64 == a + c);
    } else {
        assert((a + c) % 64 == a + c - 64);
    }
}

pub struct PPU {
    cycle: PPUCycle,
    register: Register,
    memory: MemoryMap,
    display: Display,
}

impl View for PPU {
    type V = PpuView;

    closed spec fn view(&self) -> PpuView {
        PpuView {
            cycle: self.cycle@,
            register: self.register,
            memory: self.memory@,
            frame: self.display@,
        }
    }
}

impl PPU {
    /// Whether the video memory and the frame are well formed.
    pub closed spec fn wf(&self) -> bool {
        self.memory.wf() && self.display.wf()
    }

    /// A well-formed picture unit has a well-formed view.
    pub proof fn lemma_wf(&self)
        requires
            self.wf(),
        ensures
            self@.wf(),
    {
        self.display.lemma_frame_bytes();
        self.cycle.lemma_bounded();
    }

    /// A picture unit at the start of a frame.
    pub fn new(register: Register, memory: MemoryMap, display: Display) -> (r: Self)
        requires
            memory.wf(),
            display.wf(),
        ensures
            r.wf(),
            r@ == (PpuView { cycle: 0, register, memory: memory@, frame: display@ }),
    {
        PPU { cycle: PPUCycle::new(), register, memory, display }
    }

    /// The register file.
    pub fn register(&self) -> (r: &Register)
        ensures
            *r == self@.register,
    {
        &self.register
    }

    /// The video memory.
    pub fn memory(&self) -> (r: &MemoryMap)
        ensures
            r@ == self@.memory,
            self.wf() ==> r.wf(),
    {
        &self.memory
    }

    /// The frame buffer.
    pub fn display(&self) -> (r: &Display)
        ensures
            r@ == self@.frame,
            self.wf() ==> r.wf(),
    {
        &self.display
    }

    /// The cycle counter.
    pub fn cycle(&self) -> (r: &PPUCycle)
        ensures
            r@ == self@.cycle,
    {
        &self.cycle
    }

    pub(crate) fn register_mut(&mut self) -> (r: &mut Register)
        ensures
            *r == old(self)@.register,
            final(self)@ == (PpuView { register: *final(r), ..old(self)@ }),
            old(self).wf() ==> final(self).wf(),
    {
        &mut self.register
    }

    pub(crate) fn memory_mut(&mut self) -> (r: &mut MemoryMap)
        ensures
            r@ == old(self)@.memory,
            old(self).wf() ==> r.wf(),
            final(self)@ == (PpuView { memory: final(r)@, ..old(self)@ }),
            old(self).wf() && final(r).wf() ==> final(self).wf(),
    {
        &mut self.memory
    }

    /// Counts `cycle` cycles, three for each cycle that the processor has
    /// spent, and tells whether a frame is complete. When the beam leaves a
    /// row of tiles, that row is painted with the scroll offset of the
    /// moment. Where the pattern store lacks a tile of that row the call
    /// fails with the tile index of the leftmost such column, and nothing
    /// has changed.
    #[verifier::loop_isolation(false)]
    pub fn exec(&mut self, cycle: usize) -> (r: Result<bool, Error>)
        requires
            old(self).wf(),
            old(self)@.cycle + cycle <= usize::MAX,
        ensures
            final(self).wf(),
            match r {
                Ok(done) => {
                    &&& done == (old(self)@.cycle + cycle >= FRAME_CYCLES)
                    &&& final(self)@ == old(self)@.advanced(cycle as nat)
                    &&& row_painted(old(self)@.cycle, cycle as nat) matches Some(y) ==> forall|
                        c: int,
                    | 0 <= c < 32 ==> !old(self)@.lacks(c, y)
                },
                Err(error) => {
                    &&& final(self)@ == old(self)@
                    &&& row_painted(old(self)@.cycle, cycle as nat) matches Some(y) && exists|c: int|
                        {
                            &&& 0 <= c < 32
                            &&& #[trigger] old(self)@.lacks(c, y)
                            &&& forall|b: int| 0 <= b < c ==> !old(self)@.lacks(b, y)
                            &&& error == Error::OutOfRange(old(self)@.tile(c, y) as usize)
                        }
                },
            },
    {
        proof {
            self.lemma_wf();
        }
        let due = match self.cycle.next_line(cycle) {
            Some(line) => Some(line),
            None => if self.cycle.enters_vblank(cycle) {
                Some(self.cycle.line())
            } else {
                None
            },
        };
        assert(match row_painted(self@.cycle, cycle as nat) {
            Some(y) => due matches Some(line) && line.0 == y,
            None => due is None,
        });
        if let Some(line) = due {
            let Line(y) = line;
            let v = self.register.scroll_offset.older() as usize;
            let h = self.register.scroll_offset.later() as usize;
            let (name, attribute) = self.fetch_background_line(Vec2::new(v, h + y));
            let mut x: usize = 0;
            while x < 32
                invariant
                    x <= 32,
                    name@.len() == 32,
                    forall|c: int| 0 <= c < 32 ==> #[trigger] name@[c] == self@.tile(c, y as int),
                    forall|c: int| 0 <= c < x ==> !self@.lacks(c, y as int),
                decreases 32 - x,
            {
                if name[x] as usize >= self.memory.pattern.len() {
                    assert(self@.lacks(x as int, y as int));
                    return Err(e::index_out_of_range(name[x] as usize));
                }
                x += 1;
            }
            self.cycle.add_cycle_with_next(cycle);
            let mut x: usize = 0;
            while x < 32
                invariant
                    x <= 32,
                    y <= 29,
                    self.wf(),
                    name@.len() == 32,
                    attribute@.len() == 32,
                    self.memory == old(self).memory,
                    self.register == old(self).register,
                    self.cycle@ == old(self).cycle@ + cycle,
                    forall|c: int|
                        0 <= c < 32 ==> #[trigger] name@[c] == old(self)@.tile(c, y as int),
                    forall|c: int|
                        0 <= c < 32 ==> #[trigger] attribute@[c] == old(self)@.palette_number(
                            c,
                            y as int,
                        ),
                    forall|c: int| 0 <= c < 32 ==> attribute@[c] <= 3,
                    forall|c: int| 0 <= c < 32 ==> !old(self)@.lacks(c, y as int),
                    old(self)@.memory.wf(),
                    self.display@ == old(self)@.rendered_upto(y as int, x as nat),
                decreases 32 - x,
            {
                assert(!old(self)@.lacks(x as int, y as int));
                let sprite = self.memory.sprite(name[x] as usize);
                if !sprite.zero() {
                    assert(attribute@[x as int] <= 3);
                    let palette = &self.memory.palette.background_palette(attribute[x] as usize);
                    self.display.put_image(x, y, &sprite, &palette);
                } else {
                    self.display.put_plane(x, y, &self.memory.palette.background_color());
                }
                assert(self.display@ == old(self)@.rendered_upto(y as int, (x + 1) as nat));
                x += 1;
            }
            if line.is_last() {
                self.register.toggle_vblank(true);
            }
        } else {
            self.cycle.add_cycle_with_next(cycle);
        }
        if self.cycle.has_drawed() {
            self.cycle.rewind();
            return Ok(true);
        }
        Ok(false)
    }

    /// The 32 tile indices that a row of the frame shows, and with each its
    /// palette number, where the frame's top-left corner stands on column
    /// `pos.x` and the row on row `pos.y` of the whole background. The row
    /// is put together from the quadrant that the corner lies in and from
    /// its neighbour to the right, which is the left one again past the
    /// right edge.
    #[verifier::loop_isolation(false)]
    fn fetch_background_line(&self, pos: Vec2<usize>) -> (r: (Vec<u8>, Vec<u8>))
        requires
            self.wf(),
            pos.x + 32 <= usize::MAX,
        ensures
            r.0@.len() == 32,
            r.1@.len() == 32,
            forall|c: int|
                0 <= c < 32 ==> #[trigger] r.0@[c] == tile_of(
                    self@.memory,
                    (pos.x + c) % 64,
                    pos.y as int % 60,
                ),
            forall|c: int|
                0 <= c < 32 ==> #[trigger] r.1@[c] == palette_number_of(
                    self@.memory,
                    (pos.x + c) % 64,
                    pos.y as int % 60,
                ),
            forall|c: int| 0 <= c < 32 ==> #[trigger] r.1@[c] <= 3,
    {
        let Vec2 { x, y } = pos;
        let ty = y % 60;
        let below = ty / 30;
        let ly = ty % 30;
        let side = (x % 64) / 32;
        let lx = x % 32;
        assert(self@.memory.backgrounds[below * 2 + side].wf());
        assert(self@.memory.backgrounds[below * 2 + (1 - side)].wf());
        let (head, _) = self.memory.background(below * 2 + side).fetch_line(
            Vec2::new(lx, ly),
            32 - lx,
        );
        let (tail, _) = self.memory.background(below * 2 + (1 - side)).fetch_line(
            Vec2::new(0, ly),
            lx,
        );
        let mut name: Vec<u8> = Vec::new();
        name.extend_from_slice(head);
        name.extend_from_slice(tail);
        assert forall|c: int| 0 <= c < 32 implies #[trigger] name@[c] == tile_of(
            self@.memory,
            (x + c) % 64,
            ty as int,
        ) by {
            lemma_straddle(x as int, c);
            if c < 32 - lx {
                assert(name@[c] == head@[c]);
            } else {
                assert(name@[c] == tail@[c - (32 - lx)]);
            }
        }
        let mut attribute: Vec<u8> = Vec::new();
        let mut c: usize = 0;
        while c < 32
            invariant
                c <= 32,
                self.wf(),
                x + 32 <= usize::MAX,
                ty < 60,
                attribute@.len() == c,
                forall|b: int|
                    0 <= b < c ==> #[trigger] attribute@[b] == palette_number_of(
                        self@.memory,
                        (x + b) % 64,
                        ty as int,
                    ),
                forall|b: int| 0 <= b < c ==> #[trigger] attribute@[b] <= 3,
            decreases 32 - c,
        {
            let tx = (x + c) % 64;
            assert(self@.memory.backgrounds[(ty / 30) * 2 + tx / 32].wf());
            let number = self.memory.background((ty / 30) * 2 + tx / 32).palette_number(
                tx % 32,
                ty % 30,
            );
            attribute.push(number);
            c += 1;
        }
        (name, attribute)
    }
}

} // verus!
