//! The cycle counter of the picture unit, and what it says of the beam.

use crate::display::H;
use crate::display::W;
use vstd::prelude::*;

verus! {

/// A row of tiles of the frame, counted from the top: eight scanlines.
#[derive(Debug, Clone, Copy)]
pub struct Line(pub usize);

impl Line {
    /// Whether this is the lowest row of tiles of the frame.
    pub fn is_last(&self) -> (r: bool)
        ensures
            r == (self.0 == LAST_LINE),
    {
        let Line(v) = self;
        *v == (H / 8) - 1
    }
}

/// The cycles of a scanline that draw nothing.
pub const HBLANK: usize = 341 - W;

/// The cycles of a scanline: 256 that draw, then the horizontal blank.
pub const H_CYCLE: usize = HBLANK + W;

/// The scanlines of the vertical blank.
pub const VBLANK: usize = 20;

/// The scanlines of a frame: 240 that draw, then the vertical blank.
pub const V_CYCLE: usize = H + VBLANK;

/// The cycles of a row of tiles.
pub const LINE_CYCLES: usize = 2728;

/// The cycles of the visible part of a frame.
pub const VISIBLE_CYCLES: usize = 81840;

/// The cycles of a frame.
pub const FRAME_CYCLES: usize = 88660;

/// The number of the lowest row of tiles.
pub const LAST_LINE: usize = 29;

/// The row of tiles that is due once the counter goes from `before` to
/// `before + budget`: the row that the counter stood in, if the counter
/// passes the end of that row and stays inside the visible part of the
/// frame. Nothing is due where no row boundary is passed, nor once the
/// counter lies in the vertical blank. However many row boundaries the
/// budget crosses, one row is due.
pub open spec fn line_due(before: nat, budget: nat) -> Option<int> {
    if before + budget < VISIBLE_CYCLES && (before + budget) / (LINE_CYCLES as nat) > before / (
    LINE_CYCLES as nat) {
        Some(before as int / LINE_CYCLES as int)
    } else {
        None
    }
}

/// Whether the counter, going from `before` to `before + budget`, leaves the
/// visible part of the frame for the vertical blank.
pub open spec fn blank_begins(before: nat, budget: nat) -> bool {
    before < VISIBLE_CYCLES <= before + budget
}

/// Counts the pixel-clock cycles since the frame began.
#[derive(Debug)]
pub struct PPUCycle {
    cycle: usize,
}

impl Default for PPUCycle {
    /// A counter at the start of a frame.
    fn default() -> (r: Self)
        ensures
            r@ == 0,
    {
        PPUCycle { cycle: 0 }
    }
}

impl View for PPUCycle {
    type V = nat;

    /// The cycles counted.
    closed spec fn view(&self) -> nat {
        self.cycle as nat
    }
}

impl PPUCycle {
    /// A counter at the start of a frame.
    pub fn new() -> (r: Self)
        ensures
            r@ == 0,
    {
        PPUCycle { cycle: 0 }
    }

    /// The cycles counted.
    pub fn count(&self) -> (r: usize)
        ensures
            r == self@,
    {
        self.cycle
    }

    /// The counter fits a machine word.
    pub proof fn lemma_bounded(&self)
        ensures
            self@ <= usize::MAX,
    {
    }

    /// The row of tiles that would be due if `cycle` cycles were added.
    pub fn next_line(&self, cycle: usize) -> (r: Option<Line>)
        requires
            self@ + cycle <= usize::MAX,
        ensures
            match line_due(self@, cycle as nat) {
                Some(y) => r matches Some(line) && line.0 == y,
                None => r is None,
            },
            r matches Some(line) ==> line.0 < LAST_LINE,
    {
        let after = self.cycle + cycle;
        if after >= H_CYCLE * (V_CYCLE - VBLANK) {
            None
        } else {
            let target_cycles = Self::next_target_cycle(self.cycle);
            if target_cycles > after {
                None
            } else {
                Some(Line(Self::cycle_sprite_line(target_cycles) - 1))
            }
        }
    }

    /// Whether adding `cycle` cycles takes the beam from the visible part of
    /// the frame into the vertical blank.
    pub fn enters_vblank(&self, cycle: usize) -> (r: bool)
        requires
            self@ + cycle <= usize::MAX,
        ensures
            r == blank_begins(self@, cycle as nat),
    {
        !self.is_vblank() && self.cycle + cycle >= H_CYCLE * (V_CYCLE - VBLANK)
    }

    /// The row of tiles that the beam is in. From row 30 on the beam is in
    /// the vertical blank.
    pub fn line(&self) -> (r: Line)
        ensures
            r.0 == self@ / (LINE_CYCLES as nat),
    {
        Line(Self::cycle_sprite_line(self.cycle))
    }

    /// Adds `cycle` cycles and tells which row of tiles is due.
    pub fn add_cycle_with_next(&mut self, cycle: usize) -> (r: Option<Line>)
        requires
            old(self)@ + cycle <= usize::MAX,
        ensures
            final(self)@ == old(self)@ + cycle,
            match line_due(old(self)@, cycle as nat) {
                Some(y) => r matches Some(line) && line.0 == y,
                None => r is None,
            },
            r matches Some(line) ==> line.0 < LAST_LINE,
    {
        let r = self.next_line(cycle);
        self.cycle += cycle;
        r
    }

    /// The row of tiles that a count of `cycle` lies in.
    fn cycle_sprite_line(cycle: usize) -> (r: usize)
        ensures
            r == cycle / LINE_CYCLES,
    {
        assert(cycle / 341 / 8 == cycle / 2728) by (nonlinear_arith);
        cycle / H_CYCLE / 8
    }

    /// The first row boundary after a count of `cycle`: the end of the row
    /// that the count lies in.
    fn next_target_cycle(cycle: usize) -> (r: usize)
        requires
            cycle < VISIBLE_CYCLES,
        ensures
            r == LINE_CYCLES * (cycle / LINE_CYCLES + 1),
            cycle < r <= cycle + LINE_CYCLES,
    {
        let drawed_sprite_line = Self::cycle_sprite_line(cycle);
        H_CYCLE * ((drawed_sprite_line + 1) * 8)
    }

    /// The scanline that the beam is on, counted from the top of the frame.
    pub fn scanline(&self) -> (r: usize)
        ensures
            r == self@ / (H_CYCLE as nat),
    {
        self.cycle / H_CYCLE
    }

    /// Whether the beam is past the 256 cycles of its scanline that draw.
    pub fn is_hblank(&self) -> (r: bool)
        ensures
            r == (self@ % (H_CYCLE as nat) >= W),
    {
        self.cycle % H_CYCLE >= W
    }

    /// Whether the beam has left the visible part of the frame.
    pub fn is_vblank(&self) -> (r: bool)
        ensures
            r == (self@ >= VISIBLE_CYCLES),
    {
        self.cycle >= H_CYCLE * (V_CYCLE - VBLANK)
    }

    /// Whether the cycles of a whole frame have been counted.
    pub fn has_drawed(&self) -> (r: bool)
        ensures
            r == (self@ >= FRAME_CYCLES),
    {
        self.cycle >= H_CYCLE * V_CYCLE
    }

    /// Takes the cycles of one frame off the counter and keeps the rest.
    pub fn rewind(&mut self)
        requires
            old(self)@ >= FRAME_CYCLES,
        ensures
            final(self)@ == old(self)@ - FRAME_CYCLES,
    {
        self.cycle -= H_CYCLE * V_CYCLE;
    }
}

} // verus!
