//! A latch that two successive byte writes fill.

use crate::binary::u16_to_u8;
use vstd::prelude::*;

verus! {

/// Two bytes that arrive one write at a time. `half` tells which write comes
/// next: when it is unset the next byte starts a pair and lands in `older`,
/// when it is set the next byte completes the pair and lands in `later`.
#[derive(Clone, Copy, PartialEq, Eq, Debug)]
pub struct Bufu8 {
    pub older: u8,
    pub later: u8,
    pub half: bool,
}

impl Default for Bufu8 {
    fn default() -> (r: Self)
        ensures
            r == (Bufu8 { older: 0, later: 0, half: false }),
    {
        Self { older: 0, later: 0, half: false }
    }
}

impl Bufu8 {
    /// The latch after a write of `v`.
    pub open spec fn added(self, v: u8) -> Bufu8 {
        if self.half {
            Bufu8 { older: self.older, later: v, half: false }
        } else {
            Bufu8 { older: v, later: self.later, half: true }
        }
    }

    /// The latch with its bytes kept and the next write starting a pair.
    pub open spec fn rewound(self) -> Bufu8 {
        Bufu8 { older: self.older, later: self.later, half: false }
    }

    /// The word whose low byte is `older`.
    pub open spec fn le_word(self) -> u16 {
        (self.older + 256 * self.later) as u16
    }

    /// The word whose high byte is `older`.
    pub open spec fn be_word(self) -> u16 {
        (256 * self.older + self.later) as u16
    }

    /// The latch that holds `v` as a complete pair, high byte first.
    pub open spec fn of_be_word(v: u16) -> Bufu8 {
        Bufu8 { older: (v / 256) as u8, later: (v % 256) as u8, half: false }
    }

    /// The latch that holds `v` as a complete pair, low byte first.
    pub open spec fn of_le_word(v: u16) -> Bufu8 {
        Bufu8 { older: (v % 256) as u8, later: (v / 256) as u8, half: false }
    }

    /// Takes one write.
    pub fn add(&mut self, v: u8)
        ensures
            *final(self) == old(self).added(v),
    {
        if self.half {
            self.later = v;
            self.half = false;
        } else {
            self.older = v;
            self.half = true;
        }
    }

    /// The first byte of the pair.
    pub fn older(&self) -> (r: u8)
        ensures
            r == self.older,
    {
        self.older
    }

    /// The second byte of the pair.
    pub fn later(&self) -> (r: u8)
        ensures
            r == self.later,
    {
        self.later
    }

    pub fn from_16_le_bytes(v: u16) -> (r: Self)
        ensures
            r == Self::of_le_word(v),
            r.le_word() == v,
    {
        let (upper, lower) = u16_to_u8(v);
        let mut buf = Self::default();
        buf.add(lower);
        buf.add(upper);
        buf
    }

    pub fn from_16_be_bytes(v: u16) -> (r: Self)
        ensures
            r == Self::of_be_word(v),
            r.be_word() == v,
    {
        let (upper, lower) = u16_to_u8(v);
        let mut buf = Self::default();
        buf.add(upper);
        buf.add(lower);
        buf
    }

    /// Empties the latch: both bytes zero, the next write starts a pair.
    pub fn clear(&mut self)
        ensures
            *final(self) == (Bufu8 { older: 0, later: 0, half: false }),
    {
        self.older = 0;
        self.later = 0;
        self.half = false;
    }

    /// Makes the next write start a pair and keeps the bytes.
    pub fn rewind(&mut self)
        ensures
            *final(self) == old(self).rewound(),
    {
        self.half = false;
    }

    pub fn u16_le_bytes(&self) -> (r: u16)
        ensures
            r == self.le_word(),
    {
        self.older as u16 + 256 * (self.later as u16)
    }

    pub fn u16_be_bytes(&self) -> (r: u16)
        ensures
            r == self.be_word(),
    {
        256 * (self.older as u16) + self.later as u16
    }
}

/// Two writes complete a pair, whatever the latch held, once it has been
/// rewound or cleared: the first lands in `older`, the second in `later`.
pub proof fn lemma_pair(latch: Bufu8, first: u8, second: u8)
    requires
        !latch.half,
    ensures
        latch.added(first).half,
        latch.added(first).older == first,
        latch.added(first).added(second) == (Bufu8 { older: first, later: second, half: false }),
{
}

} // verus!
