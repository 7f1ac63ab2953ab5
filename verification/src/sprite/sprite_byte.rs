//! One bit-plane row of a tile, spread out to one number per pixel.

use crate::binary::bit_of;
use vstd::prelude::*;
use vstd::std_specs::ops::AddSpec;

verus! {

/// The contribution of one plane byte to pixel `column` of its row: the most
/// significant bit belongs to the leftmost pixel, column 0.
pub open spec fn plane_bit(value: u8, column: int) -> u8 {
    if bit_of(value, (7 - column) as usize) {
        1
    } else {
        0
    }
}

/// Eight pixel values, `b0` the leftmost.
#[derive(Clone, Copy, PartialEq, Eq, Debug)]
pub struct SpriteByte {
    pub b0: u8,
    pub b1: u8,
    pub b2: u8,
    pub b3: u8,
    pub b4: u8,
    pub b5: u8,
    pub b6: u8,
    pub b7: u8,
}

impl Default for SpriteByte {
    /// Eight pixels of value zero.
    fn default() -> (r: Self)
        ensures
            r == (SpriteByte { b0: 0, b1: 0, b2: 0, b3: 0, b4: 0, b5: 0, b6: 0, b7: 0 }),
    {
        SpriteByte { b0: 0, b1: 0, b2: 0, b3: 0, b4: 0, b5: 0, b6: 0, b7: 0 }
    }
}

impl SpriteByte {
    pub fn new(b0: u8, b1: u8, b2: u8, b3: u8, b4: u8, b5: u8, b6: u8, b7: u8) -> (r: Self)
        ensures
            r == (SpriteByte { b0, b1, b2, b3, b4, b5, b6, b7 }),
    {
        Self { b0, b1, b2, b3, b4, b5, b6, b7 }
    }
}

/// Pixel by pixel addition. It is defined where no sum leaves a byte.
impl std::ops::Add for SpriteByte {
    type Output = SpriteByte;

    fn add(self, rhs: Self) -> (r: SpriteByte) {
        Self::new(
            self.b0 + rhs.b0,
            self.b1 + rhs.b1,
            self.b2 + rhs.b2,
            self.b3 + rhs.b3,
            self.b4 + rhs.b4,
            self.b5 + rhs.b5,
            self.b6 + rhs.b6,
            self.b7 + rhs.b7,
        )
    }
}

impl vstd::std_specs::ops::AddSpecImpl for SpriteByte {
    open spec fn obeys_add_spec() -> bool {
        true
    }

    open spec fn add_req(self, rhs: Self) -> bool {
        &&& self.b0 + rhs.b0 <= u8::MAX
        &&& self.b1 + rhs.b1 <= u8::MAX
        &&& self.b2 + rhs.b2 <= u8::MAX
        &&& self.b3 + rhs.b3 <= u8::MAX
        &&& self.b4 + rhs.b4 <= u8::MAX
        &&& self.b5 + rhs.b5 <= u8::MAX
        &&& self.b6 + rhs.b6 <= u8::MAX
        &&& self.b7 + rhs.b7 <= u8::MAX
    }

    open spec fn add_spec(self, rhs: Self) -> SpriteByte {
        SpriteByte {
            b0: (self.b0 + rhs.b0) as u8,
            b1: (self.b1 + rhs.b1) as u8,
            b2: (self.b2 + rhs.b2) as u8,
            b3: (self.b3 + rhs.b3) as u8,
            b4: (self.b4 + rhs.b4) as u8,
            b5: (self.b5 + rhs.b5) as u8,
            b6: (self.b6 + rhs.b6) as u8,
            b7: (self.b7 + rhs.b7) as u8,
        }
    }
}

/// Spreads a plane byte out: each pixel gets the bit that belongs to it.
impl From<u8> for SpriteByte {
    fn from(value: u8) -> (r: SpriteByte) {
        assert({
            &&& (0b1000_0000u8 & value) >> 7 == (if value & (1u8 << 7usize) == (1u8 << 7usize) {
                1u8
            } else {
                0u8
            })
            &&& (0b0100_0000u8 & value) >> 6 == (if value & (1u8 << 6usize) == (1u8 << 6usize) {
                1u8
            } else {
                0u8
            })
            &&& (0b0010_0000u8 & value) >> 5 == (if value & (1u8 << 5usize) == (1u8 << 5usize) {
                1u8
            } else {
                0u8
            })
            &&& (0b0001_0000u8 & value) >> 4 == (if value & (1u8 << 4usize) == (1u8 << 4usize) {
                1u8
            } else {
                0u8
            })
            &&& (0b0000_1000u8 & value) >> 3 == (if value & (1u8 << 3usize) == (1u8 << 3usize) {
                1u8
            } else {
                0u8
            })
            &&& (0b0000_0100u8 & value) >> 2 == (if value & (1u8 << 2usize) == (1u8 << 2usize) {
                1u8
            } else {
                0u8
            })
            &&& (0b0000_0010u8 & value) >> 1 == (if value & (1u8 << 1usize) == (1u8 << 1usize) {
                1u8
            } else {
                0u8
            })
            &&& (0b0000_0001u8 & value) >> 0 == (if value & (1u8 << 0usize) == (1u8 << 0usize) {
                1u8
            } else {
                0u8
            })
        }) by (bit_vector);
        SpriteByte {
            b0: (0b1000_0000 & value) >> 7,
            b1: (0b0100_0000 & value) >> 6,
            b2: (0b0010_0000 & value) >> 5,
            b3: (0b0001_0000 & value) >> 4,
            b4: (0b0000_1000 & value) >> 3,
            b5: (0b0000_0100 & value) >> 2,
            b6: (0b0000_0010 & value) >> 1,
            b7: (0b0000_0001 & value) >> 0,
        }
    }
}

impl vstd::std_specs::convert::FromSpecImpl<u8> for SpriteByte {
    open spec fn obeys_from_spec() -> bool {
        true
    }

    open spec fn from_spec(value: u8) -> SpriteByte {
        SpriteByte {
            b0: plane_bit(value, 0),
            b1: plane_bit(value, 1),
            b2: plane_bit(value, 2),
            b3: plane_bit(value, 3),
            b4: plane_bit(value, 4),
            b5: plane_bit(value, 5),
            b6: plane_bit(value, 6),
            b7: plane_bit(value, 7),
        }
    }
}

/// The eight values as an array, leftmost first.
impl From<SpriteByte> for [u8; 8] {
    fn from(value: SpriteByte) -> (r: [u8; 8]) {
        [value.b0, value.b1, value.b2, value.b3, value.b4, value.b5, value.b6, value.b7]
    }
}

impl vstd::std_specs::convert::FromSpecImpl<SpriteByte> for [u8; 8] {
    open spec fn obeys_from_spec() -> bool {
        true
    }

    open spec fn from_spec(value: SpriteByte) -> [u8; 8] {
        [value.b0, value.b1, value.b2, value.b3, value.b4, value.b5, value.b6, value.b7]
    }
}

} // verus!
