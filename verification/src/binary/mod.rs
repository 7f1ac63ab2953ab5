//! Helpers on bytes: single bits, halves of bytes and words, dumps.

pub mod bits;
pub mod showable;

pub use bits::bit_of;
pub use bits::with_bit;
pub use bits::Byte;
pub use showable::showable;
pub use showable::showable_with;

use vstd::prelude::*;

verus! {

/// The high and the low four bits of a byte.
pub fn byte_to_4bit(v: u8) -> (r: (u8, u8))
    ensures
        r.0 == v / 16,
        r.1 == v % 16,
{
    assert(v >> 4 == v / 16 && 0x0f & v == v % 16) by (bit_vector);
    (v >> 4, 0x0f & v)
}

/// The high and the low byte of a word.
pub fn u16_to_u8(v: u16) -> (r: (u8, u8))
    ensures
        r.0 == v / 256,
        r.1 == v % 256,
{
    assert((v >> 8) < 256 && (v >> 8) == v / 256 && (0x00FF & v) < 256 && (0x00FF & v) == v % 256)
        by (bit_vector);
    ((v >> 8) as u8, (0x00FF & v) as u8)
}

} // verus!
