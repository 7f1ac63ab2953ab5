//! Single-bit access to bytes.

use vstd::prelude::*;

verus! {

/// Bit `n` of `b`, counted from the least significant bit.
pub open spec fn bit_of(b: u8, n: usize) -> bool {
    b & (1u8 << n) == (1u8 << n)
}

/// `b` with bit `n` forced to `v` and every other bit kept.
pub open spec fn with_bit(b: u8, n: usize, v: bool) -> u8 {
    if v {
        b | (1u8 << n)
    } else {
        b & !(1u8 << n)
    }
}

/// Single-bit test and update on a byte. Positions run from 0, the least
/// significant bit, to 7.
pub trait Byte: Sized {
    /// The byte this value stands for.
    spec fn byte(&self) -> u8;

    /// The value that stands for a byte.
    spec fn of_byte(b: u8) -> Self;

    /// Whether bit `n` is set.
    fn bit(&self, n: usize) -> (r: bool)
        requires
            n < 8,
        ensures
            r == bit_of(self.byte(), n),
    ;

    /// The value with bit `n` set to `v`.
    fn set(&self, n: usize, v: bool) -> (r: Self)
        requires
            n < 8,
        ensures
            r == Self::of_byte(with_bit(self.byte(), n, v)),
    ;
}

impl Byte for u8 {
    open spec fn byte(&self) -> u8 {
        *self
    }

    open spec fn of_byte(b: u8) -> u8 {
        b
    }

    fn bit(&self, n: usize) -> (r: bool) {
        let n: u8 = 1u8 << n;
        *self & n == n
    }

    fn set(&self, n: usize, v: bool) -> (r: u8) {
        if v {
            *self | 1u8 << n
        } else {
            *self & !(1u8 << n)
        }
    }
}

/// Setting a bit makes it read back as set, clearing it makes it read back as
/// clear, and neither touches any other bit.
pub proof fn lemma_set_then_bit(b: u8, n: usize, m: usize, v: bool)
    requires
        n < 8,
        m < 8,
    ensures
        bit_of(with_bit(b, n, v), n) == v,
        m != n ==> bit_of(with_bit(b, n, v), m) == bit_of(b, m),
{
    assert(n < 8 ==> (b | (1u8 << n)) & (1u8 << n) == (1u8 << n) && (b & !(1u8 << n)) & (1u8 << n)
        != (1u8 << n)) by (bit_vector);
    assert(n < 8 && m < 8 && m != n ==> (((b | (1u8 << n)) & (1u8 << m) == (1u8 << m)) <==> (b & (
    1u8 << m) == (1u8 << m))) && (((b & !(1u8 << n)) & (1u8 << m) == (1u8 << m)) <==> (b & (1u8
        << m) == (1u8 << m)))) by (bit_vector);
}

/// Bit `n` is set exactly when the `n`-th binary digit of the byte is one.
pub proof fn lemma_bit_is_digit(b: u8, n: usize)
    requires
        n < 8,
    ensures
        bit_of(b, n) == ((b as int / vstd::arithmetic::power2::pow2(n as nat) as int) % 2 == 1),
{
    vstd::arithmetic::power2::lemma2_to64();
    assert({
        &&& (b & (1u8 << 0usize) == (1u8 << 0usize) <==> (b / 1) % 2 == 1)
        &&& (b & (1u8 << 1usize) == (1u8 << 1usize) <==> (b / 2) % 2 == 1)
        &&& (b & (1u8 << 2usize) == (1u8 << 2usize) <==> (b / 4) % 2 == 1)
        &&& (b & (1u8 << 3usize) == (1u8 << 3usize) <==> (b / 8) % 2 == 1)
        &&& (b & (1u8 << 4usize) == (1u8 << 4usize) <==> (b / 16) % 2 == 1)
        &&& (b & (1u8 << 5usize) == (1u8 << 5usize) <==> (b / 32) % 2 == 1)
        &&& (b & (1u8 << 6usize) == (1u8 << 6usize) <==> (b / 64) % 2 == 1)
        &&& (b & (1u8 << 7usize) == (1u8 << 7usize) <==> (b / 128) % 2 == 1)
    }) by (bit_vector);
}

} // verus!
