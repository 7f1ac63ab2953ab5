//! The processor's status flags and their packing into one byte.

use crate::binary::bit_of;
use crate::binary::Byte;
use vstd::prelude::*;

verus! {

/// The seven flags. The status byte has an eighth, reserved bit, bit 5,
/// which is no flag: it always reads as set.
#[derive(Clone, Copy, PartialEq, Eq, Debug)]
pub struct StatusRegister {
    pub negative: bool,
    pub overflow: bool,
    pub breaked: bool,
    pub decimal: bool,
    pub interrupt: bool,
    pub zero: bool,
    pub carry: bool,
}

impl Default for StatusRegister {
    /// Every flag clear.
    fn default() -> (r: Self)
        ensures
            r == (StatusRegister {
                negative: false,
                overflow: false,
                breaked: false,
                decimal: false,
                interrupt: false,
                zero: false,
                carry: false,
            }),
    {
        StatusRegister {
            negative: false,
            overflow: false,
            breaked: false,
            decimal: false,
            interrupt: false,
            zero: false,
            carry: false,
        }
    }
}

/// The names of the bits of the status byte, from bit 7 down to bit 0.
#[derive(Clone, Copy, PartialEq, Eq, Debug)]
pub enum SFlag {
    N,
    V,
    R,
    B,
    D,
    I,
    Z,
    C,
}

/// The status byte of a set of flags: bit 7 negative, 6 overflow, 5 always
/// set, 4 break, 3 decimal, 2 interrupt-disable, 1 zero, 0 carry.
pub open spec fn packed(p: StatusRegister) -> u8 {
    (if p.negative {
        0x80u8
    } else {
        0u8
    }) | (if p.overflow {
        0x40u8
    } else {
        0u8
    }) | 0x20u8 | (if p.breaked {
        0x10u8
    } else {
        0u8
    }) | (if p.decimal {
        0x08u8
    } else {
        0u8
    }) | (if p.interrupt {
        0x04u8
    } else {
        0u8
    }) | (if p.zero {
        0x02u8
    } else {
        0u8
    }) | (if p.carry {
        0x01u8
    } else {
        0u8
    })
}

/// The flags that a status byte holds. Bit 5 is ignored.
pub open spec fn unpacked(value: u8) -> StatusRegister {
    StatusRegister {
        negative: bit_of(value, 7),
        overflow: bit_of(value, 6),
        breaked: bit_of(value, 4),
        decimal: bit_of(value, 3),
        interrupt: bit_of(value, 2),
        zero: bit_of(value, 1),
        carry: bit_of(value, 0),
    }
}

impl From<u8> for StatusRegister {
    fn from(value: u8) -> (r: Self) {
        Self {
            negative: value.bit(7),
            overflow: value.bit(6),
            breaked: value.bit(4),
            decimal: value.bit(3),
            interrupt: value.bit(2),
            zero: value.bit(1),
            carry: value.bit(0),
        }
    }
}

impl vstd::std_specs::convert::FromSpecImpl<u8> for StatusRegister {
    open spec fn obeys_from_spec() -> bool {
        true
    }

    open spec fn from_spec(value: u8) -> StatusRegister {
        unpacked(value)
    }
}

impl From<StatusRegister> for u8 {
    fn from(value: StatusRegister) -> (r: u8) {
        (if value.n() {
            0x80u8
        } else {
            0u8
        }) | (if value.v() {
            0x40u8
        } else {
            0u8
        }) | 0x20u8 | (if value.b() {
            0x10u8
        } else {
            0u8
        }) | (if value.d() {
            0x08u8
        } else {
            0u8
        }) | (if value.i() {
            0x04u8
        } else {
            0u8
        }) | (if value.z() {
            0x02u8
        } else {
            0u8
        }) | (if value.c() {
            0x01u8
        } else {
            0u8
        })
    }
}

impl vstd::std_specs::convert::FromSpecImpl<StatusRegister> for u8 {
    open spec fn obeys_from_spec() -> bool {
        true
    }

    open spec fn from_spec(value: StatusRegister) -> u8 {
        packed(value)
    }
}

/// Packing flags and unpacking the byte gives the flags back, and the
/// reserved bit of the byte is set whatever the flags are.
pub proof fn lemma_pack_then_unpack(p: StatusRegister)
    ensures
        unpacked(packed(p)) == p,
        bit_of(packed(p), 5),
{
    let x = packed(p);
    let (n, v, b, d, i, z, c) = (
        p.negative,
        p.overflow,
        p.breaked,
        p.decimal,
        p.interrupt,
        p.zero,
        p.carry,
    );
    assert({
        &&& (x & (1u8 << 7usize) == (1u8 << 7usize)) == n
        &&& (x & (1u8 << 6usize) == (1u8 << 6usize)) == v
        &&& (x & (1u8 << 5usize) == (1u8 << 5usize))
        &&& (x & (1u8 << 4usize) == (1u8 << 4usize)) == b
        &&& (x & (1u8 << 3usize) == (1u8 << 3usize)) == d
        &&& (x & (1u8 << 2usize) == (1u8 << 2usize)) == i
        &&& (x & (1u8 << 1usize) == (1u8 << 1usize)) == z
        &&& (x & (1u8 << 0usize) == (1u8 << 0usize)) == c
    }) by (bit_vector)
        requires
            x == (if n {
                0x80u8
            } else {
                0u8
            }) | (if v {
                0x40u8
            } else {
                0u8
            }) | 0x20u8 | (if b {
                0x10u8
            } else {
                0u8
            }) | (if d {
                0x08u8
            } else {
                0u8
            }) | (if i {
                0x04u8
            } else {
                0u8
            }) | (if z {
                0x02u8
            } else {
                0u8
            }) | (if c {
                0x01u8
            } else {
                0u8
            }),
    ;
}

/// Unpacking a byte and packing the flags gives the byte back with its
/// reserved bit set: that bit is forced, whatever the byte held.
pub proof fn lemma_unpack_then_pack(value: u8)
    ensures
        packed(unpacked(value)) == value | 0x20u8,
{
    assert((if value & (1u8 << 7usize) == (1u8 << 7usize) {
        0x80u8
    } else {
        0u8
    }) | (if value & (1u8 << 6usize) == (1u8 << 6usize) {
        0x40u8
    } else {
        0u8
    }) | 0x20u8 | (if value & (1u8 << 4usize) == (1u8 << 4usize) {
        0x10u8
    } else {
        0u8
    }) | (if value & (1u8 << 3usize) == (1u8 << 3usize) {
        0x08u8
    } else {
        0u8
    }) | (if value & (1u8 << 2usize) == (1u8 << 2usize) {
        0x04u8
    } else {
        0u8
    }) | (if value & (1u8 << 1usize) == (1u8 << 1usize) {
        0x02u8
    } else {
        0u8
    }) | (if value & (1u8 << 0usize) == (1u8 << 0usize) {
        0x01u8
    } else {
        0u8
    }) == value | 0x20u8) by (bit_vector);
}

impl StatusRegister {
    /// The flags with the one that `flag` names set to `v`.
    pub open spec fn toggled(self, flag: SFlag, v: bool) -> StatusRegister {
        match flag {
            SFlag::N => StatusRegister { negative: v, ..self },
            SFlag::V => StatusRegister { overflow: v, ..self },
            SFlag::R => self,
            SFlag::B => StatusRegister { breaked: v, ..self },
            SFlag::D => StatusRegister { decimal: v, ..self },
            SFlag::I => StatusRegister { interrupt: v, ..self },
            SFlag::Z => StatusRegister { zero: v, ..self },
            SFlag::C => StatusRegister { carry: v, ..self },
        }
    }

    pub fn n(&self) -> (r: bool)
        ensures
            r == self.negative,
    {
        self.negative
    }

    pub fn v(&self) -> (r: bool)
        ensures
            r == self.overflow,
    {
        self.overflow
    }

    /// The reserved bit, which is always set.
    pub fn r(&self) -> (r: bool)
        ensures
            r,
    {
        true
    }

    pub fn b(&self) -> (r: bool)
        ensures
            r == self.breaked,
    {
        self.breaked
    }

    pub fn d(&self) -> (r: bool)
        ensures
            r == self.decimal,
    {
        self.decimal
    }

    pub fn i(&self) -> (r: bool)
        ensures
            r == self.interrupt,
    {
        self.interrupt
    }

    pub fn z(&self) -> (r: bool)
        ensures
            r == self.zero,
    {
        self.zero
    }

    pub fn c(&self) -> (r: bool)
        ensures
            r == self.carry,
    {
        self.carry
    }

    /// Sets the flag that `flag` names to `v`. The reserved bit is no flag
    /// and cannot be named here.
    pub fn toggle(&mut self, flag: SFlag, v: bool)
        requires
            flag != SFlag::R,
        ensures
            *final(self) == old(self).toggled(flag, v),
    {
        match flag {
            SFlag::N => self.negative = v,
            SFlag::V => self.overflow = v,
            SFlag::R => {},
            SFlag::B => self.breaked = v,
            SFlag::D => self.decimal = v,
            SFlag::I => self.interrupt = v,
            SFlag::Z => self.zero = v,
            SFlag::C => self.carry = v,
        }
    }

    pub fn on(&mut self, flag: SFlag)
        requires
            flag != SFlag::R,
        ensures
            *final(self) == old(self).toggled(flag, true),
    {
        self.toggle(flag, true);
    }

    pub fn off(&mut self, flag: SFlag)
        requires
            flag != SFlag::R,
        ensures
            *final(self) == old(self).toggled(flag, false),
    {
        self.toggle(flag, false);
    }

    /// Sets the negative flag to bit 7 of `result`.
    pub fn update_negative(&mut self, result: u8)
        ensures
            *final(self) == old(self).toggled(SFlag::N, bit_of(result, 7)),
    {
        self.negative = result.bit(7);
    }

    /// Sets the zero flag when `result` is zero and clears it otherwise.
    pub fn update_zero(&mut self, result: u8)
        ensures
            *final(self) == old(self).toggled(SFlag::Z, result == 0),
    {
        self.zero = result == 0;
    }

    /// Sets the carry flag when `result`, read as a signed byte, is not
    /// negative, and clears it otherwise.
    pub fn update_carry(&mut self, result: u8)
        ensures
            *final(self) == old(self).toggled(SFlag::C, result < 0x80),
    {
        self.toggle(SFlag::C, result < 0x80);
    }
}

} // verus!
