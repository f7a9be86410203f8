//! The CPU status register: an 8-bit bitset with named bits.
//!
//! All eight bits are architecturally defined, and hardware exposes all of
//! them to software, so pushes and pulls of the whole byte must preserve
//! stored state bit for bit.

use vstd::prelude::*;

verus! {

pub const CARRY: u8 = 0b0000_0001;
pub const ZERO: u8 = 0b0000_0010;
pub const INTERRUPT_DISABLE: u8 = 0b0000_0100;
pub const DECIMAL: u8 = 0b0000_1000;
/// Software-break marker.
pub const B_FLAG: u8 = 0b0001_0000;
/// Conceptually always set on the physical hardware; not force-set here
/// except via the power-on value and explicit pulls from the stack.
pub const IGNORED: u8 = 0b0010_0000;
pub const OVERFLOW: u8 = 0b0100_0000;
pub const NEGATIVE: u8 = 0b1000_0000;

/// Whether any bit of `mask` is set in `bits`.
pub open spec fn flag_set(bits: u8, mask: u8) -> bool {
    bits & mask != 0
}

/// `bits` with every bit of `mask` set (when `on`) or cleared (when not).
pub open spec fn with_flag(bits: u8, mask: u8, on: bool) -> u8 {
    if on {
        bits | mask
    } else {
        bits & !mask
    }
}

/// `bits` with Zero and Negative updated from a value `v`:
/// Zero holds iff `v == 0`, Negative holds iff bit 7 of `v` is set.
pub open spec fn with_zn(bits: u8, v: u8) -> u8 {
    with_flag(with_flag(bits, ZERO, v == 0), NEGATIVE, v & 0x80 != 0)
}

/// The flag-update law: for every flag byte and every value `v`, the
/// Zero/Negative update sets Zero exactly when `v == 0` and Negative
/// exactly when bit 7 of `v` is set, and leaves the other six bits alone.
pub proof fn lemma_zn_flags(bits: u8, v: u8)
    ensures
        flag_set(with_zn(bits, v), ZERO) <==> v == 0,
        flag_set(with_zn(bits, v), NEGATIVE) <==> v & 0x80 != 0,
        with_zn(bits, v) & !(ZERO | NEGATIVE) == bits & !(ZERO | NEGATIVE),
{
    if v == 0 {
        assert(v & 0x80 == 0) by (bit_vector)
            requires
                v == 0,
        ;
        assert(((bits | 0x02) & !0x80) & 0x02 != 0) by (bit_vector);
        assert(((bits | 0x02) & !0x80) & 0x80 == 0) by (bit_vector);
        assert(((bits | 0x02) & !0x80) & !(0x02u8 | 0x80u8) == bits & !(0x02u8 | 0x80u8)) by (bit_vector);
    } else if v & 0x80 != 0 {
        assert(((bits & !0x02) | 0x80) & 0x02 == 0) by (bit_vector);
        assert(((bits & !0x02) | 0x80) & 0x80 != 0) by (bit_vector);
        assert(((bits & !0x02) | 0x80) & !(0x02u8 | 0x80u8) == bits & !(0x02u8 | 0x80u8)) by (bit_vector);
    } else {
        assert(((bits & !0x02) & !0x80) & 0x02 == 0) by (bit_vector);
        assert(((bits & !0x02) & !0x80) & 0x80 == 0) by (bit_vector);
        assert(((bits & !0x02) & !0x80) & !(0x02u8 | 0x80u8) == bits & !(0x02u8 | 0x80u8)) by (bit_vector);
    }
}

/// The CPU status register.
#[derive(Clone, Copy, Debug, PartialEq, Eq)]
pub struct CpuStatusFlags {
    bits: u8,
}

impl View for CpuStatusFlags {
    type V = u8;

    closed spec fn view(&self) -> u8 {
        self.bits
    }
}

impl CpuStatusFlags {
    /// A flags value holding exactly the given bits.
    pub fn from_bits_retain(bits: u8) -> (r: CpuStatusFlags)
        ensures
            r@ == bits,
    {
        CpuStatusFlags { bits }
    }

    /// A flags value from a byte, keeping the defined bits only. All eight
    /// bits of this register are defined, so every bit is kept.
    pub fn from_bits_truncate(bits: u8) -> (r: CpuStatusFlags)
        ensures
            r@ == bits,
    {
        CpuStatusFlags { bits }
    }

    /// The raw byte.
    pub fn bits(&self) -> (r: u8)
        ensures
            r == self@,
    {
        self.bits
    }

    /// Whether any bit of `mask` is set.
    pub fn contains_any(&self, mask: u8) -> (r: bool)
        ensures
            r == flag_set(self@, mask),
    {
        self.bits & mask != 0
    }

    /// Set or clear the bits of `mask`.
    pub fn set(&mut self, mask: u8, on: bool)
        ensures
            final(self)@ == with_flag(old(self)@, mask, on),
    {
        if on {
            self.bits = self.bits | mask;
        } else {
            self.bits = self.bits & !mask;
        }
    }

    /// Update Zero and Negative from a value.
    pub fn set_zn(&mut self, v: u8)
        ensures
            final(self)@ == with_zn(old(self)@, v),
    {
        self.set(ZERO, v == 0);
        self.set(NEGATIVE, v & 0x80 != 0);
    }
}

} // verus!
