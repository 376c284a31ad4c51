//! Unsigned fixed-point numbers, kept as the raw integer that the wire holds.

use vstd::prelude::*;

verus! {

/// A 16.16 fixed-point number: the upper half of `raw` is the integer part,
/// the lower half the fraction. Two numbers are equal when their raw forms
/// are.
#[derive(Debug, Clone, Copy, PartialEq, Eq, Structural)]
pub struct FixedPointU16 {
    pub raw: u32,
}

impl FixedPointU16 {
    /// The number with the integer part `val` and no fraction.
    pub fn new(val: u16) -> (f: FixedPointU16)
        ensures
            f.raw == val * 0x1_0000,
            f.spec_value() == val,
    {
        FixedPointU16 { raw: (val as u32) * 0x1_0000 }
    }

    /// The number with the raw form `raw`.
    pub fn new_raw(raw: u32) -> (f: FixedPointU16)
        ensures
            f.raw == raw,
    {
        FixedPointU16 { raw }
    }

    /// The integer part.
    pub open spec fn spec_value(self) -> u16 {
        (self.raw / 0x1_0000) as u16
    }

    /// The integer part.
    pub fn value(&self) -> (v: u16)
        ensures
            v == self.spec_value(),
    {
        (self.raw / 0x1_0000) as u16
    }

    /// The raw form.
    pub fn raw_value(&self) -> (raw: u32)
        ensures
            raw == self.raw,
    {
        self.raw
    }
}

/// An 8.8 fixed-point number: the upper byte of `raw` is the integer part,
/// the lower byte the fraction.
#[derive(Debug, Clone, Copy, PartialEq, Eq, Structural)]
pub struct FixedPointU8 {
    pub raw: u16,
}

impl FixedPointU8 {
    /// The number with the integer part `val` and no fraction.
    pub fn new(val: u8) -> (f: FixedPointU8)
        ensures
            f.raw == val * 0x100,
            f.spec_value() == val,
    {
        FixedPointU8 { raw: (val as u16) * 0x100 }
    }

    /// The number with the raw form `raw`.
    pub fn new_raw(raw: u16) -> (f: FixedPointU8)
        ensures
            f.raw == raw,
    {
        FixedPointU8 { raw }
    }

    /// The integer part.
    pub open spec fn spec_value(self) -> u8 {
        (self.raw / 0x100) as u8
    }

    /// The integer part.
    pub fn value(&self) -> (v: u8)
        ensures
            v == self.spec_value(),
    {
        (self.raw / 0x100) as u8
    }

    /// The raw form.
    pub fn raw_value(&self) -> (raw: u16)
        ensures
            raw == self.raw,
    {
        self.raw
    }
}

} // verus!
